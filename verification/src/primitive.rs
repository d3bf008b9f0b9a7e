//! Apple music primitive types

use crate::resource::catalog::music_video::MusicVideo;
use crate::resource::catalog::song::Song;
use crate::resource::library::music_video::LibraryMusicVideo;
use crate::resource::library::song::LibrarySong;
use crate::text::{Named, owned};
use vstd::prelude::*;

verus! {

/// Play parameters
#[derive(Default, Debug, Clone, PartialEq, Eq, Hash)]
pub struct PlayParameters {
    /// Song id
    pub id: String,
    /// Parameters kind
    pub kind: String,
}

/// Editorial notes
#[derive(Default, Debug, Clone, PartialEq, Eq, Hash)]
pub struct EditorialNotes {
    /// Name for the editorial notes
    pub name: Option<String>,
    /// Abbreviated notes that display inline or when the content appears alongside other content
    pub short: Option<String>,
    /// Notes that appear when the content displays prominently
    pub standard: Option<String>,
    /// Tag line for the editorial notes
    pub tagline: Option<String>,
}

/// Preview
#[derive(Default, Debug, Clone, PartialEq, Eq, Hash)]
pub struct Preview {
    /// Preview url
    pub url: String,
}

/// Audio variants
#[derive(Debug, Clone, PartialEq, Eq, Hash)]
pub enum AudioVariant {
    /// Dolby atmos
    DolbyAtmos,
    /// Dolby audio
    DolbyAudio,
    /// Hi-Res lossless
    HiResLossless,
    /// Lossless
    Lossless,
    /// Lossy stereo
    LossyStereo,
}

/// Content rating
#[derive(Debug, Clone, PartialEq, Eq, Hash)]
pub enum ContentRating {
    /// Clean
    Clean,
    /// Explicit
    Explicit,
}

/// Track types
#[derive(Debug, Copy, Clone, PartialEq, Eq, Hash)]
pub enum TrackType {
    /// Library music video
    ///
    /// Resource: [`LibraryMusicVideo`]
    LibraryMusicVideo,
    /// Library song
    ///
    /// Resource: [`LibrarySong`]
    LibrarySong,
    /// Music video
    ///
    /// Resource: [`MusicVideo`]
    MusicVideo,
    /// Song
    ///
    /// Resource: [`Song`]
    Song,
}

impl Named for TrackType {
    open spec fn name(&self) -> Seq<char> {
        match self {
            TrackType::LibraryMusicVideo => "library-music-videos"@,
            TrackType::LibrarySong => "library-songs"@,
            TrackType::MusicVideo => "music-videos"@,
            TrackType::Song => "songs"@,
        }
    }

    fn to_string(&self) -> (name: String) {
        let name = match self {
            TrackType::LibraryMusicVideo => "library-music-videos",
            TrackType::LibrarySong => "library-songs",
            TrackType::MusicVideo => "music-videos",
            TrackType::Song => "songs",
        };
        owned(name)
    }
}

} // verus!
