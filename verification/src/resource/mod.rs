//! Apple music resources

use crate::request::context::{share, ContextContainer, RequestContext};
use crate::request::fields::same_text;
use crate::resource::relationship::Relationship;
use std::sync::Arc;
use vstd::prelude::*;
use vstd::std_specs::convert::FromSpecImpl;

pub mod artwork;
pub mod attributes;
pub mod catalog;
pub mod genre;
pub mod history;
pub mod library;
pub mod personal_recommendation;
pub mod rating;
pub mod relationship;
pub mod storefront;
pub mod view;

verus! {

/// Apple music resource header
#[derive(Default, Debug, PartialEq, Eq, Hash)]
pub struct ResourceHeader {
    /// Identifier
    pub id: String,
    /// Relative location for the resource
    pub href: String,
}

impl Clone for ResourceHeader {
    fn clone(&self) -> (copy: Self)
        ensures
            copy == *self,
    {
        ResourceHeader { id: self.id.clone(), href: self.href.clone() }
    }
}

/// Trait for getting resource information
pub trait ResourceInfo {
    /// The header of the resource.
    spec fn header(&self) -> ResourceHeader;

    /// Get header
    fn get_header(&self) -> (header: &ResourceHeader)
        ensures
            *header == self.header(),
    ;
}

/// Trait for getting resource data type
pub trait ResourceType {
    /// The name of the type, as the server writes it.
    spec fn wire_type(&self) -> Seq<char>;

    /// Get resource type
    fn get_type(&self) -> (kind: &'static str)
        ensures
            kind@ == self.wire_type(),
    ;
}

/// Apple music resource data
#[allow(inconsistent_fields)]
#[derive(Debug, PartialEq, Eq, Hash)]
pub enum Resource {
    /// activities
    Activity {
        /// Data
        data: catalog::activity::Activity,
    },
    /// albums
    Album {
        /// Data
        data: catalog::album::Album,
    },
    /// artists
    Artist {
        /// Data
        data: catalog::artist::Artist,
    },
    /// apple-curators
    AppleCurator {
        /// Data
        data: catalog::curator::AppleCurator,
    },
    /// curators
    Curator {
        /// Data
        data: catalog::curator::Curator,
    },
    /// genres
    Genre {
        /// Data
        data: genre::Genre,
    },
    /// music-videos
    MusicVideo {
        /// Data
        data: catalog::music_video::MusicVideo,
    },
    /// personal-recommendation
    PersonalRecommendation {
        /// Data
        data: personal_recommendation::PersonalRecommendation,
    },
    /// playlists
    Playlist {
        /// Data
        data: catalog::playlist::Playlist,
    },
    /// ratings
    Rating {
        /// Data
        data: rating::Rating,
    },
    /// record-labels
    RecordLabel {
        /// Data
        data: catalog::record_label::RecordLabel,
    },
    /// songs
    Song {
        /// Data
        data: catalog::song::Song,
    },
    /// stations
    Station {
        /// Data
        data: catalog::station::Station,
    },
    /// station-genres
    StationGenre {
        /// Data
        data: catalog::station::StationGenre,
    },
    /// library-albums
    LibraryAlbum {
        /// Data
        data: library::album::LibraryAlbum,
    },
    /// library-artists
    LibraryArtist {
        /// Data
        data: library::artist::LibraryArtist,
    },
    /// library-music-videos
    LibraryMusicVideo {
        /// Data
        data: library::music_video::LibraryMusicVideo,
    },
    /// library-playlists
    LibraryPlaylist {
        /// Data
        data: library::playlist::LibraryPlaylist,
    },
    /// library-playlist-folders
    LibraryPlaylistFolder {
        /// Data
        data: library::playlist::LibraryPlaylistFolder,
    },
    /// library-songs
    LibrarySong {
        /// Data
        data: library::song::LibrarySong,
    },
}

impl ResourceInfo for Resource {
    open spec fn header(&self) -> ResourceHeader {
        match self {
            Resource::Activity { data } => data.header,
            Resource::Album { data } => data.header,
            Resource::Artist { data } => data.header,
            Resource::AppleCurator { data } => data.header,
            Resource::Curator { data } => data.header,
            Resource::Genre { data } => data.header,
            Resource::MusicVideo { data } => data.header,
            Resource::PersonalRecommendation { data } => data.header,
            Resource::Playlist { data } => data.header,
            Resource::Rating { data } => data.header,
            Resource::RecordLabel { data } => data.header,
            Resource::Song { data } => data.header,
            Resource::Station { data } => data.header,
            Resource::StationGenre { data } => data.header,
            Resource::LibraryAlbum { data } => data.header,
            Resource::LibraryArtist { data } => data.header,
            Resource::LibraryMusicVideo { data } => data.header,
            Resource::LibraryPlaylist { data } => data.header,
            Resource::LibraryPlaylistFolder { data } => data.header,
            Resource::LibrarySong { data } => data.header,
        }
    }

    fn get_header(&self) -> (header: &ResourceHeader) {
        match self {
            Resource::Activity { data } => &data.header,
            Resource::Album { data } => &data.header,
            Resource::Artist { data } => &data.header,
            Resource::AppleCurator { data } => &data.header,
            Resource::Curator { data } => &data.header,
            Resource::Genre { data } => &data.header,
            Resource::MusicVideo { data } => &data.header,
            Resource::PersonalRecommendation { data } => &data.header,
            Resource::Playlist { data } => &data.header,
            Resource::Rating { data } => &data.header,
            Resource::RecordLabel { data } => &data.header,
            Resource::Song { data } => &data.header,
            Resource::Station { data } => &data.header,
            Resource::StationGenre { data } => &data.header,
            Resource::LibraryAlbum { data } => &data.header,
            Resource::LibraryArtist { data } => &data.header,
            Resource::LibraryMusicVideo { data } => &data.header,
            Resource::LibraryPlaylist { data } => &data.header,
            Resource::LibraryPlaylistFolder { data } => &data.header,
            Resource::LibrarySong { data } => &data.header,
        }
    }
}

impl ResourceType for Resource {
    open spec fn wire_type(&self) -> Seq<char> {
        match self {
            Resource::Activity { .. } => "activities"@,
            Resource::Album { .. } => "albums"@,
            Resource::Artist { .. } => "artists"@,
            Resource::AppleCurator { .. } => "apple-curators"@,
            Resource::Curator { .. } => "curators"@,
            Resource::Genre { .. } => "genres"@,
            Resource::MusicVideo { .. } => "music-videos"@,
            Resource::PersonalRecommendation { .. } => "personal-recommendation"@,
            Resource::Playlist { .. } => "playlists"@,
            Resource::Rating { .. } => "ratings"@,
            Resource::RecordLabel { .. } => "record-labels"@,
            Resource::Song { .. } => "songs"@,
            Resource::Station { .. } => "stations"@,
            Resource::StationGenre { .. } => "station-genres"@,
            Resource::LibraryAlbum { .. } => "library-albums"@,
            Resource::LibraryArtist { .. } => "library-artists"@,
            Resource::LibraryMusicVideo { .. } => "library-music-videos"@,
            Resource::LibraryPlaylist { .. } => "library-playlists"@,
            Resource::LibraryPlaylistFolder { .. } => "library-playlist-folders"@,
            Resource::LibrarySong { .. } => "library-songs"@,
        }
    }

    fn get_type(&self) -> (kind: &'static str) {
        match self {
            Resource::Activity { .. } => "activities",
            Resource::Album { .. } => "albums",
            Resource::Artist { .. } => "artists",
            Resource::AppleCurator { .. } => "apple-curators",
            Resource::Curator { .. } => "curators",
            Resource::Genre { .. } => "genres",
            Resource::MusicVideo { .. } => "music-videos",
            Resource::PersonalRecommendation { .. } => "personal-recommendation",
            Resource::Playlist { .. } => "playlists",
            Resource::Rating { .. } => "ratings",
            Resource::RecordLabel { .. } => "record-labels",
            Resource::Song { .. } => "songs",
            Resource::Station { .. } => "stations",
            Resource::StationGenre { .. } => "station-genres",
            Resource::LibraryAlbum { .. } => "library-albums",
            Resource::LibraryArtist { .. } => "library-artists",
            Resource::LibraryMusicVideo { .. } => "library-music-videos",
            Resource::LibraryPlaylist { .. } => "library-playlists",
            Resource::LibraryPlaylistFolder { .. } => "library-playlist-folders",
            Resource::LibrarySong { .. } => "library-songs",
        }
    }
}

impl From<catalog::activity::Activity> for Resource {
    fn from(data: catalog::activity::Activity) -> (resource: Resource) {
        Resource::Activity { data }
    }
}

impl FromSpecImpl<catalog::activity::Activity> for Resource {
    open spec fn obeys_from_spec() -> bool {
        true
    }

    open spec fn from_spec(data: catalog::activity::Activity) -> Resource {
        Resource::Activity { data }
    }
}

impl From<catalog::album::Album> for Resource {
    fn from(data: catalog::album::Album) -> (resource: Resource) {
        Resource::Album { data }
    }
}

impl FromSpecImpl<catalog::album::Album> for Resource {
    open spec fn obeys_from_spec() -> bool {
        true
    }

    open spec fn from_spec(data: catalog::album::Album) -> Resource {
        Resource::Album { data }
    }
}

impl From<catalog::artist::Artist> for Resource {
    fn from(data: catalog::artist::Artist) -> (resource: Resource) {
        Resource::Artist { data }
    }
}

impl FromSpecImpl<catalog::artist::Artist> for Resource {
    open spec fn obeys_from_spec() -> bool {
        true
    }

    open spec fn from_spec(data: catalog::artist::Artist) -> Resource {
        Resource::Artist { data }
    }
}

impl From<catalog::curator::AppleCurator> for Resource {
    fn from(data: catalog::curator::AppleCurator) -> (resource: Resource) {
        Resource::AppleCurator { data }
    }
}

impl FromSpecImpl<catalog::curator::AppleCurator> for Resource {
    open spec fn obeys_from_spec() -> bool {
        true
    }

    open spec fn from_spec(data: catalog::curator::AppleCurator) -> Resource {
        Resource::AppleCurator { data }
    }
}

impl From<catalog::curator::Curator> for Resource {
    fn from(data: catalog::curator::Curator) -> (resource: Resource) {
        Resource::Curator { data }
    }
}

impl FromSpecImpl<catalog::curator::Curator> for Resource {
    open spec fn obeys_from_spec() -> bool {
        true
    }

    open spec fn from_spec(data: catalog::curator::Curator) -> Resource {
        Resource::Curator { data }
    }
}

impl From<genre::Genre> for Resource {
    fn from(data: genre::Genre) -> (resource: Resource) {
        Resource::Genre { data }
    }
}

impl FromSpecImpl<genre::Genre> for Resource {
    open spec fn obeys_from_spec() -> bool {
        true
    }

    open spec fn from_spec(data: genre::Genre) -> Resource {
        Resource::Genre { data }
    }
}

impl From<catalog::music_video::MusicVideo> for Resource {
    fn from(data: catalog::music_video::MusicVideo) -> (resource: Resource) {
        Resource::MusicVideo { data }
    }
}

impl FromSpecImpl<catalog::music_video::MusicVideo> for Resource {
    open spec fn obeys_from_spec() -> bool {
        true
    }

    open spec fn from_spec(data: catalog::music_video::MusicVideo) -> Resource {
        Resource::MusicVideo { data }
    }
}

impl From<personal_recommendation::PersonalRecommendation> for Resource {
    fn from(data: personal_recommendation::PersonalRecommendation) -> (resource: Resource) {
        Resource::PersonalRecommendation { data }
    }
}

impl FromSpecImpl<personal_recommendation::PersonalRecommendation> for Resource {
    open spec fn obeys_from_spec() -> bool {
        true
    }

    open spec fn from_spec(data: personal_recommendation::PersonalRecommendation) -> Resource {
        Resource::PersonalRecommendation { data }
    }
}

impl From<catalog::playlist::Playlist> for Resource {
    fn from(data: catalog::playlist::Playlist) -> (resource: Resource) {
        Resource::Playlist { data }
    }
}

impl FromSpecImpl<catalog::playlist::Playlist> for Resource {
    open spec fn obeys_from_spec() -> bool {
        true
    }

    open spec fn from_spec(data: catalog::playlist::Playlist) -> Resource {
        Resource::Playlist { data }
    }
}

impl From<rating::Rating> for Resource {
    fn from(data: rating::Rating) -> (resource: Resource) {
        Resource::Rating { data }
    }
}

impl FromSpecImpl<rating::Rating> for Resource {
    open spec fn obeys_from_spec() -> bool {
        true
    }

    open spec fn from_spec(data: rating::Rating) -> Resource {
        Resource::Rating { data }
    }
}

impl From<catalog::record_label::RecordLabel> for Resource {
    fn from(data: catalog::record_label::RecordLabel) -> (resource: Resource) {
        Resource::RecordLabel { data }
    }
}

impl FromSpecImpl<catalog::record_label::RecordLabel> for Resource {
    open spec fn obeys_from_spec() -> bool {
        true
    }

    open spec fn from_spec(data: catalog::record_label::RecordLabel) -> Resource {
        Resource::RecordLabel { data }
    }
}

impl From<catalog::song::Song> for Resource {
    fn from(data: catalog::song::Song) -> (resource: Resource) {
        Resource::Song { data }
    }
}

impl FromSpecImpl<catalog::song::Song> for Resource {
    open spec fn obeys_from_spec() -> bool {
        true
    }

    open spec fn from_spec(data: catalog::song::Song) -> Resource {
        Resource::Song { data }
    }
}

impl From<catalog::station::Station> for Resource {
    fn from(data: catalog::station::Station) -> (resource: Resource) {
        Resource::Station { data }
    }
}

impl FromSpecImpl<catalog::station::Station> for Resource {
    open spec fn obeys_from_spec() -> bool {
        true
    }

    open spec fn from_spec(data: catalog::station::Station) -> Resource {
        Resource::Station { data }
    }
}

impl From<catalog::station::StationGenre> for Resource {
    fn from(data: catalog::station::StationGenre) -> (resource: Resource) {
        Resource::StationGenre { data }
    }
}

impl FromSpecImpl<catalog::station::StationGenre> for Resource {
    open spec fn obeys_from_spec() -> bool {
        true
    }

    open spec fn from_spec(data: catalog::station::StationGenre) -> Resource {
        Resource::StationGenre { data }
    }
}

impl From<library::album::LibraryAlbum> for Resource {
    fn from(data: library::album::LibraryAlbum) -> (resource: Resource) {
        Resource::LibraryAlbum { data }
    }
}

impl FromSpecImpl<library::album::LibraryAlbum> for Resource {
    open spec fn obeys_from_spec() -> bool {
        true
    }

    open spec fn from_spec(data: library::album::LibraryAlbum) -> Resource {
        Resource::LibraryAlbum { data }
    }
}

impl From<library::artist::LibraryArtist> for Resource {
    fn from(data: library::artist::LibraryArtist) -> (resource: Resource) {
        Resource::LibraryArtist { data }
    }
}

impl FromSpecImpl<library::artist::LibraryArtist> for Resource {
    open spec fn obeys_from_spec() -> bool {
        true
    }

    open spec fn from_spec(data: library::artist::LibraryArtist) -> Resource {
        Resource::LibraryArtist { data }
    }
}

impl From<library::music_video::LibraryMusicVideo> for Resource {
    fn from(data: library::music_video::LibraryMusicVideo) -> (resource: Resource) {
        Resource::LibraryMusicVideo { data }
    }
}

impl FromSpecImpl<library::music_video::LibraryMusicVideo> for Resource {
    open spec fn obeys_from_spec() -> bool {
        true
    }

    open spec fn from_spec(data: library::music_video::LibraryMusicVideo) -> Resource {
        Resource::LibraryMusicVideo { data }
    }
}

impl From<library::playlist::LibraryPlaylist> for Resource {
    fn from(data: library::playlist::LibraryPlaylist) -> (resource: Resource) {
        Resource::LibraryPlaylist { data }
    }
}

impl FromSpecImpl<library::playlist::LibraryPlaylist> for Resource {
    open spec fn obeys_from_spec() -> bool {
        true
    }

    open spec fn from_spec(data: library::playlist::LibraryPlaylist) -> Resource {
        Resource::LibraryPlaylist { data }
    }
}

impl From<library::playlist::LibraryPlaylistFolder> for Resource {
    fn from(data: library::playlist::LibraryPlaylistFolder) -> (resource: Resource) {
        Resource::LibraryPlaylistFolder { data }
    }
}

impl FromSpecImpl<library::playlist::LibraryPlaylistFolder> for Resource {
    open spec fn obeys_from_spec() -> bool {
        true
    }

    open spec fn from_spec(data: library::playlist::LibraryPlaylistFolder) -> Resource {
        Resource::LibraryPlaylistFolder { data }
    }
}

impl From<library::song::LibrarySong> for Resource {
    fn from(data: library::song::LibrarySong) -> (resource: Resource) {
        Resource::LibrarySong { data }
    }
}

impl FromSpecImpl<library::song::LibrarySong> for Resource {
    open spec fn obeys_from_spec() -> bool {
        true
    }

    open spec fn from_spec(data: library::song::LibrarySong) -> Resource {
        Resource::LibrarySong { data }
    }
}

/// The kinds of resources, each with the name of the type that the server writes it with
#[derive(Debug, Copy, Clone, PartialEq, Eq, Hash)]
pub enum ResourceKind {
    /// activities
    Activity,
    /// albums
    Album,
    /// artists
    Artist,
    /// apple-curators
    AppleCurator,
    /// curators
    Curator,
    /// genres
    Genre,
    /// music-videos
    MusicVideo,
    /// personal-recommendation
    PersonalRecommendation,
    /// playlists
    Playlist,
    /// ratings
    Rating,
    /// record-labels
    RecordLabel,
    /// songs
    Song,
    /// stations
    Station,
    /// station-genres
    StationGenre,
    /// library-albums
    LibraryAlbum,
    /// library-artists
    LibraryArtist,
    /// library-music-videos
    LibraryMusicVideo,
    /// library-playlists
    LibraryPlaylist,
    /// library-playlist-folders
    LibraryPlaylistFolder,
    /// library-songs
    LibrarySong,
}

impl ResourceKind {
    /// The name of the type that resources of the kind are written with.
    pub open spec fn name(self) -> Seq<char> {
        match self {
            ResourceKind::Activity => "activities"@,
            ResourceKind::Album => "albums"@,
            ResourceKind::Artist => "artists"@,
            ResourceKind::AppleCurator => "apple-curators"@,
            ResourceKind::Curator => "curators"@,
            ResourceKind::Genre => "genres"@,
            ResourceKind::MusicVideo => "music-videos"@,
            ResourceKind::PersonalRecommendation => "personal-recommendation"@,
            ResourceKind::Playlist => "playlists"@,
            ResourceKind::Rating => "ratings"@,
            ResourceKind::RecordLabel => "record-labels"@,
            ResourceKind::Song => "songs"@,
            ResourceKind::Station => "stations"@,
            ResourceKind::StationGenre => "station-genres"@,
            ResourceKind::LibraryAlbum => "library-albums"@,
            ResourceKind::LibraryArtist => "library-artists"@,
            ResourceKind::LibraryMusicVideo => "library-music-videos"@,
            ResourceKind::LibraryPlaylist => "library-playlists"@,
            ResourceKind::LibraryPlaylistFolder => "library-playlist-folders"@,
            ResourceKind::LibrarySong => "library-songs"@,
        }
    }

    /// The kind that is written with the name of a type, if there is one.
    pub open spec fn named(name: Seq<char>) -> Option<ResourceKind> {
        if name == "activities"@ {
            Some(ResourceKind::Activity)
        } else if name == "albums"@ {
            Some(ResourceKind::Album)
        } else if name == "artists"@ {
            Some(ResourceKind::Artist)
        } else if name == "apple-curators"@ {
            Some(ResourceKind::AppleCurator)
        } else if name == "curators"@ {
            Some(ResourceKind::Curator)
        } else if name == "genres"@ {
            Some(ResourceKind::Genre)
        } else if name == "music-videos"@ {
            Some(ResourceKind::MusicVideo)
        } else if name == "personal-recommendation"@ {
            Some(ResourceKind::PersonalRecommendation)
        } else if name == "playlists"@ {
            Some(ResourceKind::Playlist)
        } else if name == "ratings"@ {
            Some(ResourceKind::Rating)
        } else if name == "record-labels"@ {
            Some(ResourceKind::RecordLabel)
        } else if name == "songs"@ {
            Some(ResourceKind::Song)
        } else if name == "stations"@ {
            Some(ResourceKind::Station)
        } else if name == "station-genres"@ {
            Some(ResourceKind::StationGenre)
        } else if name == "library-albums"@ {
            Some(ResourceKind::LibraryAlbum)
        } else if name == "library-artists"@ {
            Some(ResourceKind::LibraryArtist)
        } else if name == "library-music-videos"@ {
            Some(ResourceKind::LibraryMusicVideo)
        } else if name == "library-playlists"@ {
            Some(ResourceKind::LibraryPlaylist)
        } else if name == "library-playlist-folders"@ {
            Some(ResourceKind::LibraryPlaylistFolder)
        } else if name == "library-songs"@ {
            Some(ResourceKind::LibrarySong)
        } else {
            None
        }
    }

    /// Get the name of the type that resources of the kind are written with
    pub fn get_name(self) -> (name: &'static str)
        ensures
            name@ == self.name(),
    {
        match self {
            ResourceKind::Activity => "activities",
            ResourceKind::Album => "albums",
            ResourceKind::Artist => "artists",
            ResourceKind::AppleCurator => "apple-curators",
            ResourceKind::Curator => "curators",
            ResourceKind::Genre => "genres",
            ResourceKind::MusicVideo => "music-videos",
            ResourceKind::PersonalRecommendation => "personal-recommendation",
            ResourceKind::Playlist => "playlists",
            ResourceKind::Rating => "ratings",
            ResourceKind::RecordLabel => "record-labels",
            ResourceKind::Song => "songs",
            ResourceKind::Station => "stations",
            ResourceKind::StationGenre => "station-genres",
            ResourceKind::LibraryAlbum => "library-albums",
            ResourceKind::LibraryArtist => "library-artists",
            ResourceKind::LibraryMusicVideo => "library-music-videos",
            ResourceKind::LibraryPlaylist => "library-playlists",
            ResourceKind::LibraryPlaylistFolder => "library-playlist-folders",
            ResourceKind::LibrarySong => "library-songs",
        }
    }

    /// Reads the name of a type: a name that no kind is written with gives no kind.
    pub fn from_name(name: &str) -> (kind: Option<ResourceKind>)
        ensures
            kind == ResourceKind::named(name@),
    {
        if same_text(name, "activities") {
            Some(ResourceKind::Activity)
        } else if same_text(name, "albums") {
            Some(ResourceKind::Album)
        } else if same_text(name, "artists") {
            Some(ResourceKind::Artist)
        } else if same_text(name, "apple-curators") {
            Some(ResourceKind::AppleCurator)
        } else if same_text(name, "curators") {
            Some(ResourceKind::Curator)
        } else if same_text(name, "genres") {
            Some(ResourceKind::Genre)
        } else if same_text(name, "music-videos") {
            Some(ResourceKind::MusicVideo)
        } else if same_text(name, "personal-recommendation") {
            Some(ResourceKind::PersonalRecommendation)
        } else if same_text(name, "playlists") {
            Some(ResourceKind::Playlist)
        } else if same_text(name, "ratings") {
            Some(ResourceKind::Rating)
        } else if same_text(name, "record-labels") {
            Some(ResourceKind::RecordLabel)
        } else if same_text(name, "songs") {
            Some(ResourceKind::Song)
        } else if same_text(name, "stations") {
            Some(ResourceKind::Station)
        } else if same_text(name, "station-genres") {
            Some(ResourceKind::StationGenre)
        } else if same_text(name, "library-albums") {
            Some(ResourceKind::LibraryAlbum)
        } else if same_text(name, "library-artists") {
            Some(ResourceKind::LibraryArtist)
        } else if same_text(name, "library-music-videos") {
            Some(ResourceKind::LibraryMusicVideo)
        } else if same_text(name, "library-playlists") {
            Some(ResourceKind::LibraryPlaylist)
        } else if same_text(name, "library-playlist-folders") {
            Some(ResourceKind::LibraryPlaylistFolder)
        } else if same_text(name, "library-songs") {
            Some(ResourceKind::LibrarySong)
        } else {
            None
        }
    }
}

/// The name that a kind is written with is read as that kind: no two kinds share a name.
pub proof fn lemma_kind_round_trip(kind: ResourceKind)
    ensures
        ResourceKind::named(kind.name()) == Some(kind),
{
    // the names differ in their length or in their first letter
    reveal_strlit("activities");
    reveal_strlit("albums");
    reveal_strlit("artists");
    reveal_strlit("apple-curators");
    reveal_strlit("curators");
    reveal_strlit("genres");
    reveal_strlit("music-videos");
    reveal_strlit("personal-recommendation");
    reveal_strlit("playlists");
    reveal_strlit("ratings");
    reveal_strlit("record-labels");
    reveal_strlit("songs");
    reveal_strlit("stations");
    reveal_strlit("station-genres");
    reveal_strlit("library-albums");
    reveal_strlit("library-artists");
    reveal_strlit("library-music-videos");
    reveal_strlit("library-playlists");
    reveal_strlit("library-playlist-folders");
    reveal_strlit("library-songs");
    assert("activities"@.len() == 10 && "activities"@[0] == 'a');
    assert("albums"@.len() == 6 && "albums"@[0] == 'a');
    assert("artists"@.len() == 7 && "artists"@[0] == 'a');
    assert("apple-curators"@.len() == 14 && "apple-curators"@[0] == 'a');
    assert("curators"@.len() == 8 && "curators"@[0] == 'c');
    assert("genres"@.len() == 6 && "genres"@[0] == 'g');
    assert("music-videos"@.len() == 12 && "music-videos"@[0] == 'm');
    assert("personal-recommendation"@.len() == 23 && "personal-recommendation"@[0] == 'p');
    assert("playlists"@.len() == 9 && "playlists"@[0] == 'p');
    assert("ratings"@.len() == 7 && "ratings"@[0] == 'r');
    assert("record-labels"@.len() == 13 && "record-labels"@[0] == 'r');
    assert("songs"@.len() == 5 && "songs"@[0] == 's');
    assert("stations"@.len() == 8 && "stations"@[0] == 's');
    assert("station-genres"@.len() == 14 && "station-genres"@[0] == 's');
    assert("library-albums"@.len() == 14 && "library-albums"@[0] == 'l');
    assert("library-artists"@.len() == 15 && "library-artists"@[0] == 'l');
    assert("library-music-videos"@.len() == 20 && "library-music-videos"@[0] == 'l');
    assert("library-playlists"@.len() == 17 && "library-playlists"@[0] == 'l');
    assert("library-playlist-folders"@.len() == 24 && "library-playlist-folders"@[0] == 'l');
    assert("library-songs"@.len() == 13 && "library-songs"@[0] == 'l');
}

/// A name that is read as a kind is the name that the kind is written with.
pub proof fn lemma_kind_read(name: Seq<char>)
    ensures
        ResourceKind::named(name) matches Some(kind) ==> kind.name() == name,
{
}

impl Resource {
    /// The kind of the resource.
    pub open spec fn resource_kind(&self) -> ResourceKind {
        match self {
            Resource::Activity { .. } => ResourceKind::Activity,
            Resource::Album { .. } => ResourceKind::Album,
            Resource::Artist { .. } => ResourceKind::Artist,
            Resource::AppleCurator { .. } => ResourceKind::AppleCurator,
            Resource::Curator { .. } => ResourceKind::Curator,
            Resource::Genre { .. } => ResourceKind::Genre,
            Resource::MusicVideo { .. } => ResourceKind::MusicVideo,
            Resource::PersonalRecommendation { .. } => ResourceKind::PersonalRecommendation,
            Resource::Playlist { .. } => ResourceKind::Playlist,
            Resource::Rating { .. } => ResourceKind::Rating,
            Resource::RecordLabel { .. } => ResourceKind::RecordLabel,
            Resource::Song { .. } => ResourceKind::Song,
            Resource::Station { .. } => ResourceKind::Station,
            Resource::StationGenre { .. } => ResourceKind::StationGenre,
            Resource::LibraryAlbum { .. } => ResourceKind::LibraryAlbum,
            Resource::LibraryArtist { .. } => ResourceKind::LibraryArtist,
            Resource::LibraryMusicVideo { .. } => ResourceKind::LibraryMusicVideo,
            Resource::LibraryPlaylist { .. } => ResourceKind::LibraryPlaylist,
            Resource::LibraryPlaylistFolder { .. } => ResourceKind::LibraryPlaylistFolder,
            Resource::LibrarySong { .. } => ResourceKind::LibrarySong,
        }
    }

    /// Get the kind of the resource
    ///
    /// The type of the resource is the name that its kind is written with.
    pub fn get_kind(&self) -> (kind: ResourceKind)
        ensures
            kind == self.resource_kind(),
            kind.name() == self.wire_type(),
    {
        match self {
            Resource::Activity { .. } => ResourceKind::Activity,
            Resource::Album { .. } => ResourceKind::Album,
            Resource::Artist { .. } => ResourceKind::Artist,
            Resource::AppleCurator { .. } => ResourceKind::AppleCurator,
            Resource::Curator { .. } => ResourceKind::Curator,
            Resource::Genre { .. } => ResourceKind::Genre,
            Resource::MusicVideo { .. } => ResourceKind::MusicVideo,
            Resource::PersonalRecommendation { .. } => ResourceKind::PersonalRecommendation,
            Resource::Playlist { .. } => ResourceKind::Playlist,
            Resource::Rating { .. } => ResourceKind::Rating,
            Resource::RecordLabel { .. } => ResourceKind::RecordLabel,
            Resource::Song { .. } => ResourceKind::Song,
            Resource::Station { .. } => ResourceKind::Station,
            Resource::StationGenre { .. } => ResourceKind::StationGenre,
            Resource::LibraryAlbum { .. } => ResourceKind::LibraryAlbum,
            Resource::LibraryArtist { .. } => ResourceKind::LibraryArtist,
            Resource::LibraryMusicVideo { .. } => ResourceKind::LibraryMusicVideo,
            Resource::LibraryPlaylist { .. } => ResourceKind::LibraryPlaylist,
            Resource::LibraryPlaylistFolder { .. } => ResourceKind::LibraryPlaylistFolder,
            Resource::LibrarySong { .. } => ResourceKind::LibrarySong,
        }
    }
}

impl Resource {
    /// Whether `after` is this resource with `context` stored in every relationship and view
    /// below it, and with nothing else changed.
    pub open spec fn attached(&self, context: Arc<RequestContext>, after: &Resource) -> bool
        decreases self,
    {
        match (*self, *after) {
            (Resource::Activity { data: before }, Resource::Activity { data: after }) => {
                before.attached(context, &after)
            },
            (Resource::Album { data: before }, Resource::Album { data: after }) => {
                before.attached(context, &after)
            },
            (Resource::Artist { data: before }, Resource::Artist { data: after }) => {
                before.attached(context, &after)
            },
            (Resource::AppleCurator { data: before }, Resource::AppleCurator { data: after }) => {
                before.attached(context, &after)
            },
            (Resource::Curator { data: before }, Resource::Curator { data: after }) => {
                before.attached(context, &after)
            },
            (Resource::Genre { data: before }, Resource::Genre { data: after }) => {
                before.attached(context, &after)
            },
            (Resource::MusicVideo { data: before }, Resource::MusicVideo { data: after }) => {
                before.attached(context, &after)
            },
            (
                Resource::PersonalRecommendation { data: before },
                Resource::PersonalRecommendation { data: after },
            ) => {
                before.attached(context, &after)
            },
            (Resource::Playlist { data: before }, Resource::Playlist { data: after }) => {
                before.attached(context, &after)
            },
            (Resource::Rating { data: before }, Resource::Rating { data: after }) => {
                before.attached(context, &after)
            },
            (Resource::RecordLabel { data: before }, Resource::RecordLabel { data: after }) => {
                before.attached(context, &after)
            },
            (Resource::Song { data: before }, Resource::Song { data: after }) => {
                before.attached(context, &after)
            },
            (Resource::Station { data: before }, Resource::Station { data: after }) => {
                before.attached(context, &after)
            },
            (Resource::StationGenre { data: before }, Resource::StationGenre { data: after }) => {
                before.attached(context, &after)
            },
            (Resource::LibraryAlbum { data: before }, Resource::LibraryAlbum { data: after }) => {
                before.attached(context, &after)
            },
            (Resource::LibraryArtist { data: before }, Resource::LibraryArtist { data: after }) => {
                before.attached(context, &after)
            },
            (
                Resource::LibraryMusicVideo { data: before },
                Resource::LibraryMusicVideo { data: after },
            ) => {
                before.attached(context, &after)
            },
            (
                Resource::LibraryPlaylist { data: before },
                Resource::LibraryPlaylist { data: after },
            ) => {
                before.attached(context, &after)
            },
            (
                Resource::LibraryPlaylistFolder { data: before },
                Resource::LibraryPlaylistFolder { data: after },
            ) => {
                before.attached(context, &after)
            },
            (Resource::LibrarySong { data: before }, Resource::LibrarySong { data: after }) => {
                before.attached(context, &after)
            },
            _ => false,
        }
    }

    /// Stores the context in every relationship and view below this resource.
    pub fn attach(&mut self, context: &Arc<RequestContext>)
        ensures
            old(self).attached(*context, final(self)),
            final(self).attached(*context, final(self)),
        decreases *old(self),
    {
        match self {
            Resource::Activity { data } => data.attach(context),
            Resource::Album { data } => data.attach(context),
            Resource::Artist { data } => data.attach(context),
            Resource::AppleCurator { data } => data.attach(context),
            Resource::Curator { data } => data.attach(context),
            Resource::Genre { data } => data.attach(context),
            Resource::MusicVideo { data } => data.attach(context),
            Resource::PersonalRecommendation { data } => data.attach(context),
            Resource::Playlist { data } => data.attach(context),
            Resource::Rating { data } => data.attach(context),
            Resource::RecordLabel { data } => data.attach(context),
            Resource::Song { data } => data.attach(context),
            Resource::Station { data } => data.attach(context),
            Resource::StationGenre { data } => data.attach(context),
            Resource::LibraryAlbum { data } => data.attach(context),
            Resource::LibraryArtist { data } => data.attach(context),
            Resource::LibraryMusicVideo { data } => data.attach(context),
            Resource::LibraryPlaylist { data } => data.attach(context),
            Resource::LibraryPlaylistFolder { data } => data.attach(context),
            Resource::LibrarySong { data } => data.attach(context),
        }
    }

    /// Whether `after` holds the items of `before`, one for one, with `context` stored in
    /// every relationship and view below each.
    pub open spec fn attached_each(
        before: Seq<Resource>,
        context: Arc<RequestContext>,
        after: Seq<Resource>,
    ) -> bool
        decreases before,
    {
        &&& after.len() == before.len()
        &&& forall|i: int|
            0 <= i < before.len() ==> (#[trigger] before[i]).attached(context, &after[i])
    }

    /// Stores the context below each of the items.
    pub fn attach_each(items: &mut Vec<Resource>, context: &Arc<RequestContext>)
        ensures
            Resource::attached_each(old(items)@, *context, final(items)@),
            Resource::attached_each(final(items)@, *context, final(items)@),
        decreases *old(items),
    {
        let n = items.len();
        let mut i: usize = 0;
        while i < n
            invariant
                i <= n,
                items@.len() == n,
                old(items)@.len() == n,
                forall|j: int|
                    0 <= j < i ==> (#[trigger] old(items)@[j]).attached(*context, &items@[j]),
                forall|j: int| 0 <= j < i ==> (#[trigger] items@[j]).attached(*context, &items@[j]),
                forall|j: int| i <= j < n ==> items@[j] == old(items)@[j],
            decreases n - i,
        {
            items[i].attach(context);
            i += 1;
        }
    }

    /// Whether `after` is the relationship `before`, if there is one, with `context` stored
    /// in it and below each of its items.
    pub open spec fn attached_in(
        before: Option<Relationship<Resource>>,
        context: Arc<RequestContext>,
        after: Option<Relationship<Resource>>,
    ) -> bool
        decreases before,
    {
        match (before, after) {
            (Some(before), Some(after)) => {
                &&& after.context() == Some(context)
                &&& after.href == before.href
                &&& after.next == before.next
                &&& Resource::attached_each(before.data@, context, after.data@)
            },
            (None, None) => true,
            _ => false,
        }
    }

    /// Stores the context in a relationship, if there is one, and below each of its items.
    pub fn attach_in(
        relationship: &mut Option<Relationship<Resource>>,
        context: &Arc<RequestContext>,
    )
        ensures
            Resource::attached_in(*old(relationship), *context, *final(relationship)),
            Resource::attached_in(*final(relationship), *context, *final(relationship)),
        decreases *old(relationship),
    {
        match relationship {
            Some(relationship) => {
                relationship.install(share(context));
                Resource::attach_each(&mut relationship.data, context);
            },
            None => {},
        }
    }

    /// A copy of this resource.
    pub fn duplicate(&self) -> (copy: Resource)
        ensures
            self.copied(&copy),
        decreases self,
    {
        match self {
            Resource::Activity { data } => Resource::Activity { data: data.duplicate() },
            Resource::Album { data } => Resource::Album { data: data.duplicate() },
            Resource::Artist { data } => Resource::Artist { data: data.duplicate() },
            Resource::AppleCurator { data } => Resource::AppleCurator { data: data.duplicate() },
            Resource::Curator { data } => Resource::Curator { data: data.duplicate() },
            Resource::Genre { data } => Resource::Genre { data: data.duplicate() },
            Resource::MusicVideo { data } => Resource::MusicVideo { data: data.duplicate() },
            Resource::PersonalRecommendation { data } => {
                Resource::PersonalRecommendation { data: data.duplicate() }
            },
            Resource::Playlist { data } => Resource::Playlist { data: data.duplicate() },
            Resource::Rating { data } => Resource::Rating { data: data.duplicate() },
            Resource::RecordLabel { data } => Resource::RecordLabel { data: data.duplicate() },
            Resource::Song { data } => Resource::Song { data: data.duplicate() },
            Resource::Station { data } => Resource::Station { data: data.duplicate() },
            Resource::StationGenre { data } => Resource::StationGenre { data: data.duplicate() },
            Resource::LibraryAlbum { data } => Resource::LibraryAlbum { data: data.duplicate() },
            Resource::LibraryArtist { data } => Resource::LibraryArtist { data: data.duplicate() },
            Resource::LibraryMusicVideo { data } => {
                Resource::LibraryMusicVideo { data: data.duplicate() }
            },
            Resource::LibraryPlaylist { data } => {
                Resource::LibraryPlaylist { data: data.duplicate() }
            },
            Resource::LibraryPlaylistFolder { data } => {
                Resource::LibraryPlaylistFolder { data: data.duplicate() }
            },
            Resource::LibrarySong { data } => Resource::LibrarySong { data: data.duplicate() },
        }
    }

    /// Copies of the items, in their order.
    pub fn duplicate_each(items: &Vec<Resource>) -> (copies: Vec<Resource>)
        ensures
            Resource::copied_each(items@, copies@),
        decreases items,
    {
        let mut copies: Vec<Resource> = Vec::new();
        let mut i: usize = 0;
        while i < items.len()
            invariant
                i <= items@.len(),
                copies@.len() == i,
                forall|j: int| 0 <= j < i ==> (#[trigger] items@[j]).copied(&copies@[j]),
            decreases items@.len() - i,
        {
            copies.push(items[i].duplicate());
            i += 1;
        }
        copies
    }

    /// A copy of a relationship, if there is one.
    pub fn duplicate_in(relationship: &Option<Relationship<Resource>>) -> (copy: Option<
        Relationship<Resource>,
    >)
        ensures
            Resource::copied_in(*relationship, copy),
        decreases relationship,
    {
        match relationship {
            Some(relationship) => Some(
                Relationship {
                    href: relationship.href.clone(),
                    next: relationship.next.clone(),
                    data: Resource::duplicate_each(&relationship.data),
                    context: relationship.context.clone(),
                },
            ),
            None => None,
        }
    }

    /// Whether `copy` holds what this resource holds: the same header, a clone of the
    /// attributes, and a copy of every relationship and view below it, each with the
    /// context that it holds.
    pub open spec fn copied(&self, copy: &Resource) -> bool
        decreases self,
    {
        match (*self, *copy) {
            (Resource::Activity { data }, Resource::Activity { data: copy }) => data.copied(&copy),
            (Resource::Album { data }, Resource::Album { data: copy }) => data.copied(&copy),
            (Resource::Artist { data }, Resource::Artist { data: copy }) => data.copied(&copy),
            (Resource::AppleCurator { data }, Resource::AppleCurator { data: copy }) => {
                data.copied(&copy)
            },
            (Resource::Curator { data }, Resource::Curator { data: copy }) => data.copied(&copy),
            (Resource::Genre { data }, Resource::Genre { data: copy }) => data.copied(&copy),
            (Resource::MusicVideo { data }, Resource::MusicVideo { data: copy }) => {
                data.copied(&copy)
            },
            (
                Resource::PersonalRecommendation { data },
                Resource::PersonalRecommendation { data: copy },
            ) => data.copied(&copy),
            (Resource::Playlist { data }, Resource::Playlist { data: copy }) => data.copied(&copy),
            (Resource::Rating { data }, Resource::Rating { data: copy }) => data.copied(&copy),
            (Resource::RecordLabel { data }, Resource::RecordLabel { data: copy }) => {
                data.copied(&copy)
            },
            (Resource::Song { data }, Resource::Song { data: copy }) => data.copied(&copy),
            (Resource::Station { data }, Resource::Station { data: copy }) => data.copied(&copy),
            (Resource::StationGenre { data }, Resource::StationGenre { data: copy }) => {
                data.copied(&copy)
            },
            (Resource::LibraryAlbum { data }, Resource::LibraryAlbum { data: copy }) => {
                data.copied(&copy)
            },
            (Resource::LibraryArtist { data }, Resource::LibraryArtist { data: copy }) => {
                data.copied(&copy)
            },
            (Resource::LibraryMusicVideo { data }, Resource::LibraryMusicVideo { data: copy }) => {
                data.copied(&copy)
            },
            (Resource::LibraryPlaylist { data }, Resource::LibraryPlaylist { data: copy }) => {
                data.copied(&copy)
            },
            (
                Resource::LibraryPlaylistFolder { data },
                Resource::LibraryPlaylistFolder { data: copy },
            ) => data.copied(&copy),
            (Resource::LibrarySong { data }, Resource::LibrarySong { data: copy }) => {
                data.copied(&copy)
            },
            _ => false,
        }
    }

    /// Whether `copies` holds a copy of each of the items, in their order.
    pub open spec fn copied_each(items: Seq<Resource>, copies: Seq<Resource>) -> bool
        decreases items,
    {
        &&& copies.len() == items.len()
        &&& forall|i: int| 0 <= i < items.len() ==> (#[trigger] items[i]).copied(&copies[i])
    }

    /// Whether `copy` is a copy of a relationship, if there is one: with the same
    /// locations, the same context and a copy of each of its items.
    pub open spec fn copied_in(
        relationship: Option<Relationship<Resource>>,
        copy: Option<Relationship<Resource>>,
    ) -> bool
        decreases relationship,
    {
        match (relationship, copy) {
            (Some(relationship), Some(copy)) => {
                &&& copy.href == relationship.href
                &&& copy.next == relationship.next
                &&& copy.context() == relationship.context()
                &&& Resource::copied_each(relationship.data@, copy.data@)
            },
            (None, None) => true,
            _ => false,
        }
    }
}

impl ContextContainer for Resource {
    open spec fn propagated(&self, context: Arc<RequestContext>, after: &Self) -> bool {
        self.attached(context, after)
    }

    fn set_context(&mut self, context: Arc<RequestContext>) {
        self.attach(&context);
    }
}

impl Clone for Resource {
    fn clone(&self) -> (copy: Self)
        ensures
            self.copied(&copy),
    {
        self.duplicate()
    }
}

/// Apple music response
#[derive(Debug, Clone, PartialEq, Eq, Hash)]
pub struct ResourceResponse<R = Resource> {
    /// Data
    pub data: Vec<R>,
}

/// Apple music error response
#[derive(Debug, Clone, PartialEq, Eq, Hash)]
pub struct ErrorResponse {
    /// Error code
    pub code: Option<i32>,
    /// Error message
    pub message: Option<String>,
    /// Errors
    pub errors: Vec<MusicError>,
}

/// Apple music error
#[derive(Debug, Default, Clone, PartialEq, Eq, Hash)]
pub struct MusicError {
    /// Error id
    pub id: String,
    /// Error title
    pub title: String,
    /// Error detail
    pub detail: String,
    /// Status
    pub status: String,
    /// Error code
    pub code: String,
}

} // verus!
