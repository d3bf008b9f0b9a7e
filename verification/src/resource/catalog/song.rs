//! Song

use crate::date::year_or_date::YearOrDate;
use crate::primitive::{AudioVariant, ContentRating, EditorialNotes, PlayParameters, Preview};
use crate::request::builder::MusicRequestBuilder;
use crate::request::context::{ContextContainer, RequestContext, share};
use crate::request::extension::ExtensionTrait;
use crate::request::relationship::RelationshipTrait;
use crate::request::{
    FetchMany, FetchOne, below, catalog_endpoint, catalog_path, path_below, prepared,
    push_parameter,
};
use crate::resource::ResourceHeader;
use crate::resource::artwork::Artwork;
use crate::resource::catalog::album::Album;
use crate::resource::catalog::artist::Artist;
use crate::resource::catalog::music_video::MusicVideo;
use crate::resource::catalog::station::Station;
use crate::resource::genre::Genre;
use crate::resource::library::song::LibrarySong;
use crate::resource::relationship::Relationship;
use crate::resource::view::View;
use crate::text::{Named, join, joined, owned, slice_views};
use crate::{ApiClient, Method};
use std::sync::Arc;
use vstd::prelude::*;
use vstd::view::View as _;

verus! {

/// Song
#[derive(Default, Debug, PartialEq, Eq, Hash)]
pub struct Song {
    /// Resource header
    pub header: ResourceHeader,
    /// Song attributes
    pub attributes: Option<SongAttributes>,
    /// Song relationships
    pub relationships: SongRelationships,
}

impl Song {
    /// Get song request builder
    pub fn get<'a>() -> (builder: SongGetRequestBuilder<'a>)
        ensures
            builder.is_fresh(),
    {
        SongGetRequestBuilder::default()
    }

    /// Whether `after` is this song with `context` stored in every relationship and view
    /// below it, and with nothing else changed.
    pub open spec fn attached(&self, context: Arc<RequestContext>, after: &Song) -> bool
        decreases self,
    {
        &&& after.header == self.header
        &&& after.attributes == self.attributes
        &&& self.relationships.attached(context, &after.relationships)
    }

    /// Stores the context in every relationship and view below this song.
    pub fn attach(&mut self, context: &Arc<RequestContext>)
        ensures
            old(self).attached(*context, final(self)),
            final(self).attached(*context, final(self)),
        decreases *old(self),
    {
        self.relationships.attach(context);
    }

    /// Whether `after` holds the items of `before`, one for one, with `context` stored in
    /// every relationship and view below each.
    pub open spec fn attached_each(
        before: Seq<Song>,
        context: Arc<RequestContext>,
        after: Seq<Song>,
    ) -> bool
        decreases before,
    {
        &&& after.len() == before.len()
        &&& forall|i: int|
            0 <= i < before.len() ==> (#[trigger] before[i]).attached(context, &after[i])
    }

    /// Stores the context below each of the items.
    pub fn attach_each(items: &mut Vec<Song>, context: &Arc<RequestContext>)
        ensures
            Song::attached_each(old(items)@, *context, final(items)@),
            Song::attached_each(final(items)@, *context, final(items)@),
        decreases *old(items),
    {
        let n = items.len();
        let mut i: usize = 0;
        while i < n
            invariant
                i <= n,
                items@.len() == n,
                old(items)@.len() == n,
                forall|j: int|
                    0 <= j < i ==> (#[trigger] old(items)@[j]).attached(*context, &items@[j]),
                forall|j: int| 0 <= j < i ==> (#[trigger] items@[j]).attached(*context, &items@[j]),
                forall|j: int| i <= j < n ==> items@[j] == old(items)@[j],
            decreases n - i,
        {
            items[i].attach(context);
            i += 1;
        }
    }

    /// Whether `after` is the relationship `before`, if there is one, with `context` stored
    /// in it and below each of its items.
    pub open spec fn attached_in(
        before: Option<Relationship<Song>>,
        context: Arc<RequestContext>,
        after: Option<Relationship<Song>>,
    ) -> bool
        decreases before,
    {
        match (before, after) {
            (Some(before), Some(after)) => {
                &&& after.context() == Some(context)
                &&& after.href == before.href
                &&& after.next == before.next
                &&& Song::attached_each(before.data@, context, after.data@)
            },
            (None, None) => true,
            _ => false,
        }
    }

    /// Stores the context in a relationship, if there is one, and below each of its items.
    pub fn attach_in(relationship: &mut Option<Relationship<Song>>, context: &Arc<RequestContext>)
        ensures
            Song::attached_in(*old(relationship), *context, *final(relationship)),
            Song::attached_in(*final(relationship), *context, *final(relationship)),
        decreases *old(relationship),
    {
        match relationship {
            Some(relationship) => {
                relationship.install(share(context));
                Song::attach_each(&mut relationship.data, context);
            },
            None => {},
        }
    }

    /// Whether `after` is the view `before`, if there is one, with `context` stored in it
    /// and below each of its items.
    pub open spec fn attached_in_view<Attributes>(
        before: Option<View<Attributes, Song>>,
        context: Arc<RequestContext>,
        after: Option<View<Attributes, Song>>,
    ) -> bool
        decreases before,
    {
        match (before, after) {
            (Some(before), Some(after)) => {
                &&& after.context() == Some(context)
                &&& after.href == before.href
                &&& after.next == before.next
                &&& after.attributes == before.attributes
                &&& Song::attached_each(before.data@, context, after.data@)
            },
            (None, None) => true,
            _ => false,
        }
    }

    /// Stores the context in a view, if there is one, and below each of its items.
    pub fn attach_in_view<Attributes>(
        view: &mut Option<View<Attributes, Song>>,
        context: &Arc<RequestContext>,
    )
        ensures
            Song::attached_in_view(*old(view), *context, *final(view)),
            Song::attached_in_view(*final(view), *context, *final(view)),
        decreases *old(view),
    {
        match view {
            Some(view) => {
                view.install(share(context));
                Song::attach_each(&mut view.data, context);
            },
            None => {},
        }
    }

    /// A copy of this song.
    pub fn duplicate(&self) -> (copy: Song)
        ensures
            self.copied(&copy),
        decreases self,
    {
        Song {
            header: self.header.clone(),
            attributes: self.attributes.clone(),
            relationships: self.relationships.duplicate(),
        }
    }

    /// Copies of the items, in their order.
    pub fn duplicate_each(items: &Vec<Song>) -> (copies: Vec<Song>)
        ensures
            Song::copied_each(items@, copies@),
        decreases items,
    {
        let mut copies: Vec<Song> = Vec::new();
        let mut i: usize = 0;
        while i < items.len()
            invariant
                i <= items@.len(),
                copies@.len() == i,
                forall|j: int| 0 <= j < i ==> (#[trigger] items@[j]).copied(&copies@[j]),
            decreases items@.len() - i,
        {
            copies.push(items[i].duplicate());
            i += 1;
        }
        copies
    }

    /// A copy of a relationship, if there is one.
    pub fn duplicate_in(relationship: &Option<Relationship<Song>>) -> (copy: Option<
        Relationship<Song>,
    >)
        ensures
            Song::copied_in(*relationship, copy),
        decreases relationship,
    {
        match relationship {
            Some(relationship) => Some(
                Relationship {
                    href: relationship.href.clone(),
                    next: relationship.next.clone(),
                    data: Song::duplicate_each(&relationship.data),
                    context: relationship.context.clone(),
                },
            ),
            None => None,
        }
    }

    /// A copy of a view, if there is one.
    pub fn duplicate_in_view<Attributes: Clone>(view: &Option<View<Attributes, Song>>) -> (copy:
        Option<View<Attributes, Song>>)
        ensures
            Song::copied_in_view(*view, copy),
        decreases view,
    {
        match view {
            Some(view) => Some(
                View {
                    href: view.href.clone(),
                    next: view.next.clone(),
                    attributes: view.attributes.clone(),
                    data: Song::duplicate_each(&view.data),
                    context: view.context.clone(),
                },
            ),
            None => None,
        }
    }

    /// Whether `copy` holds what this song holds: the same header, a clone of the
    /// attributes, and a copy of every relationship and view below it, each with the
    /// context that it holds.
    pub open spec fn copied(&self, copy: &Song) -> bool
        decreases self,
    {
        &&& copy.header == self.header
        &&& cloned(self.attributes, copy.attributes)
        &&& self.relationships.copied(&copy.relationships)
    }

    /// Whether `copies` holds a copy of each of the items, in their order.
    pub open spec fn copied_each(items: Seq<Song>, copies: Seq<Song>) -> bool
        decreases items,
    {
        &&& copies.len() == items.len()
        &&& forall|i: int| 0 <= i < items.len() ==> (#[trigger] items[i]).copied(&copies[i])
    }

    /// Whether `copy` is a copy of a relationship, if there is one: with the same
    /// locations, the same context and a copy of each of its items.
    pub open spec fn copied_in(
        relationship: Option<Relationship<Song>>,
        copy: Option<Relationship<Song>>,
    ) -> bool
        decreases relationship,
    {
        match (relationship, copy) {
            (Some(relationship), Some(copy)) => {
                &&& copy.href == relationship.href
                &&& copy.next == relationship.next
                &&& copy.context() == relationship.context()
                &&& Song::copied_each(relationship.data@, copy.data@)
            },
            (None, None) => true,
            _ => false,
        }
    }

    /// Whether `copy` is a copy of a view, if there is one: with the same locations, the
    /// same context, a clone of the attributes and a copy of each of its items.
    pub open spec fn copied_in_view<Attributes: Clone>(
        view: Option<View<Attributes, Song>>,
        copy: Option<View<Attributes, Song>>,
    ) -> bool
        decreases view,
    {
        match (view, copy) {
            (Some(view), Some(copy)) => {
                &&& copy.href == view.href
                &&& copy.next == view.next
                &&& copy.context() == view.context()
                &&& cloned(view.attributes, copy.attributes)
                &&& Song::copied_each(view.data@, copy.data@)
            },
            (None, None) => true,
            _ => false,
        }
    }
}

impl ContextContainer for Song {
    open spec fn propagated(&self, context: Arc<RequestContext>, after: &Self) -> bool {
        self.attached(context, after)
    }

    fn set_context(&mut self, context: Arc<RequestContext>) {
        self.attach(&context);
    }
}

impl Clone for Song {
    fn clone(&self) -> (copy: Self)
        ensures
            self.copied(&copy),
    {
        self.duplicate()
    }
}

/// Song attributes
#[derive(Default, Debug, Clone, PartialEq, Eq, Hash)]
pub struct SongAttributes {
    /// Song album name
    pub album_name: String,
    /// Song artist name
    pub artist_name: String,
    /// **(Extended)** Song artist url
    pub artist_url: Option<String>,
    /// Album artwork
    pub artwork: Artwork,
    /// (Classical music only) Name of the artist or composer to attribute the song with
    pub attribution: Option<String>,
    /// **(Extended)** Specific audio variants for a song
    pub audio_variants: Option<Vec<AudioVariant>>,
    /// Song composer
    pub composer: Option<String>,
    /// The Recording Industry Association of America (RIAA) rating of the content. No value means no rating
    pub content_rating: Option<ContentRating>,
    /// Disc number of the album this song appears on
    pub disc_number: Option<u32>,
    /// Duration of the song in milliseconds
    pub duration_in_millis: u32,
    /// Editorial notes
    pub editorial_notes: Option<EditorialNotes>,
    /// Genre names
    pub genre_names: Vec<String>,
    /// Indicates whether the song has lyrics available in the Apple Music catalog
    pub has_lyrics: bool,
    /// Indicates whether the response delivered the song as an Apple Digital Master
    pub is_apple_digital_master: bool,
    /// The International Standard Recording Code (ISRC) for the song
    pub isrc: Option<String>,
    /// (Classical music only) The movement count of the song
    pub movement_count: u32,
    /// (Classical music only) The movement name of the song
    pub movement_name: String,
    /// (Classical music only) The movement number of the song
    pub movement_number: u32,
    /// The localized name of the song
    pub name: String,
    /// The parameters to use to play back the song
    pub play_params: Option<PlayParameters>,
    /// The preview assets for the song
    pub previews: Vec<Preview>,
    /// The release date of the song, when known, in YYYY-MM-DD or YYYY format. Prerelease songs may have an expected release date in the future
    pub release_date: Option<YearOrDate>,
    /// The number of the song in the album's track list
    pub track_number: u32,
    /// (Required) The URL for sharing the song in Apple Music
    pub url: String,
    /// (Classical music only) The name of the associated work
    pub work_name: Option<String>,
}

/// The extensions that can be asked for with songs
#[derive(Debug, Copy, Clone, PartialEq, Eq, Hash)]
pub enum SongAttributesExtension {
    /// **(Extended)** Song artist url
    ArtistUrl,
    /// **(Extended)** Specific audio variants for a song
    AudioVariants,
}

impl Named for SongAttributesExtension {
    open spec fn name(&self) -> Seq<char> {
        match self {
            SongAttributesExtension::ArtistUrl => "artistUrl"@,
            SongAttributesExtension::AudioVariants => "audioVariants"@,
        }
    }

    fn to_string(&self) -> (name: String) {
        let name = match self {
            SongAttributesExtension::ArtistUrl => "artistUrl",
            SongAttributesExtension::AudioVariants => "audioVariants",
        };
        owned(name)
    }
}

impl ExtensionTrait for SongAttributesExtension {
    open spec fn object(&self) -> Seq<char> {
        "songs"@
    }

    fn get_object(&self) -> (object: &'static str) {
        "songs"
    }
}

/// Song relationships
#[derive(Default, Debug, PartialEq, Eq, Hash)]
pub struct SongRelationships {
    /// The albums associated with the song. By default, albums includes identifiers only.
    ///
    /// Fetch limits: 10 default, 10 maximum
    ///
    /// Possible resources: [`Album`]
    pub albums: Option<Relationship<Album>>,
    /// The artists associated with the song. By default, artists includes identifiers only.
    ///
    /// Fetch limits: 10 default, 10 maximum
    ///
    /// Possible resources: [`Artist`]
    pub artists: Option<Relationship<Artist>>,
    /// The composers for a catalog song
    ///
    /// Possible resources: [`Artist`]
    pub composers: Option<Relationship<Artist>>,
    /// The genres associated with the song. By default, genres is not included.
    ///
    /// Fetch limits: None
    ///
    /// Possible resources: [`Genre`]
    pub genres: Option<Relationship<Genre>>,
    /// Library song for a catalog song if added to library
    ///
    /// Possible resources: [`LibrarySong`]
    pub library: Option<Relationship<LibrarySong>>,
    /// Music videos for a catalog song
    ///
    /// Possible resources: [`MusicVideo`]
    pub music_videos: Option<Relationship<MusicVideo>>,
    /// The station associated with the song. By default, station is not included.
    ///
    /// Fetch limits: None
    ///
    /// Possible resources: [`Station`]
    pub station: Option<Relationship<Station>>,
}

/// The relationships that can be asked for with songs
#[derive(Debug, Copy, Clone, PartialEq, Eq, Hash)]
pub enum SongRelationshipType {
    /// The albums associated with the song. By default, albums includes identifiers only.
    ///
    /// Fetch limits: 10 default, 10 maximum
    ///
    /// Possible resources: [`Album`]
    Albums,
    /// The artists associated with the song. By default, artists includes identifiers only.
    ///
    /// Fetch limits: 10 default, 10 maximum
    ///
    /// Possible resources: [`Artist`]
    Artists,
    /// The composers for a catalog song
    ///
    /// Possible resources: [`Artist`]
    Composers,
    /// The genres associated with the song. By default, genres is not included.
    ///
    /// Fetch limits: None
    ///
    /// Possible resources: [`Genre`]
    Genres,
    /// Library song for a catalog song if added to library
    ///
    /// Possible resources: [`LibrarySong`]
    Library,
    /// Music videos for a catalog song
    ///
    /// Possible resources: [`MusicVideo`]
    MusicVideos,
    /// The station associated with the song. By default, station is not included.
    ///
    /// Fetch limits: None
    ///
    /// Possible resources: [`Station`]
    Station,
}

impl Named for SongRelationshipType {
    open spec fn name(&self) -> Seq<char> {
        match self {
            SongRelationshipType::Albums => "albums"@,
            SongRelationshipType::Artists => "artists"@,
            SongRelationshipType::Composers => "composers"@,
            SongRelationshipType::Genres => "genres"@,
            SongRelationshipType::Library => "library"@,
            SongRelationshipType::MusicVideos => "music-videos"@,
            SongRelationshipType::Station => "station"@,
        }
    }

    fn to_string(&self) -> (name: String) {
        let name = match self {
            SongRelationshipType::Albums => "albums",
            SongRelationshipType::Artists => "artists",
            SongRelationshipType::Composers => "composers",
            SongRelationshipType::Genres => "genres",
            SongRelationshipType::Library => "library",
            SongRelationshipType::MusicVideos => "music-videos",
            SongRelationshipType::Station => "station",
        };
        owned(name)
    }
}

impl RelationshipTrait for SongRelationshipType {
    open spec fn object(&self) -> Seq<char> {
        "songs"@
    }

    fn get_object(&self) -> (object: &'static str) {
        "songs"
    }
}

impl SongRelationships {
    /// Whether `after` holds these relationships with `context` stored in each of them and
    /// below each of their items, and with nothing else changed.
    pub open spec fn attached(
        &self,
        context: Arc<RequestContext>,
        after: &SongRelationships,
    ) -> bool
        decreases self,
    {
        &&& Album::attached_in(self.albums, context, after.albums)
        &&& Artist::attached_in(self.artists, context, after.artists)
        &&& Artist::attached_in(self.composers, context, after.composers)
        &&& Genre::attached_in(self.genres, context, after.genres)
        &&& LibrarySong::attached_in(self.library, context, after.library)
        &&& MusicVideo::attached_in(self.music_videos, context, after.music_videos)
        &&& Station::attached_in(self.station, context, after.station)
    }

    /// Stores the context in each of these relationships and below each of their items.
    pub fn attach(&mut self, context: &Arc<RequestContext>)
        ensures
            old(self).attached(*context, final(self)),
            final(self).attached(*context, final(self)),
        decreases *old(self),
    {
        Album::attach_in(&mut self.albums, context);
        Artist::attach_in(&mut self.artists, context);
        Artist::attach_in(&mut self.composers, context);
        Genre::attach_in(&mut self.genres, context);
        LibrarySong::attach_in(&mut self.library, context);
        MusicVideo::attach_in(&mut self.music_videos, context);
        Station::attach_in(&mut self.station, context);
    }

    /// A copy of these relationships.
    pub fn duplicate(&self) -> (copy: SongRelationships)
        ensures
            self.copied(&copy),
        decreases self,
    {
        SongRelationships {
            albums: Album::duplicate_in(&self.albums),
            artists: Artist::duplicate_in(&self.artists),
            composers: Artist::duplicate_in(&self.composers),
            genres: Genre::duplicate_in(&self.genres),
            library: LibrarySong::duplicate_in(&self.library),
            music_videos: MusicVideo::duplicate_in(&self.music_videos),
            station: Station::duplicate_in(&self.station),
        }
    }

    /// Whether `copy` holds a copy of each of these relationships, with the context that it
    /// holds and a copy of each of its items.
    pub open spec fn copied(&self, copy: &SongRelationships) -> bool
        decreases self,
    {
        &&& Album::copied_in(self.albums, copy.albums)
        &&& Artist::copied_in(self.artists, copy.artists)
        &&& Artist::copied_in(self.composers, copy.composers)
        &&& Genre::copied_in(self.genres, copy.genres)
        &&& LibrarySong::copied_in(self.library, copy.library)
        &&& MusicVideo::copied_in(self.music_videos, copy.music_videos)
        &&& Station::copied_in(self.station, copy.station)
    }
}

impl ContextContainer for SongRelationships {
    open spec fn propagated(&self, context: Arc<RequestContext>, after: &Self) -> bool {
        self.attached(context, after)
    }

    fn set_context(&mut self, context: Arc<RequestContext>) {
        self.attach(&context);
    }
}

impl Clone for SongRelationships {
    fn clone(&self) -> (copy: Self)
        ensures
            self.copied(&copy),
    {
        self.duplicate()
    }
}

/// Song request builder
pub struct SongRequestBuilder;

/// Song get request builder
pub type SongGetRequestBuilder<'a> = MusicRequestBuilder<'a, SongRequestBuilder>;

impl<'a> SongGetRequestBuilder<'a> {
    /// Fetch one song by id
    pub fn one(self, client: &ApiClient, id: &str) -> (fetch: FetchOne<Song>)
        ensures
            prepared(
                fetch.request,
                fetch.context,
                Method::Get,
                below(catalog_endpoint(self.storefront(client), "songs"@), id@),
                self.storefront(client),
                self.query(client),
            ),
    {
        let mut builder = self;
        let context = builder.get_request_context_drain(client);
        let endpoint = catalog_path(&context.storefront, "songs");
        let path = path_below(endpoint.as_str(), id);
        FetchOne::new(client.get(path.as_str()), context)
    }

    /// Fetch multiple songs by id
    ///
    /// # Params
    ///
    /// * isrc - if the ids are ISRCs or song ids, false means song ids, true means ISRCs
    pub fn many(self, client: &ApiClient, ids: &[&str], isrc: bool) -> (fetch: FetchMany<Song>)
        ensures
            prepared(
                fetch.request,
                fetch.context,
                Method::Get,
                catalog_endpoint(self.storefront(client), "songs"@),
                self.storefront(client),
                self.query(client).push(
                    (
                        if isrc {
                            "filter[isrc]"@
                        } else {
                            "ids"@
                        },
                        joined(slice_views(ids@), ","@),
                    ),
                ),
            ),
    {
        let mut builder = self;
        let mut context = builder.get_request_context_drain(client);
        push_parameter(&mut context, if isrc { "filter[isrc]" } else { "ids" }, join(ids, ","));
        let endpoint = catalog_path(&context.storefront, "songs");
        FetchMany::new(client.get(endpoint.as_str()), context)
    }
}

} // verus!
