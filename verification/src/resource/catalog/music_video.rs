//! Music video

use crate::date::year_or_date::YearOrDate;
use crate::primitive::{ContentRating, EditorialNotes, PlayParameters, Preview};
use crate::request::builder::MusicRequestBuilder;
use crate::request::context::{ContextContainer, RequestContext, share};
use crate::request::extension::ExtensionTrait;
use crate::request::relationship::RelationshipTrait;
use crate::request::view::ViewTrait;
use crate::request::{
    FetchMany, FetchOne, below, catalog_endpoint, catalog_path, path_below, prepared,
    push_parameter,
};
use crate::resource::ResourceHeader;
use crate::resource::artwork::Artwork;
use crate::resource::attributes::TitleOnlyAttribute;
use crate::resource::catalog::album::Album;
use crate::resource::catalog::artist::Artist;
use crate::resource::catalog::song::Song;
use crate::resource::genre::Genre;
use crate::resource::library::music_video::LibraryMusicVideo;
use crate::resource::relationship::Relationship;
use crate::resource::view::View;
use crate::text::{Named, join, joined, owned, slice_views};
use crate::{ApiClient, Method};
use std::sync::Arc;
use vstd::prelude::*;
use vstd::view::View as _;

verus! {

/// Music video
#[derive(Default, Debug, PartialEq, Eq, Hash)]
pub struct MusicVideo {
    /// Resource header
    pub header: ResourceHeader,
    /// Music video attributes
    pub attributes: Option<MusicVideoAttributes>,
    /// Music video relationships
    pub relationships: MusicVideoRelationships,
    /// The relationship views for the music video
    pub views: MusicVideoViews,
}

impl MusicVideo {
    /// Get music video request builder
    pub fn get<'a>() -> (builder: MusicVideoGetRequestBuilder<'a>)
        ensures
            builder.is_fresh(),
    {
        MusicVideoGetRequestBuilder::default()
    }

    /// Whether `after` is this music video with `context` stored in every relationship and view
    /// below it, and with nothing else changed.
    pub open spec fn attached(&self, context: Arc<RequestContext>, after: &MusicVideo) -> bool
        decreases self,
    {
        &&& after.header == self.header
        &&& after.attributes == self.attributes
        &&& self.relationships.attached(context, &after.relationships)
        &&& self.views.attached(context, &after.views)
    }

    /// Stores the context in every relationship and view below this music video.
    pub fn attach(&mut self, context: &Arc<RequestContext>)
        ensures
            old(self).attached(*context, final(self)),
            final(self).attached(*context, final(self)),
        decreases *old(self),
    {
        self.relationships.attach(context);
        self.views.attach(context);
    }

    /// Whether `after` holds the items of `before`, one for one, with `context` stored in
    /// every relationship and view below each.
    pub open spec fn attached_each(
        before: Seq<MusicVideo>,
        context: Arc<RequestContext>,
        after: Seq<MusicVideo>,
    ) -> bool
        decreases before,
    {
        &&& after.len() == before.len()
        &&& forall|i: int|
            0 <= i < before.len() ==> (#[trigger] before[i]).attached(context, &after[i])
    }

    /// Stores the context below each of the items.
    pub fn attach_each(items: &mut Vec<MusicVideo>, context: &Arc<RequestContext>)
        ensures
            MusicVideo::attached_each(old(items)@, *context, final(items)@),
            MusicVideo::attached_each(final(items)@, *context, final(items)@),
        decreases *old(items),
    {
        let n = items.len();
        let mut i: usize = 0;
        while i < n
            invariant
                i <= n,
                items@.len() == n,
                old(items)@.len() == n,
                forall|j: int|
                    0 <= j < i ==> (#[trigger] old(items)@[j]).attached(*context, &items@[j]),
                forall|j: int| 0 <= j < i ==> (#[trigger] items@[j]).attached(*context, &items@[j]),
                forall|j: int| i <= j < n ==> items@[j] == old(items)@[j],
            decreases n - i,
        {
            items[i].attach(context);
            i += 1;
        }
    }

    /// Whether `after` is the relationship `before`, if there is one, with `context` stored
    /// in it and below each of its items.
    pub open spec fn attached_in(
        before: Option<Relationship<MusicVideo>>,
        context: Arc<RequestContext>,
        after: Option<Relationship<MusicVideo>>,
    ) -> bool
        decreases before,
    {
        match (before, after) {
            (Some(before), Some(after)) => {
                &&& after.context() == Some(context)
                &&& after.href == before.href
                &&& after.next == before.next
                &&& MusicVideo::attached_each(before.data@, context, after.data@)
            },
            (None, None) => true,
            _ => false,
        }
    }

    /// Stores the context in a relationship, if there is one, and below each of its items.
    pub fn attach_in(
        relationship: &mut Option<Relationship<MusicVideo>>,
        context: &Arc<RequestContext>,
    )
        ensures
            MusicVideo::attached_in(*old(relationship), *context, *final(relationship)),
            MusicVideo::attached_in(*final(relationship), *context, *final(relationship)),
        decreases *old(relationship),
    {
        match relationship {
            Some(relationship) => {
                relationship.install(share(context));
                MusicVideo::attach_each(&mut relationship.data, context);
            },
            None => {},
        }
    }

    /// Whether `after` is the view `before`, if there is one, with `context` stored in it
    /// and below each of its items.
    pub open spec fn attached_in_view<Attributes>(
        before: Option<View<Attributes, MusicVideo>>,
        context: Arc<RequestContext>,
        after: Option<View<Attributes, MusicVideo>>,
    ) -> bool
        decreases before,
    {
        match (before, after) {
            (Some(before), Some(after)) => {
                &&& after.context() == Some(context)
                &&& after.href == before.href
                &&& after.next == before.next
                &&& after.attributes == before.attributes
                &&& MusicVideo::attached_each(before.data@, context, after.data@)
            },
            (None, None) => true,
            _ => false,
        }
    }

    /// Stores the context in a view, if there is one, and below each of its items.
    pub fn attach_in_view<Attributes>(
        view: &mut Option<View<Attributes, MusicVideo>>,
        context: &Arc<RequestContext>,
    )
        ensures
            MusicVideo::attached_in_view(*old(view), *context, *final(view)),
            MusicVideo::attached_in_view(*final(view), *context, *final(view)),
        decreases *old(view),
    {
        match view {
            Some(view) => {
                view.install(share(context));
                MusicVideo::attach_each(&mut view.data, context);
            },
            None => {},
        }
    }

    /// A copy of this music video.
    pub fn duplicate(&self) -> (copy: MusicVideo)
        ensures
            self.copied(&copy),
        decreases self,
    {
        MusicVideo {
            header: self.header.clone(),
            attributes: self.attributes.clone(),
            relationships: self.relationships.duplicate(),
            views: self.views.duplicate(),
        }
    }

    /// Copies of the items, in their order.
    pub fn duplicate_each(items: &Vec<MusicVideo>) -> (copies: Vec<MusicVideo>)
        ensures
            MusicVideo::copied_each(items@, copies@),
        decreases items,
    {
        let mut copies: Vec<MusicVideo> = Vec::new();
        let mut i: usize = 0;
        while i < items.len()
            invariant
                i <= items@.len(),
                copies@.len() == i,
                forall|j: int| 0 <= j < i ==> (#[trigger] items@[j]).copied(&copies@[j]),
            decreases items@.len() - i,
        {
            copies.push(items[i].duplicate());
            i += 1;
        }
        copies
    }

    /// A copy of a relationship, if there is one.
    pub fn duplicate_in(relationship: &Option<Relationship<MusicVideo>>) -> (copy: Option<
        Relationship<MusicVideo>,
    >)
        ensures
            MusicVideo::copied_in(*relationship, copy),
        decreases relationship,
    {
        match relationship {
            Some(relationship) => Some(
                Relationship {
                    href: relationship.href.clone(),
                    next: relationship.next.clone(),
                    data: MusicVideo::duplicate_each(&relationship.data),
                    context: relationship.context.clone(),
                },
            ),
            None => None,
        }
    }

    /// A copy of a view, if there is one.
    pub fn duplicate_in_view<Attributes: Clone>(
        view: &Option<View<Attributes, MusicVideo>>,
    ) -> (copy:
        Option<View<Attributes, MusicVideo>>)
        ensures
            MusicVideo::copied_in_view(*view, copy),
        decreases view,
    {
        match view {
            Some(view) => Some(
                View {
                    href: view.href.clone(),
                    next: view.next.clone(),
                    attributes: view.attributes.clone(),
                    data: MusicVideo::duplicate_each(&view.data),
                    context: view.context.clone(),
                },
            ),
            None => None,
        }
    }

    /// Whether `copy` holds what this music video holds: the same header, a clone of the
    /// attributes, and a copy of every relationship and view below it, each with the
    /// context that it holds.
    pub open spec fn copied(&self, copy: &MusicVideo) -> bool
        decreases self,
    {
        &&& copy.header == self.header
        &&& cloned(self.attributes, copy.attributes)
        &&& self.relationships.copied(&copy.relationships)
        &&& self.views.copied(&copy.views)
    }

    /// Whether `copies` holds a copy of each of the items, in their order.
    pub open spec fn copied_each(items: Seq<MusicVideo>, copies: Seq<MusicVideo>) -> bool
        decreases items,
    {
        &&& copies.len() == items.len()
        &&& forall|i: int| 0 <= i < items.len() ==> (#[trigger] items[i]).copied(&copies[i])
    }

    /// Whether `copy` is a copy of a relationship, if there is one: with the same
    /// locations, the same context and a copy of each of its items.
    pub open spec fn copied_in(
        relationship: Option<Relationship<MusicVideo>>,
        copy: Option<Relationship<MusicVideo>>,
    ) -> bool
        decreases relationship,
    {
        match (relationship, copy) {
            (Some(relationship), Some(copy)) => {
                &&& copy.href == relationship.href
                &&& copy.next == relationship.next
                &&& copy.context() == relationship.context()
                &&& MusicVideo::copied_each(relationship.data@, copy.data@)
            },
            (None, None) => true,
            _ => false,
        }
    }

    /// Whether `copy` is a copy of a view, if there is one: with the same locations, the
    /// same context, a clone of the attributes and a copy of each of its items.
    pub open spec fn copied_in_view<Attributes: Clone>(
        view: Option<View<Attributes, MusicVideo>>,
        copy: Option<View<Attributes, MusicVideo>>,
    ) -> bool
        decreases view,
    {
        match (view, copy) {
            (Some(view), Some(copy)) => {
                &&& copy.href == view.href
                &&& copy.next == view.next
                &&& copy.context() == view.context()
                &&& cloned(view.attributes, copy.attributes)
                &&& MusicVideo::copied_each(view.data@, copy.data@)
            },
            (None, None) => true,
            _ => false,
        }
    }
}

impl ContextContainer for MusicVideo {
    open spec fn propagated(&self, context: Arc<RequestContext>, after: &Self) -> bool {
        self.attached(context, after)
    }

    fn set_context(&mut self, context: Arc<RequestContext>) {
        self.attach(&context);
    }
}

impl Clone for MusicVideo {
    fn clone(&self) -> (copy: Self)
        ensures
            self.copied(&copy),
    {
        self.duplicate()
    }
}

/// Music video attributes
#[derive(Default, Debug, Clone, PartialEq, Eq, Hash)]
pub struct MusicVideoAttributes {
    /// The name of the album the music video appears on
    pub album_name: Option<String>,
    /// The artist's name
    pub artist_name: String,
    /// **(Extended)** The URL of the artist for this content
    pub artist_url: Option<String>,
    /// The artwork for the music video's associated album
    pub artwork: Option<Artwork>,
    /// The Recording Industry Association of America (RIAA) rating of the content. No value means no rating
    pub content_rating: Option<ContentRating>,
    /// Duration of the song in milliseconds
    pub duration_in_millis: u32,
    /// Editorial notes
    pub editorial_notes: Option<EditorialNotes>,
    /// Genre names
    pub genre_names: Vec<String>,
    /// Whether the music video has 4K content
    pub has_4k: bool,
    /// Whether the music video has HDR10-encoded content
    pub has_hdr: bool,
    /// The International Standard Recording Code (ISRC) for the music video
    pub isrc: Option<String>,
    /// The localized name of the music video
    pub name: String,
    /// The parameters to use to play back the music video
    pub play_params: Option<PlayParameters>,
    /// The preview assets for the music video
    pub previews: Vec<Preview>,
    /// The release date of the music video, when known, in YYYY-MM-DD or YYYY format. Prerelease music videos may have an expected release date in the future
    pub release_date: Option<YearOrDate>,
    /// The number of the music video in the album's track list, when associated with an album
    pub track_number: Option<u32>,
    /// The URL for sharing the music video in Apple Music
    pub url: String,
    /// The video subtype associated with the content
    pub video_sub_type: Option<String>,
    /// (Classical music only) A unique identifier for the associated work
    pub work_id: Option<String>,
    /// (Classical music only) The name of the associated work
    pub work_name: Option<String>,
}

/// The extensions that can be asked for with music videos
#[derive(Debug, Copy, Clone, PartialEq, Eq, Hash)]
pub enum MusicVideoAttributesExtension {
    /// **(Extended)** The URL of the artist for this content
    ArtistUrl,
}

impl Named for MusicVideoAttributesExtension {
    open spec fn name(&self) -> Seq<char> {
        match self {
            MusicVideoAttributesExtension::ArtistUrl => "artistUrl"@,
        }
    }

    fn to_string(&self) -> (name: String) {
        let name = match self {
            MusicVideoAttributesExtension::ArtistUrl => "artistUrl",
        };
        owned(name)
    }
}

impl ExtensionTrait for MusicVideoAttributesExtension {
    open spec fn object(&self) -> Seq<char> {
        "music-videos"@
    }

    fn get_object(&self) -> (object: &'static str) {
        "music-videos"
    }
}

/// Music video relationships
#[derive(Default, Debug, PartialEq, Eq, Hash)]
pub struct MusicVideoRelationships {
    /// The albums associated with the music video. By default, albums includes identifiers only.
    ///
    /// Fetch limits: 10 default, 10 maximum.
    ///
    /// Possible resources: [`Album`]
    pub albums: Option<Relationship<Album>>,
    /// The artists associated with the music video. By default, artists includes identifiers only.
    ///
    /// Fetch limits: 10 default, 10 maximum.
    ///
    /// Possible resources: [`Artist`]
    pub artists: Option<Relationship<Artist>>,
    /// The genres associated with the music video. By default, genres not included.
    ///
    /// Fetch limits: None.
    ///
    /// Possible resources: [`Genre`]
    pub genres: Option<Relationship<Genre>>,
    /// The library of a music video if added to library.
    ///
    /// Fetch limits: None.
    ///
    /// Possible resources: [`LibraryMusicVideo`]
    pub library: Option<Relationship<LibraryMusicVideo>>,
    /// The songs associated with the music video.
    ///
    /// Fetch limits: 10 default, 10 maximum.
    ///
    /// Possible resources: [`Song`]
    pub songs: Option<Relationship<Song>>,
}

/// The relationships that can be asked for with music videos
#[derive(Debug, Copy, Clone, PartialEq, Eq, Hash)]
pub enum MusicVideoRelationshipType {
    /// The albums associated with the music video. By default, albums includes identifiers only.
    ///
    /// Fetch limits: 10 default, 10 maximum.
    ///
    /// Possible resources: [`Album`]
    Albums,
    /// The artists associated with the music video. By default, artists includes identifiers only.
    ///
    /// Fetch limits: 10 default, 10 maximum.
    ///
    /// Possible resources: [`Artist`]
    Artists,
    /// The genres associated with the music video. By default, genres not included.
    ///
    /// Fetch limits: None.
    ///
    /// Possible resources: [`Genre`]
    Genres,
    /// The library of a music video if added to library.
    ///
    /// Fetch limits: None.
    ///
    /// Possible resources: [`LibraryMusicVideo`]
    Library,
    /// The songs associated with the music video.
    ///
    /// Fetch limits: 10 default, 10 maximum.
    ///
    /// Possible resources: [`Song`]
    Songs,
}

impl Named for MusicVideoRelationshipType {
    open spec fn name(&self) -> Seq<char> {
        match self {
            MusicVideoRelationshipType::Albums => "albums"@,
            MusicVideoRelationshipType::Artists => "artists"@,
            MusicVideoRelationshipType::Genres => "genres"@,
            MusicVideoRelationshipType::Library => "library"@,
            MusicVideoRelationshipType::Songs => "songs"@,
        }
    }

    fn to_string(&self) -> (name: String) {
        let name = match self {
            MusicVideoRelationshipType::Albums => "albums",
            MusicVideoRelationshipType::Artists => "artists",
            MusicVideoRelationshipType::Genres => "genres",
            MusicVideoRelationshipType::Library => "library",
            MusicVideoRelationshipType::Songs => "songs",
        };
        owned(name)
    }
}

impl RelationshipTrait for MusicVideoRelationshipType {
    open spec fn object(&self) -> Seq<char> {
        "music-videos"@
    }

    fn get_object(&self) -> (object: &'static str) {
        "music-videos"
    }
}

impl MusicVideoRelationships {
    /// Whether `after` holds these relationships with `context` stored in each of them and
    /// below each of their items, and with nothing else changed.
    pub open spec fn attached(
        &self,
        context: Arc<RequestContext>,
        after: &MusicVideoRelationships,
    ) -> bool
        decreases self,
    {
        &&& Album::attached_in(self.albums, context, after.albums)
        &&& Artist::attached_in(self.artists, context, after.artists)
        &&& Genre::attached_in(self.genres, context, after.genres)
        &&& LibraryMusicVideo::attached_in(self.library, context, after.library)
        &&& Song::attached_in(self.songs, context, after.songs)
    }

    /// Stores the context in each of these relationships and below each of their items.
    pub fn attach(&mut self, context: &Arc<RequestContext>)
        ensures
            old(self).attached(*context, final(self)),
            final(self).attached(*context, final(self)),
        decreases *old(self),
    {
        Album::attach_in(&mut self.albums, context);
        Artist::attach_in(&mut self.artists, context);
        Genre::attach_in(&mut self.genres, context);
        LibraryMusicVideo::attach_in(&mut self.library, context);
        Song::attach_in(&mut self.songs, context);
    }

    /// A copy of these relationships.
    pub fn duplicate(&self) -> (copy: MusicVideoRelationships)
        ensures
            self.copied(&copy),
        decreases self,
    {
        MusicVideoRelationships {
            albums: Album::duplicate_in(&self.albums),
            artists: Artist::duplicate_in(&self.artists),
            genres: Genre::duplicate_in(&self.genres),
            library: LibraryMusicVideo::duplicate_in(&self.library),
            songs: Song::duplicate_in(&self.songs),
        }
    }

    /// Whether `copy` holds a copy of each of these relationships, with the context that it
    /// holds and a copy of each of its items.
    pub open spec fn copied(&self, copy: &MusicVideoRelationships) -> bool
        decreases self,
    {
        &&& Album::copied_in(self.albums, copy.albums)
        &&& Artist::copied_in(self.artists, copy.artists)
        &&& Genre::copied_in(self.genres, copy.genres)
        &&& LibraryMusicVideo::copied_in(self.library, copy.library)
        &&& Song::copied_in(self.songs, copy.songs)
    }
}

impl ContextContainer for MusicVideoRelationships {
    open spec fn propagated(&self, context: Arc<RequestContext>, after: &Self) -> bool {
        self.attached(context, after)
    }

    fn set_context(&mut self, context: Arc<RequestContext>) {
        self.attach(&context);
    }
}

impl Clone for MusicVideoRelationships {
    fn clone(&self) -> (copy: Self)
        ensures
            self.copied(&copy),
    {
        self.duplicate()
    }
}

/// Music video views
#[derive(Default, Debug, PartialEq, Eq, Hash)]
pub struct MusicVideoViews {
    /// More music videos of some type by the artist.
    ///
    /// Fetch limits: 15 default, 100 maximum.
    ///
    /// Possible resources: [`MusicVideo`]
    pub more_by_artist: Option<View<TitleOnlyAttribute, MusicVideo>>,
    /// More music videos in the given music video genre.
    ///
    /// Fetch limits: 15 default, 100 maximum.
    ///
    /// Possible resources: [`MusicVideo`]
    pub more_in_genre: Option<View<TitleOnlyAttribute, MusicVideo>>,
}

/// The views that can be asked for with music videos
#[derive(Debug, Copy, Clone, PartialEq, Eq, Hash)]
pub enum MusicVideoViewType {
    /// More music videos of some type by the artist.
    ///
    /// Fetch limits: 15 default, 100 maximum.
    ///
    /// Possible resources: [`MusicVideo`]
    MoreByArtist,
    /// More music videos in the given music video genre.
    ///
    /// Fetch limits: 15 default, 100 maximum.
    ///
    /// Possible resources: [`MusicVideo`]
    MoreInGenre,
}

impl Named for MusicVideoViewType {
    open spec fn name(&self) -> Seq<char> {
        match self {
            MusicVideoViewType::MoreByArtist => "more-by-artist"@,
            MusicVideoViewType::MoreInGenre => "more-in-genre"@,
        }
    }

    fn to_string(&self) -> (name: String) {
        let name = match self {
            MusicVideoViewType::MoreByArtist => "more-by-artist",
            MusicVideoViewType::MoreInGenre => "more-in-genre",
        };
        owned(name)
    }
}

impl ViewTrait for MusicVideoViewType {
    open spec fn object(&self) -> Seq<char> {
        "music-videos"@
    }

    fn get_object(&self) -> (object: &'static str) {
        "music-videos"
    }
}

impl MusicVideoViews {
    /// Whether `after` holds these views with `context` stored in each of them and
    /// below each of their items, and with nothing else changed.
    pub open spec fn attached(&self, context: Arc<RequestContext>, after: &MusicVideoViews) -> bool
        decreases self,
    {
        &&& MusicVideo::attached_in_view(self.more_by_artist, context, after.more_by_artist)
        &&& MusicVideo::attached_in_view(self.more_in_genre, context, after.more_in_genre)
    }

    /// Stores the context in each of these views and below each of their items.
    pub fn attach(&mut self, context: &Arc<RequestContext>)
        ensures
            old(self).attached(*context, final(self)),
            final(self).attached(*context, final(self)),
        decreases *old(self),
    {
        MusicVideo::attach_in_view(&mut self.more_by_artist, context);
        MusicVideo::attach_in_view(&mut self.more_in_genre, context);
    }

    /// A copy of these views.
    pub fn duplicate(&self) -> (copy: MusicVideoViews)
        ensures
            self.copied(&copy),
        decreases self,
    {
        MusicVideoViews {
            more_by_artist: MusicVideo::duplicate_in_view(&self.more_by_artist),
            more_in_genre: MusicVideo::duplicate_in_view(&self.more_in_genre),
        }
    }

    /// Whether `copy` holds a copy of each of these views, with the context that it
    /// holds and a copy of each of its items.
    pub open spec fn copied(&self, copy: &MusicVideoViews) -> bool
        decreases self,
    {
        &&& MusicVideo::copied_in_view(self.more_by_artist, copy.more_by_artist)
        &&& MusicVideo::copied_in_view(self.more_in_genre, copy.more_in_genre)
    }
}

impl ContextContainer for MusicVideoViews {
    open spec fn propagated(&self, context: Arc<RequestContext>, after: &Self) -> bool {
        self.attached(context, after)
    }

    fn set_context(&mut self, context: Arc<RequestContext>) {
        self.attach(&context);
    }
}

impl Clone for MusicVideoViews {
    fn clone(&self) -> (copy: Self)
        ensures
            self.copied(&copy),
    {
        self.duplicate()
    }
}

/// Music video request builder
pub struct MusicVideoRequestBuilder;

/// Music video get request builder
pub type MusicVideoGetRequestBuilder<'a> = MusicRequestBuilder<'a, MusicVideoRequestBuilder>;

impl<'a> MusicVideoGetRequestBuilder<'a> {
    /// Fetch one music video by id
    pub fn one(self, client: &ApiClient, id: &str) -> (fetch: FetchOne<MusicVideo>)
        ensures
            prepared(
                fetch.request,
                fetch.context,
                Method::Get,
                below(catalog_endpoint(self.storefront(client), "music-videos"@), id@),
                self.storefront(client),
                self.query(client),
            ),
    {
        let mut builder = self;
        let context = builder.get_request_context_drain(client);
        let endpoint = catalog_path(&context.storefront, "music-videos");
        let path = path_below(endpoint.as_str(), id);
        FetchOne::new(client.get(path.as_str()), context)
    }

    /// Fetch multiple music videos by id
    ///
    /// # Params
    ///
    /// * isrc - if the ids are ISRCs or music video ids, false means music video ids, true means ISRCs
    pub fn many(
        self,
        client: &ApiClient,
        ids: &[&str],
        isrc: bool,
    ) -> (fetch: FetchMany<MusicVideo>)
        ensures
            prepared(
                fetch.request,
                fetch.context,
                Method::Get,
                catalog_endpoint(self.storefront(client), "music-videos"@),
                self.storefront(client),
                self.query(client).push(
                    (
                        if isrc {
                            "filter[isrc]"@
                        } else {
                            "ids"@
                        },
                        joined(slice_views(ids@), ","@),
                    ),
                ),
            ),
    {
        let mut builder = self;
        let mut context = builder.get_request_context_drain(client);
        push_parameter(&mut context, if isrc { "filter[isrc]" } else { "ids" }, join(ids, ","));
        let endpoint = catalog_path(&context.storefront, "music-videos");
        FetchMany::new(client.get(endpoint.as_str()), context)
    }
}

} // verus!
