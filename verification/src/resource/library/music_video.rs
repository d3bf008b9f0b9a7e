//! Library music video

use crate::date::year_or_date::YearOrDate;
use crate::primitive::{ContentRating, PlayParameters};
use crate::request::builder::MusicRequestBuilder;
use crate::request::context::{ContextContainer, RequestContext, share};
use crate::request::fields::query_view;
use crate::request::paginated::{Paginator, Progress, paginate};
use crate::request::relationship::RelationshipTrait;
use crate::request::{FetchMany, FetchOne, below, path_below, prepared, push_parameter};
use crate::resource::ResourceHeader;
use crate::resource::artwork::Artwork;
use crate::resource::catalog::music_video::MusicVideo;
use crate::resource::library::album::LibraryAlbum;
use crate::resource::library::artist::LibraryArtist;
use crate::resource::relationship::Relationship;
use crate::text::{Named, decimal, join, joined, owned, slice_views, to_decimal};
use crate::{ApiClient, Method};
use std::sync::Arc;
use vstd::prelude::*;

verus! {

/// Library music video
#[derive(Default, Debug, PartialEq, Eq, Hash)]
pub struct LibraryMusicVideo {
    /// Resource header
    pub header: ResourceHeader,
    /// Library music video attributes
    pub attributes: Option<LibraryMusicVideoAttributes>,
    /// Library music video relationships
    pub relationships: LibraryMusicVideoRelationships,
}

impl LibraryMusicVideo {
    /// Whether `after` is this library music video with `context` stored in every relationship and view
    /// below it, and with nothing else changed.
    pub open spec fn attached(
        &self,
        context: Arc<RequestContext>,
        after: &LibraryMusicVideo,
    ) -> bool
        decreases self,
    {
        &&& after.header == self.header
        &&& after.attributes == self.attributes
        &&& self.relationships.attached(context, &after.relationships)
    }

    /// Stores the context in every relationship and view below this library music video.
    pub fn attach(&mut self, context: &Arc<RequestContext>)
        ensures
            old(self).attached(*context, final(self)),
            final(self).attached(*context, final(self)),
        decreases *old(self),
    {
        self.relationships.attach(context);
    }

    /// Whether `after` holds the items of `before`, one for one, with `context` stored in
    /// every relationship and view below each.
    pub open spec fn attached_each(
        before: Seq<LibraryMusicVideo>,
        context: Arc<RequestContext>,
        after: Seq<LibraryMusicVideo>,
    ) -> bool
        decreases before,
    {
        &&& after.len() == before.len()
        &&& forall|i: int|
            0 <= i < before.len() ==> (#[trigger] before[i]).attached(context, &after[i])
    }

    /// Stores the context below each of the items.
    pub fn attach_each(items: &mut Vec<LibraryMusicVideo>, context: &Arc<RequestContext>)
        ensures
            LibraryMusicVideo::attached_each(old(items)@, *context, final(items)@),
            LibraryMusicVideo::attached_each(final(items)@, *context, final(items)@),
        decreases *old(items),
    {
        let n = items.len();
        let mut i: usize = 0;
        while i < n
            invariant
                i <= n,
                items@.len() == n,
                old(items)@.len() == n,
                forall|j: int|
                    0 <= j < i ==> (#[trigger] old(items)@[j]).attached(*context, &items@[j]),
                forall|j: int| 0 <= j < i ==> (#[trigger] items@[j]).attached(*context, &items@[j]),
                forall|j: int| i <= j < n ==> items@[j] == old(items)@[j],
            decreases n - i,
        {
            items[i].attach(context);
            i += 1;
        }
    }

    /// Whether `after` is the relationship `before`, if there is one, with `context` stored
    /// in it and below each of its items.
    pub open spec fn attached_in(
        before: Option<Relationship<LibraryMusicVideo>>,
        context: Arc<RequestContext>,
        after: Option<Relationship<LibraryMusicVideo>>,
    ) -> bool
        decreases before,
    {
        match (before, after) {
            (Some(before), Some(after)) => {
                &&& after.context() == Some(context)
                &&& after.href == before.href
                &&& after.next == before.next
                &&& LibraryMusicVideo::attached_each(before.data@, context, after.data@)
            },
            (None, None) => true,
            _ => false,
        }
    }

    /// Stores the context in a relationship, if there is one, and below each of its items.
    pub fn attach_in(
        relationship: &mut Option<Relationship<LibraryMusicVideo>>,
        context: &Arc<RequestContext>,
    )
        ensures
            LibraryMusicVideo::attached_in(*old(relationship), *context, *final(relationship)),
            LibraryMusicVideo::attached_in(*final(relationship), *context, *final(relationship)),
        decreases *old(relationship),
    {
        match relationship {
            Some(relationship) => {
                relationship.install(share(context));
                LibraryMusicVideo::attach_each(&mut relationship.data, context);
            },
            None => {},
        }
    }

    /// A copy of this library music video.
    pub fn duplicate(&self) -> (copy: LibraryMusicVideo)
        ensures
            self.copied(&copy),
        decreases self,
    {
        LibraryMusicVideo {
            header: self.header.clone(),
            attributes: self.attributes.clone(),
            relationships: self.relationships.duplicate(),
        }
    }

    /// Copies of the items, in their order.
    pub fn duplicate_each(items: &Vec<LibraryMusicVideo>) -> (copies: Vec<LibraryMusicVideo>)
        ensures
            LibraryMusicVideo::copied_each(items@, copies@),
        decreases items,
    {
        let mut copies: Vec<LibraryMusicVideo> = Vec::new();
        let mut i: usize = 0;
        while i < items.len()
            invariant
                i <= items@.len(),
                copies@.len() == i,
                forall|j: int| 0 <= j < i ==> (#[trigger] items@[j]).copied(&copies@[j]),
            decreases items@.len() - i,
        {
            copies.push(items[i].duplicate());
            i += 1;
        }
        copies
    }

    /// A copy of a relationship, if there is one.
    pub fn duplicate_in(relationship: &Option<Relationship<LibraryMusicVideo>>) -> (copy: Option<
        Relationship<LibraryMusicVideo>,
    >)
        ensures
            LibraryMusicVideo::copied_in(*relationship, copy),
        decreases relationship,
    {
        match relationship {
            Some(relationship) => Some(
                Relationship {
                    href: relationship.href.clone(),
                    next: relationship.next.clone(),
                    data: LibraryMusicVideo::duplicate_each(&relationship.data),
                    context: relationship.context.clone(),
                },
            ),
            None => None,
        }
    }

    /// Whether `copy` holds what this library music video holds: the same header, a clone of the
    /// attributes, and a copy of every relationship and view below it, each with the
    /// context that it holds.
    pub open spec fn copied(&self, copy: &LibraryMusicVideo) -> bool
        decreases self,
    {
        &&& copy.header == self.header
        &&& cloned(self.attributes, copy.attributes)
        &&& self.relationships.copied(&copy.relationships)
    }

    /// Whether `copies` holds a copy of each of the items, in their order.
    pub open spec fn copied_each(
        items: Seq<LibraryMusicVideo>,
        copies: Seq<LibraryMusicVideo>,
    ) -> bool
        decreases items,
    {
        &&& copies.len() == items.len()
        &&& forall|i: int| 0 <= i < items.len() ==> (#[trigger] items[i]).copied(&copies[i])
    }

    /// Whether `copy` is a copy of a relationship, if there is one: with the same
    /// locations, the same context and a copy of each of its items.
    pub open spec fn copied_in(
        relationship: Option<Relationship<LibraryMusicVideo>>,
        copy: Option<Relationship<LibraryMusicVideo>>,
    ) -> bool
        decreases relationship,
    {
        match (relationship, copy) {
            (Some(relationship), Some(copy)) => {
                &&& copy.href == relationship.href
                &&& copy.next == relationship.next
                &&& copy.context() == relationship.context()
                &&& LibraryMusicVideo::copied_each(relationship.data@, copy.data@)
            },
            (None, None) => true,
            _ => false,
        }
    }
}

impl ContextContainer for LibraryMusicVideo {
    open spec fn propagated(&self, context: Arc<RequestContext>, after: &Self) -> bool {
        self.attached(context, after)
    }

    fn set_context(&mut self, context: Arc<RequestContext>) {
        self.attach(&context);
    }
}

impl Clone for LibraryMusicVideo {
    fn clone(&self) -> (copy: Self)
        ensures
            self.copied(&copy),
    {
        self.duplicate()
    }
}

/// Library music video attributes
#[derive(Default, Debug, Clone, PartialEq, Eq, Hash)]
pub struct LibraryMusicVideoAttributes {
    /// The name of the album the music video appears on
    pub album_name: Option<String>,
    /// The artist's name
    pub artist_name: String,
    /// The artwork for the music video's associated album
    pub artwork: Artwork,
    /// The Recording Industry Association of America (RIAA) rating of the content. The possible values for this rating are clean and explicit. No value means no rating
    pub content_rating: Option<ContentRating>,
    /// The duration of the music video in milliseconds
    pub duration_in_millis: u32,
    /// The names of the genres associated with this music video
    pub genre_names: Vec<String>,
    /// The localized name of the music video
    pub name: String,
    /// The parameters to use to playback the music video
    pub play_params: Option<PlayParameters>,
    /// The release date of the music video, when known, in YYYY-MM-DD or YYYY format. Pre-release content may have an expected release date in the future
    pub release_date: Option<YearOrDate>,
    /// The number of the music video in the album's track list
    pub track_number: Option<u32>,
}

/// Library music video relationships
#[derive(Default, Debug, PartialEq, Eq, Hash)]
pub struct LibraryMusicVideoRelationships {
    /// The library albums associated with the music video. By default, albums not included.
    ///
    /// Fetch limits: 10 default, 10 maximum.
    ///
    /// Possible resources: [`LibraryAlbum`]
    pub albums: Option<Relationship<LibraryAlbum>>,
    /// The library artists associated with the music video. By default, artists not included.
    ///
    /// Fetch limits: 10 default, 10 maximum.
    ///
    /// Possible resources: [`LibraryArtist`]
    pub artists: Option<Relationship<LibraryArtist>>,
    /// The music video in the Apple Music catalog the library music video is associated with, when known.
    ///
    /// Fetch limits: None (associated with at most one catalog music video).
    ///
    /// Possible resources: [`MusicVideo`]
    pub catalog: Option<Relationship<MusicVideo>>,
}

/// The relationships that can be asked for with library music videos
#[derive(Debug, Copy, Clone, PartialEq, Eq, Hash)]
pub enum LibraryMusicVideoRelationshipType {
    /// The library albums associated with the music video. By default, albums not included.
    ///
    /// Fetch limits: 10 default, 10 maximum.
    ///
    /// Possible resources: [`LibraryAlbum`]
    Albums,
    /// The library artists associated with the music video. By default, artists not included.
    ///
    /// Fetch limits: 10 default, 10 maximum.
    ///
    /// Possible resources: [`LibraryArtist`]
    Artists,
    /// The music video in the Apple Music catalog the library music video is associated with, when known.
    ///
    /// Fetch limits: None (associated with at most one catalog music video).
    ///
    /// Possible resources: [`MusicVideo`]
    Catalog,
}

impl Named for LibraryMusicVideoRelationshipType {
    open spec fn name(&self) -> Seq<char> {
        match self {
            LibraryMusicVideoRelationshipType::Albums => "albums"@,
            LibraryMusicVideoRelationshipType::Artists => "artists"@,
            LibraryMusicVideoRelationshipType::Catalog => "catalog"@,
        }
    }

    fn to_string(&self) -> (name: String) {
        let name = match self {
            LibraryMusicVideoRelationshipType::Albums => "albums",
            LibraryMusicVideoRelationshipType::Artists => "artists",
            LibraryMusicVideoRelationshipType::Catalog => "catalog",
        };
        owned(name)
    }
}

impl RelationshipTrait for LibraryMusicVideoRelationshipType {
    open spec fn object(&self) -> Seq<char> {
        "library-music-videos"@
    }

    fn get_object(&self) -> (object: &'static str) {
        "library-music-videos"
    }
}

impl LibraryMusicVideoRelationships {
    /// Whether `after` holds these relationships with `context` stored in each of them and
    /// below each of their items, and with nothing else changed.
    pub open spec fn attached(
        &self,
        context: Arc<RequestContext>,
        after: &LibraryMusicVideoRelationships,
    ) -> bool
        decreases self,
    {
        &&& LibraryAlbum::attached_in(self.albums, context, after.albums)
        &&& LibraryArtist::attached_in(self.artists, context, after.artists)
        &&& MusicVideo::attached_in(self.catalog, context, after.catalog)
    }

    /// Stores the context in each of these relationships and below each of their items.
    pub fn attach(&mut self, context: &Arc<RequestContext>)
        ensures
            old(self).attached(*context, final(self)),
            final(self).attached(*context, final(self)),
        decreases *old(self),
    {
        LibraryAlbum::attach_in(&mut self.albums, context);
        LibraryArtist::attach_in(&mut self.artists, context);
        MusicVideo::attach_in(&mut self.catalog, context);
    }

    /// A copy of these relationships.
    pub fn duplicate(&self) -> (copy: LibraryMusicVideoRelationships)
        ensures
            self.copied(&copy),
        decreases self,
    {
        LibraryMusicVideoRelationships {
            albums: LibraryAlbum::duplicate_in(&self.albums),
            artists: LibraryArtist::duplicate_in(&self.artists),
            catalog: MusicVideo::duplicate_in(&self.catalog),
        }
    }

    /// Whether `copy` holds a copy of each of these relationships, with the context that it
    /// holds and a copy of each of its items.
    pub open spec fn copied(&self, copy: &LibraryMusicVideoRelationships) -> bool
        decreases self,
    {
        &&& LibraryAlbum::copied_in(self.albums, copy.albums)
        &&& LibraryArtist::copied_in(self.artists, copy.artists)
        &&& MusicVideo::copied_in(self.catalog, copy.catalog)
    }
}

impl ContextContainer for LibraryMusicVideoRelationships {
    open spec fn propagated(&self, context: Arc<RequestContext>, after: &Self) -> bool {
        self.attached(context, after)
    }

    fn set_context(&mut self, context: Arc<RequestContext>) {
        self.attach(&context);
    }
}

impl Clone for LibraryMusicVideoRelationships {
    fn clone(&self) -> (copy: Self)
        ensures
            self.copied(&copy),
    {
        self.duplicate()
    }
}

/// Library music video request builder
pub struct LibraryMusicVideoRequestBuilder;

/// Library music video get request builder
pub type LibraryMusicVideoGetRequestBuilder<'a> = MusicRequestBuilder<
    'a,
    LibraryMusicVideoRequestBuilder,
>;

impl<'a> LibraryMusicVideoGetRequestBuilder<'a> {
    /// Fetch one library music video by id
    pub fn one(self, client: &ApiClient, id: &str) -> (fetch: FetchOne<LibraryMusicVideo>)
        ensures
            prepared(
                fetch.request,
                fetch.context,
                Method::Get,
                below("/v1/me/library/music-videos"@, id@),
                self.storefront(client),
                self.query(client),
            ),
    {
        let mut builder = self;
        let context = builder.get_request_context_drain(client);
        let endpoint = owned("/v1/me/library/music-videos");
        let path = path_below(endpoint.as_str(), id);
        FetchOne::new(client.get(path.as_str()), context)
    }

    /// Fetch multiple library music videos by id
    pub fn many(self, client: &ApiClient, ids: &[&str]) -> (fetch: FetchMany<LibraryMusicVideo>)
        ensures
            prepared(
                fetch.request,
                fetch.context,
                Method::Get,
                "/v1/me/library/music-videos"@,
                self.storefront(client),
                self.query(client).push(("ids"@, joined(slice_views(ids@), ","@))),
            ),
    {
        let mut builder = self;
        let mut context = builder.get_request_context_drain(client);
        push_parameter(&mut context, "ids", join(ids, ","));
        let endpoint = owned("/v1/me/library/music-videos");
        FetchMany::new(client.get(endpoint.as_str()), context)
    }

    /// Fetch all library music videos
    /// # Params
    ///
    /// * limit - limit of entries per query
    ///
    /// * offset - query offset
    pub fn all(
        self,
        client: &ApiClient,
        limit: usize,
        offset: usize,
    ) -> (pages: Paginator<LibraryMusicVideo>)
        ensures
            pages.endpoint() == "/v1/me/library/music-videos"@,
            pages.context().storefront == self.storefront(client),
            query_view(pages.context().query@) == self.query(client).push(
                ("limit"@, decimal(limit as nat)),
            ),
            pages@ == (Progress { offset: offset as nat, finished: false }),
    {
        let mut builder = self;
        let mut context = builder.get_request_context_drain(client);
        push_parameter(&mut context, "limit", to_decimal(limit));
        let endpoint = owned("/v1/me/library/music-videos");
        paginate(endpoint, context, offset)
    }
}

} // verus!
