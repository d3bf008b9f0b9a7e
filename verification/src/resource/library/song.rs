//! Library song

use crate::date::year_or_date::YearOrDate;
use crate::primitive::{ContentRating, PlayParameters};
use crate::request::builder::MusicRequestBuilder;
use crate::request::context::{ContextContainer, RequestContext, share};
use crate::request::fields::query_view;
use crate::request::paginated::{Paginator, Progress, paginate};
use crate::request::relationship::RelationshipTrait;
use crate::request::{FetchMany, FetchOne, below, path_below, prepared, push_parameter};
use crate::resource::ResourceHeader;
use crate::resource::artwork::Artwork;
use crate::resource::catalog::song::Song;
use crate::resource::library::album::LibraryAlbum;
use crate::resource::library::artist::LibraryArtist;
use crate::resource::relationship::Relationship;
use crate::text::{Named, decimal, join, joined, owned, slice_views, to_decimal};
use crate::{ApiClient, Method};
use std::sync::Arc;
use vstd::prelude::*;

verus! {

/// Library song
#[derive(Default, Debug, PartialEq, Eq, Hash)]
pub struct LibrarySong {
    /// Resource header
    pub header: ResourceHeader,
    /// Library song attributes
    pub attributes: Option<LibrarySongAttributes>,
    /// Library song relationships
    pub relationships: LibrarySongRelationships,
}

impl LibrarySong {
    /// Whether `after` is this library song with `context` stored in every relationship and view
    /// below it, and with nothing else changed.
    pub open spec fn attached(&self, context: Arc<RequestContext>, after: &LibrarySong) -> bool
        decreases self,
    {
        &&& after.header == self.header
        &&& after.attributes == self.attributes
        &&& self.relationships.attached(context, &after.relationships)
    }

    /// Stores the context in every relationship and view below this library song.
    pub fn attach(&mut self, context: &Arc<RequestContext>)
        ensures
            old(self).attached(*context, final(self)),
            final(self).attached(*context, final(self)),
        decreases *old(self),
    {
        self.relationships.attach(context);
    }

    /// Whether `after` holds the items of `before`, one for one, with `context` stored in
    /// every relationship and view below each.
    pub open spec fn attached_each(
        before: Seq<LibrarySong>,
        context: Arc<RequestContext>,
        after: Seq<LibrarySong>,
    ) -> bool
        decreases before,
    {
        &&& after.len() == before.len()
        &&& forall|i: int|
            0 <= i < before.len() ==> (#[trigger] before[i]).attached(context, &after[i])
    }

    /// Stores the context below each of the items.
    pub fn attach_each(items: &mut Vec<LibrarySong>, context: &Arc<RequestContext>)
        ensures
            LibrarySong::attached_each(old(items)@, *context, final(items)@),
            LibrarySong::attached_each(final(items)@, *context, final(items)@),
        decreases *old(items),
    {
        let n = items.len();
        let mut i: usize = 0;
        while i < n
            invariant
                i <= n,
                items@.len() == n,
                old(items)@.len() == n,
                forall|j: int|
                    0 <= j < i ==> (#[trigger] old(items)@[j]).attached(*context, &items@[j]),
                forall|j: int| 0 <= j < i ==> (#[trigger] items@[j]).attached(*context, &items@[j]),
                forall|j: int| i <= j < n ==> items@[j] == old(items)@[j],
            decreases n - i,
        {
            items[i].attach(context);
            i += 1;
        }
    }

    /// Whether `after` is the relationship `before`, if there is one, with `context` stored
    /// in it and below each of its items.
    pub open spec fn attached_in(
        before: Option<Relationship<LibrarySong>>,
        context: Arc<RequestContext>,
        after: Option<Relationship<LibrarySong>>,
    ) -> bool
        decreases before,
    {
        match (before, after) {
            (Some(before), Some(after)) => {
                &&& after.context() == Some(context)
                &&& after.href == before.href
                &&& after.next == before.next
                &&& LibrarySong::attached_each(before.data@, context, after.data@)
            },
            (None, None) => true,
            _ => false,
        }
    }

    /// Stores the context in a relationship, if there is one, and below each of its items.
    pub fn attach_in(
        relationship: &mut Option<Relationship<LibrarySong>>,
        context: &Arc<RequestContext>,
    )
        ensures
            LibrarySong::attached_in(*old(relationship), *context, *final(relationship)),
            LibrarySong::attached_in(*final(relationship), *context, *final(relationship)),
        decreases *old(relationship),
    {
        match relationship {
            Some(relationship) => {
                relationship.install(share(context));
                LibrarySong::attach_each(&mut relationship.data, context);
            },
            None => {},
        }
    }

    /// A copy of this library song.
    pub fn duplicate(&self) -> (copy: LibrarySong)
        ensures
            self.copied(&copy),
        decreases self,
    {
        LibrarySong {
            header: self.header.clone(),
            attributes: self.attributes.clone(),
            relationships: self.relationships.duplicate(),
        }
    }

    /// Copies of the items, in their order.
    pub fn duplicate_each(items: &Vec<LibrarySong>) -> (copies: Vec<LibrarySong>)
        ensures
            LibrarySong::copied_each(items@, copies@),
        decreases items,
    {
        let mut copies: Vec<LibrarySong> = Vec::new();
        let mut i: usize = 0;
        while i < items.len()
            invariant
                i <= items@.len(),
                copies@.len() == i,
                forall|j: int| 0 <= j < i ==> (#[trigger] items@[j]).copied(&copies@[j]),
            decreases items@.len() - i,
        {
            copies.push(items[i].duplicate());
            i += 1;
        }
        copies
    }

    /// A copy of a relationship, if there is one.
    pub fn duplicate_in(relationship: &Option<Relationship<LibrarySong>>) -> (copy: Option<
        Relationship<LibrarySong>,
    >)
        ensures
            LibrarySong::copied_in(*relationship, copy),
        decreases relationship,
    {
        match relationship {
            Some(relationship) => Some(
                Relationship {
                    href: relationship.href.clone(),
                    next: relationship.next.clone(),
                    data: LibrarySong::duplicate_each(&relationship.data),
                    context: relationship.context.clone(),
                },
            ),
            None => None,
        }
    }

    /// Whether `copy` holds what this library song holds: the same header, a clone of the
    /// attributes, and a copy of every relationship and view below it, each with the
    /// context that it holds.
    pub open spec fn copied(&self, copy: &LibrarySong) -> bool
        decreases self,
    {
        &&& copy.header == self.header
        &&& cloned(self.attributes, copy.attributes)
        &&& self.relationships.copied(&copy.relationships)
    }

    /// Whether `copies` holds a copy of each of the items, in their order.
    pub open spec fn copied_each(items: Seq<LibrarySong>, copies: Seq<LibrarySong>) -> bool
        decreases items,
    {
        &&& copies.len() == items.len()
        &&& forall|i: int| 0 <= i < items.len() ==> (#[trigger] items[i]).copied(&copies[i])
    }

    /// Whether `copy` is a copy of a relationship, if there is one: with the same
    /// locations, the same context and a copy of each of its items.
    pub open spec fn copied_in(
        relationship: Option<Relationship<LibrarySong>>,
        copy: Option<Relationship<LibrarySong>>,
    ) -> bool
        decreases relationship,
    {
        match (relationship, copy) {
            (Some(relationship), Some(copy)) => {
                &&& copy.href == relationship.href
                &&& copy.next == relationship.next
                &&& copy.context() == relationship.context()
                &&& LibrarySong::copied_each(relationship.data@, copy.data@)
            },
            (None, None) => true,
            _ => false,
        }
    }
}

impl ContextContainer for LibrarySong {
    open spec fn propagated(&self, context: Arc<RequestContext>, after: &Self) -> bool {
        self.attached(context, after)
    }

    fn set_context(&mut self, context: Arc<RequestContext>) {
        self.attach(&context);
    }
}

impl Clone for LibrarySong {
    fn clone(&self) -> (copy: Self)
        ensures
            self.copied(&copy),
    {
        self.duplicate()
    }
}

/// Library song attributes
#[derive(Default, Debug, Clone, PartialEq, Eq, Hash)]
pub struct LibrarySongAttributes {
    /// The name of the album the song appears on
    pub album_name: Option<String>,
    /// The artist's name
    pub artist_name: String,
    /// The album artwork
    pub artwork: Artwork,
    /// The Recording Industry Association of America (RIAA) rating of the content. The possible values for this rating are clean and explicit. No value means no rating
    pub content_rating: Option<ContentRating>,
    /// The disc number the song appears on
    pub disc_number: Option<u32>,
    /// The approximate length of the song in milliseconds
    pub duration_in_millis: u32,
    /// The genre names the song is associated with
    pub genre_names: Vec<String>,
    /// Indicates if the song has lyrics available in the Apple Music catalog. If true, the song has lyrics available; otherwise, it does not
    pub has_lyrics: bool,
    /// The localized name of the song
    pub name: String,
    /// The parameters to use to playback the song
    pub play_params: Option<PlayParameters>,
    /// The release date of the song, when known, in YYYY-MM-DD or YYYY format. Pre-release songs may have an expected release date in the future
    pub release_date: Option<YearOrDate>,
    /// The number of the song in the album's track list
    pub track_number: Option<u32>,
}

/// Library song relationships
#[derive(Default, Debug, PartialEq, Eq, Hash)]
pub struct LibrarySongRelationships {
    /// The library albums associated with the song. By default, albums not included.
    ///
    /// Fetch limits: 10 default, 10 maximum.
    ///
    /// Possible resources: [`LibraryAlbum`]
    pub albums: Option<Relationship<LibraryAlbum>>,
    /// The library artists associated with the song. By default, artists not included.
    ///
    /// Fetch limits: 10 default, 10 maximum.
    ///
    /// Possible resources: [`LibraryArtist`]
    pub artists: Option<Relationship<LibraryArtist>>,
    /// The song in the Apple Music catalog the library song is associated with, when known.
    ///
    /// Fetch limits: None.
    ///
    /// Possible resources: [`Song`]
    pub catalog: Option<Relationship<Song>>,
}

/// The relationships that can be asked for with library songs
#[derive(Debug, Copy, Clone, PartialEq, Eq, Hash)]
pub enum LibrarySongRelationshipType {
    /// The library albums associated with the song. By default, albums not included.
    ///
    /// Fetch limits: 10 default, 10 maximum.
    ///
    /// Possible resources: [`LibraryAlbum`]
    Albums,
    /// The library artists associated with the song. By default, artists not included.
    ///
    /// Fetch limits: 10 default, 10 maximum.
    ///
    /// Possible resources: [`LibraryArtist`]
    Artists,
    /// The song in the Apple Music catalog the library song is associated with, when known.
    ///
    /// Fetch limits: None.
    ///
    /// Possible resources: [`Song`]
    Catalog,
}

impl Named for LibrarySongRelationshipType {
    open spec fn name(&self) -> Seq<char> {
        match self {
            LibrarySongRelationshipType::Albums => "albums"@,
            LibrarySongRelationshipType::Artists => "artists"@,
            LibrarySongRelationshipType::Catalog => "catalog"@,
        }
    }

    fn to_string(&self) -> (name: String) {
        let name = match self {
            LibrarySongRelationshipType::Albums => "albums",
            LibrarySongRelationshipType::Artists => "artists",
            LibrarySongRelationshipType::Catalog => "catalog",
        };
        owned(name)
    }
}

impl RelationshipTrait for LibrarySongRelationshipType {
    open spec fn object(&self) -> Seq<char> {
        "library-songs"@
    }

    fn get_object(&self) -> (object: &'static str) {
        "library-songs"
    }
}

impl LibrarySongRelationships {
    /// Whether `after` holds these relationships with `context` stored in each of them and
    /// below each of their items, and with nothing else changed.
    pub open spec fn attached(
        &self,
        context: Arc<RequestContext>,
        after: &LibrarySongRelationships,
    ) -> bool
        decreases self,
    {
        &&& LibraryAlbum::attached_in(self.albums, context, after.albums)
        &&& LibraryArtist::attached_in(self.artists, context, after.artists)
        &&& Song::attached_in(self.catalog, context, after.catalog)
    }

    /// Stores the context in each of these relationships and below each of their items.
    pub fn attach(&mut self, context: &Arc<RequestContext>)
        ensures
            old(self).attached(*context, final(self)),
            final(self).attached(*context, final(self)),
        decreases *old(self),
    {
        LibraryAlbum::attach_in(&mut self.albums, context);
        LibraryArtist::attach_in(&mut self.artists, context);
        Song::attach_in(&mut self.catalog, context);
    }

    /// A copy of these relationships.
    pub fn duplicate(&self) -> (copy: LibrarySongRelationships)
        ensures
            self.copied(&copy),
        decreases self,
    {
        LibrarySongRelationships {
            albums: LibraryAlbum::duplicate_in(&self.albums),
            artists: LibraryArtist::duplicate_in(&self.artists),
            catalog: Song::duplicate_in(&self.catalog),
        }
    }

    /// Whether `copy` holds a copy of each of these relationships, with the context that it
    /// holds and a copy of each of its items.
    pub open spec fn copied(&self, copy: &LibrarySongRelationships) -> bool
        decreases self,
    {
        &&& LibraryAlbum::copied_in(self.albums, copy.albums)
        &&& LibraryArtist::copied_in(self.artists, copy.artists)
        &&& Song::copied_in(self.catalog, copy.catalog)
    }
}

impl ContextContainer for LibrarySongRelationships {
    open spec fn propagated(&self, context: Arc<RequestContext>, after: &Self) -> bool {
        self.attached(context, after)
    }

    fn set_context(&mut self, context: Arc<RequestContext>) {
        self.attach(&context);
    }
}

impl Clone for LibrarySongRelationships {
    fn clone(&self) -> (copy: Self)
        ensures
            self.copied(&copy),
    {
        self.duplicate()
    }
}

/// Library song request builder
pub struct LibrarySongRequestBuilder;

/// Library song get request builder
pub type LibrarySongGetRequestBuilder<'a> = MusicRequestBuilder<'a, LibrarySongRequestBuilder>;

impl<'a> LibrarySongGetRequestBuilder<'a> {
    /// Fetch one library song by id
    pub fn one(self, client: &ApiClient, id: &str) -> (fetch: FetchOne<LibrarySong>)
        ensures
            prepared(
                fetch.request,
                fetch.context,
                Method::Get,
                below("/v1/me/library/songs"@, id@),
                self.storefront(client),
                self.query(client),
            ),
    {
        let mut builder = self;
        let context = builder.get_request_context_drain(client);
        let endpoint = owned("/v1/me/library/songs");
        let path = path_below(endpoint.as_str(), id);
        FetchOne::new(client.get(path.as_str()), context)
    }

    /// Fetch multiple library songs by id
    pub fn many(self, client: &ApiClient, ids: &[&str]) -> (fetch: FetchMany<LibrarySong>)
        ensures
            prepared(
                fetch.request,
                fetch.context,
                Method::Get,
                "/v1/me/library/songs"@,
                self.storefront(client),
                self.query(client).push(("ids"@, joined(slice_views(ids@), ","@))),
            ),
    {
        let mut builder = self;
        let mut context = builder.get_request_context_drain(client);
        push_parameter(&mut context, "ids", join(ids, ","));
        let endpoint = owned("/v1/me/library/songs");
        FetchMany::new(client.get(endpoint.as_str()), context)
    }

    /// Fetch all library songs
    /// # Params
    ///
    /// * limit - limit of entries per query
    ///
    /// * offset - query offset
    pub fn all(
        self,
        client: &ApiClient,
        limit: usize,
        offset: usize,
    ) -> (pages: Paginator<LibrarySong>)
        ensures
            pages.endpoint() == "/v1/me/library/songs"@,
            pages.context().storefront == self.storefront(client),
            query_view(pages.context().query@) == self.query(client).push(
                ("limit"@, decimal(limit as nat)),
            ),
            pages@ == (Progress { offset: offset as nat, finished: false }),
    {
        let mut builder = self;
        let mut context = builder.get_request_context_drain(client);
        push_parameter(&mut context, "limit", to_decimal(limit));
        let endpoint = owned("/v1/me/library/songs");
        paginate(endpoint, context, offset)
    }
}

} // verus!
