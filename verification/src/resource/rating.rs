//! Rating

use crate::error::ApiError;
use crate::request::builder::MusicRequestBuilder;
use crate::request::context::{ContextContainer, RequestContext};
use crate::request::relationship::RelationshipTrait;
use crate::request::{FetchMany, FetchOne, below, path_below, prepared, push_parameter, sends};
use crate::resource::catalog::album::Album;
use crate::resource::catalog::music_video::MusicVideo;
use crate::resource::catalog::playlist::Playlist;
use crate::resource::catalog::song::Song;
use crate::resource::catalog::station::Station;
use crate::resource::library::album::LibraryAlbum;
use crate::resource::library::music_video::LibraryMusicVideo;
use crate::resource::library::playlist::LibraryPlaylist;
use crate::resource::library::song::LibrarySong;
use crate::resource::relationship::Relationship;
use crate::resource::{Resource, ResourceHeader, ResourceInfo, ResourceType};
use crate::text::{Named, join, joined, owned, slice_views};
use crate::{ApiClient, Method, Request};
use std::sync::Arc;
use vstd::prelude::*;

verus! {

/// Rating
#[derive(Default, Debug, PartialEq, Eq, Hash)]
pub struct Rating {
    /// Resource header
    pub header: ResourceHeader,
    /// Rating attributes
    pub attributes: Option<RatingAttributes>,
    /// Rating relationships
    pub relationships: RatingRelationships,
}

impl Rating {
    /// Get rating request builder
    pub fn get<'a>() -> (builder: RatingGetRequestBuilder<'a>)
        ensures
            builder.is_fresh(),
    {
        RatingGetRequestBuilder::default()
    }

    /// Post rating request builder
    pub fn add_rating<'a>() -> (builder: RatingPostRequestBuilder<'a>)
        ensures
            builder.is_fresh(),
    {
        RatingPostRequestBuilder::default()
    }

    /// Post rating request builder
    pub fn remove_rating<'a>() -> (builder: RatingPostRequestBuilder<'a>)
        ensures
            builder.is_fresh(),
    {
        RatingPostRequestBuilder::default()
    }

    /// Whether `after` is this rating with `context` stored in every relationship and view
    /// below it, and with nothing else changed.
    pub open spec fn attached(&self, context: Arc<RequestContext>, after: &Rating) -> bool
        decreases self,
    {
        &&& after.header == self.header
        &&& after.attributes == self.attributes
        &&& self.relationships.attached(context, &after.relationships)
    }

    /// Stores the context in every relationship and view below this rating.
    pub fn attach(&mut self, context: &Arc<RequestContext>)
        ensures
            old(self).attached(*context, final(self)),
            final(self).attached(*context, final(self)),
        decreases *old(self),
    {
        self.relationships.attach(context);
    }

    /// A copy of this rating.
    pub fn duplicate(&self) -> (copy: Rating)
        ensures
            self.copied(&copy),
        decreases self,
    {
        Rating {
            header: self.header.clone(),
            attributes: self.attributes.clone(),
            relationships: self.relationships.duplicate(),
        }
    }

    /// Whether `copy` holds what this rating holds: the same header, a clone of the
    /// attributes, and a copy of every relationship and view below it, each with the
    /// context that it holds.
    pub open spec fn copied(&self, copy: &Rating) -> bool
        decreases self,
    {
        &&& copy.header == self.header
        &&& cloned(self.attributes, copy.attributes)
        &&& self.relationships.copied(&copy.relationships)
    }
}

impl ContextContainer for Rating {
    open spec fn propagated(&self, context: Arc<RequestContext>, after: &Self) -> bool {
        self.attached(context, after)
    }

    fn set_context(&mut self, context: Arc<RequestContext>) {
        self.attach(&context);
    }
}

impl Clone for Rating {
    fn clone(&self) -> (copy: Self)
        ensures
            self.copied(&copy),
    {
        self.duplicate()
    }
}

/// Rating attributes
#[derive(Default, Debug, Clone, PartialEq, Eq, Hash)]
pub struct RatingAttributes {
    /// The value for the resource's rating. The possible values for the value key are 1 and -1. If a value isn't present, the content doesn't have a rating
    pub rating: Option<i32>,
}

/// Rating relationships
#[derive(Default, Debug, PartialEq, Eq, Hash)]
pub struct RatingRelationships {
    /// The content associated with the rating.
    ///
    /// Fetch limits: None.
    ///
    /// Posssible resources: [`Album`], [`LibraryMusicVideo`], [`LibraryPlaylist`], [`LibrarySong`], [`MusicVideo`], [`Playlist`], [`Song`], [`Station`]
    pub content: Option<Relationship<Resource>>,
}

/// The relationships that can be asked for with ratings
#[derive(Debug, Copy, Clone, PartialEq, Eq, Hash)]
pub enum RatingRelationshipType {
    /// The content associated with the rating.
    ///
    /// Fetch limits: None.
    ///
    /// Posssible resources: [`Album`], [`LibraryMusicVideo`], [`LibraryPlaylist`], [`LibrarySong`], [`MusicVideo`], [`Playlist`], [`Song`], [`Station`]
    Content,
}

impl Named for RatingRelationshipType {
    open spec fn name(&self) -> Seq<char> {
        match self {
            RatingRelationshipType::Content => "content"@,
        }
    }

    fn to_string(&self) -> (name: String) {
        let name = match self {
            RatingRelationshipType::Content => "content",
        };
        owned(name)
    }
}

impl RelationshipTrait for RatingRelationshipType {
    open spec fn object(&self) -> Seq<char> {
        "ratings"@
    }

    fn get_object(&self) -> (object: &'static str) {
        "ratings"
    }
}

impl RatingRelationships {
    /// Whether `after` holds these relationships with `context` stored in each of them and
    /// below each of their items, and with nothing else changed.
    pub open spec fn attached(
        &self,
        context: Arc<RequestContext>,
        after: &RatingRelationships,
    ) -> bool
        decreases self,
    {
        &&& Resource::attached_in(self.content, context, after.content)
    }

    /// Stores the context in each of these relationships and below each of their items.
    pub fn attach(&mut self, context: &Arc<RequestContext>)
        ensures
            old(self).attached(*context, final(self)),
            final(self).attached(*context, final(self)),
        decreases *old(self),
    {
        Resource::attach_in(&mut self.content, context);
    }

    /// A copy of these relationships.
    pub fn duplicate(&self) -> (copy: RatingRelationships)
        ensures
            self.copied(&copy),
        decreases self,
    {
        RatingRelationships {
            content: Resource::duplicate_in(&self.content),
        }
    }

    /// Whether `copy` holds a copy of each of these relationships, with the context that it
    /// holds and a copy of each of its items.
    pub open spec fn copied(&self, copy: &RatingRelationships) -> bool
        decreases self,
    {
        &&& Resource::copied_in(self.content, copy.content)
    }
}

impl ContextContainer for RatingRelationships {
    open spec fn propagated(&self, context: Arc<RequestContext>, after: &Self) -> bool {
        self.attached(context, after)
    }

    fn set_context(&mut self, context: Arc<RequestContext>) {
        self.attach(&context);
    }
}

impl Clone for RatingRelationships {
    fn clone(&self) -> (copy: Self)
        ensures
            self.copied(&copy),
    {
        self.duplicate()
    }
}

/// Rating type
#[derive(Debug, Clone, PartialEq, Eq, Hash)]
pub enum RatingType {
    /// Album
    Album,
    /// Music video
    MusicVideo,
    /// Playlist
    Playlist,
    /// Song
    Song,
    /// Station
    Station,
    /// Library album
    LibraryAlbum,
    /// Library music video
    LibraryMusicVideo,
    /// Library playlist
    LibraryPlaylist,
    /// Library song
    LibrarySong,
}

impl Named for RatingType {
    open spec fn name(&self) -> Seq<char> {
        match self {
            RatingType::Album => "albums"@,
            RatingType::MusicVideo => "music-videos"@,
            RatingType::Playlist => "playlists"@,
            RatingType::Song => "songs"@,
            RatingType::Station => "stations"@,
            RatingType::LibraryAlbum => "library-albums"@,
            RatingType::LibraryMusicVideo => "library-music-videos"@,
            RatingType::LibraryPlaylist => "library-playlists"@,
            RatingType::LibrarySong => "library-songs"@,
        }
    }

    fn to_string(&self) -> (name: String) {
        let name = match self {
            RatingType::Album => "albums",
            RatingType::MusicVideo => "music-videos",
            RatingType::Playlist => "playlists",
            RatingType::Song => "songs",
            RatingType::Station => "stations",
            RatingType::LibraryAlbum => "library-albums",
            RatingType::LibraryMusicVideo => "library-music-videos",
            RatingType::LibraryPlaylist => "library-playlists",
            RatingType::LibrarySong => "library-songs",
        };
        owned(name)
    }
}

/// Rating request builder marker
pub struct RatingGetRequestBuilderMarker;

/// Rating get request builder
pub type RatingGetRequestBuilder<'a> = MusicRequestBuilder<'a, RatingGetRequestBuilderMarker>;

impl<'a> RatingGetRequestBuilder<'a> {
    /// Fetch one rating for a resource
    pub fn one(
        self,
        client: &ApiClient,
        rating_type: RatingType,
        id: &str,
    ) -> (fetch: FetchOne<Rating>)
        ensures
            prepared(
                fetch.request,
                fetch.context,
                Method::Get,
                below(below("/v1/me/ratings"@, rating_type.name()), id@),
                self.storefront(client),
                self.query(client),
            ),
    {
        let mut builder = self;
        let context = builder.get_request_context_drain(client);
        let kind = rating_type.to_string();
        let endpoint = path_below("/v1/me/ratings", kind.as_str());
        let path = path_below(endpoint.as_str(), id);
        FetchOne::new(client.get(path.as_str()), context)
    }

    /// Fetch multiple ratings by ids
    pub fn many(
        self,
        client: &ApiClient,
        rating_type: RatingType,
        ids: &[&str],
    ) -> (fetch: FetchMany<Rating>)
        ensures
            prepared(
                fetch.request,
                fetch.context,
                Method::Get,
                below("/v1/me/ratings"@, rating_type.name()),
                self.storefront(client),
                self.query(client).push(("ids"@, joined(slice_views(ids@), ","@))),
            ),
    {
        let mut builder = self;
        let mut context = builder.get_request_context_drain(client);
        push_parameter(&mut context, "ids", join(ids, ","));
        let kind = rating_type.to_string();
        let endpoint = path_below("/v1/me/ratings", kind.as_str());
        FetchMany::new(client.get(endpoint.as_str()), context)
    }
}

/// Rating post request builder marker
pub struct RatingPostRequestBuilderMarker;

/// Rating post request builder
pub type RatingPostRequestBuilder<'a> = MusicRequestBuilder<'a, RatingPostRequestBuilderMarker>;

/// Whether a resource can be rated.
pub open spec fn can_be_rated(resource: &Resource) -> bool {
    ||| resource is Album
    ||| resource is MusicVideo
    ||| resource is Playlist
    ||| resource is Song
    ||| resource is Station
    ||| resource is LibraryAlbum
    ||| resource is LibraryMusicVideo
    ||| resource is LibraryPlaylist
    ||| resource is LibrarySong
}

/// The path under which the rating of a resource is kept.
pub open spec fn rating_of(resource: &Resource) -> Seq<char> {
    below(below("/v1/me/ratings"@, resource.wire_type()), resource.header().id@)
}

/// Builds the path under which the rating of a resource is kept.
fn rating_path(resource: &Resource) -> (path: String)
    ensures
        path@ == rating_of(resource),
{
    let endpoint = path_below("/v1/me/ratings", resource.get_type());
    path_below(endpoint.as_str(), resource.get_header().id.as_str())
}

impl<'a> RatingPostRequestBuilder<'a> {
    /// Add a rating to a resource
    ///
    /// # Return value
    ///
    /// Resource of type [`Rating`]
    pub fn add_rating(self, client: &ApiClient, resource: &Resource) -> (fetch: Result<
        FetchOne<Rating>,
        ApiError,
    >)
        ensures
            match fetch {
                Ok(fetch) => {
                    &&& can_be_rated(resource)
                    &&& prepared(
                        fetch.request,
                        fetch.context,
                        Method::Put,
                        rating_of(resource),
                        self.storefront(client),
                        self.query(client),
                    )
                },
                Err(error) => error is InvalidResourceType && !can_be_rated(resource),
            },
    {
        match Self::check_supported(resource) {
            Ok(()) => {},
            Err(error) => {
                return Err(error);
            },
        }
        let mut builder = self;
        let context = builder.get_request_context_drain(client);
        let path = rating_path(resource);
        Ok(FetchOne::new(client.put(path.as_str()), context))
    }

    /// Remove a rating from a resource
    pub fn remove_rating(self, client: &ApiClient, resource: &Resource) -> (request: Result<
        Request,
        ApiError,
    >)
        ensures
            match request {
                Ok(request) => {
                    &&& can_be_rated(resource)
                    &&& sends(request, Method::Delete, rating_of(resource), self.query(client))
                },
                Err(error) => error is InvalidResourceType && !can_be_rated(resource),
            },
    {
        match Self::check_supported(resource) {
            Ok(()) => {},
            Err(error) => {
                return Err(error);
            },
        }
        let mut builder = self;
        let context = builder.get_request_context_drain(client);
        let path = rating_path(resource);
        Ok(client.delete(path.as_str()).query(&context.query))
    }

    /// Check if the passed in resource is supported
    pub fn check_supported(resource: &Resource) -> (checked: Result<(), ApiError>)
        ensures
            match checked {
                Ok(()) => can_be_rated(resource),
                Err(error) => error is InvalidResourceType && !can_be_rated(resource),
            },
    {
        let supported = match resource {
            Resource::Album { .. } => true,
            Resource::MusicVideo { .. } => true,
            Resource::Playlist { .. } => true,
            Resource::Song { .. } => true,
            Resource::Station { .. } => true,
            Resource::LibraryAlbum { .. } => true,
            Resource::LibraryMusicVideo { .. } => true,
            Resource::LibraryPlaylist { .. } => true,
            Resource::LibrarySong { .. } => true,
            _ => false,
        };
        if supported {
            Ok(())
        } else {
            Err(ApiError::InvalidResourceType)
        }
    }
}

} // verus!
