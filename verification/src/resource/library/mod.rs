//! Apple music library

use crate::error::ApiError;
use crate::request::builder::MusicRequestBuilder;
use crate::request::fields::{FieldSets, Requested, added, parameters, well_formed};
use crate::request::{FetchMany, prepared, push_parameter};
use crate::resource::catalog::album::Album;
use crate::resource::catalog::artist::Artist;
use crate::resource::catalog::music_video::MusicVideo;
use crate::resource::catalog::playlist::Playlist;
use crate::resource::catalog::song::Song;
use crate::resource::{Resource, ResourceInfo, ResourceType};
use crate::text::owned;
use crate::{ApiClient, Method};
use vstd::prelude::*;

pub mod album;
pub mod artist;
pub mod music_video;
pub mod playlist;
pub mod search;
pub mod song;

verus! {

/// Library builder
pub struct LibraryBuilder;

/// Library add resource builder
pub type LibraryAddResourceBuilder<'a> = MusicRequestBuilder<'a, LibraryBuilder, FieldSets>;

/// Whether a resource can be added to the library.
pub open spec fn can_be_added(resource: &Resource) -> bool {
    ||| resource is Album
    ||| resource is Artist
    ||| resource is MusicVideo
    ||| resource is Playlist
    ||| resource is Song
}

impl<'a> LibraryAddResourceBuilder<'a> {
    /// Create a new [`LibraryAddResourceBuilder`] instance
    pub fn new() -> (builder: LibraryAddResourceBuilder<'a>)
        ensures
            builder.is_fresh(),
            builder.data()@ == Seq::<Requested>::empty(),
    {
        MusicRequestBuilder::with_data(FieldSets::new())
    }

    /// Add a resource to the library
    ///
    /// Albums, artists, music videos, playlists and songs of the catalog can be added.
    pub fn add_resource(self, resource: &Resource) -> (builder: Result<Self, ApiError>)
        ensures
            match builder {
                Ok(builder) => {
                    &&& can_be_added(resource)
                    &&& self.same_but_data(&builder)
                    &&& well_formed(builder.data()@)
                    &&& builder.data()@ == added(
                        self.data()@,
                        resource.wire_type(),
                        false,
                        resource.header().id@,
                    )
                },
                Err(error) => error is InvalidResourceType && !can_be_added(resource),
            },
    {
        let supported = match resource {
            Resource::Album { .. } => true,
            Resource::Artist { .. } => true,
            Resource::MusicVideo { .. } => true,
            Resource::Playlist { .. } => true,
            Resource::Song { .. } => true,
            _ => false,
        };
        if !supported {
            return Err(ApiError::InvalidResourceType);
        }
        let (builder, mut data) = self.split();
        data.add(resource.get_type(), false, resource.get_header().id.clone());
        Ok(builder.carrying(data))
    }

    /// Send the request
    ///
    /// The identifiers of the resources go out by type, behind the query parameters of
    /// the context.
    pub fn send(self, client: &ApiClient) -> (fetch: FetchMany<Resource>)
        ensures
            prepared(
                fetch.request,
                fetch.context,
                Method::Post,
                "/v1/me/library"@,
                self.storefront(client),
                self.query(client).push(("representation"@, "ids"@)) + parameters(
                    self.data()@,
                    "ids"@,
                    "ids"@,
                ),
            ),
    {
        let mut builder = self;
        let mut context = builder.get_request_context_drain(client);
        push_parameter(&mut context, "representation", owned("ids"));
        let (_, mut data) = builder.split();
        data.drain("ids", "ids", &mut context.query);
        FetchMany::new(client.post("/v1/me/library"), context)
    }
}

} // verus!
