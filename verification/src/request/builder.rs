//! Request builder

use crate::request::context::RequestContext;
use crate::request::extension::{ExtensionStorage, ExtensionTrait};
use crate::request::fields::{
    added, all_eager, keys_apart, lemma_eager_keys_apart, lemma_keys_apart, parameter, parameters,
    query_view, well_formed, Requested,
};
use crate::request::relationship::{RelationshipStorage, RelationshipTrait};
use crate::request::view::{ViewStorage, ViewTrait};
use crate::text::owned;
use crate::{ApiClient, Country};
use std::marker::PhantomData;
use vstd::prelude::*;

verus! {

/// The query parameters that a builder is drained into: the localization first, then the
/// extensions, the relationships and the views.
pub open spec fn drained_query(
    localization: Seq<char>,
    extensions: Seq<Requested>,
    relationships: Seq<Requested>,
    views: Seq<Requested>,
) -> Seq<(Seq<char>, Seq<char>)> {
    seq![("l"@, localization)] + parameters(extensions, "extend"@, "extend"@) + parameters(
        relationships,
        "include"@,
        "relate"@,
    ) + parameters(views, "views"@, "views"@)
}

/// The first letter of the key that an entry is drained into is that of its prefix.
proof fn lemma_key_begins(entry: Requested, eager: Seq<char>, lazy: Seq<char>)
    requires
        eager.len() > 0,
        lazy.len() > 0,
    ensures
        parameter(entry, eager, lazy).0[0] == (if entry.lazy {
            lazy[0]
        } else {
            eager[0]
        }),
{
}

/// No two of the query parameters that a builder is drained into have the same key:
/// the localization, the extensions, the relationships that are eager, those that are
/// lazy and the views have keys of their own, and under each there is one parameter
/// for an object.
pub proof fn lemma_drained_keys_apart(
    localization: Seq<char>,
    extensions: Seq<Requested>,
    relationships: Seq<Requested>,
    views: Seq<Requested>,
)
    requires
        well_formed(extensions),
        well_formed(relationships),
        well_formed(views),
        all_eager(extensions),
        all_eager(views),
    ensures
        keys_apart(drained_query(localization, extensions, relationships, views)),
{
    reveal_strlit("l");
    reveal_strlit("extend");
    reveal_strlit("include");
    reveal_strlit("relate");
    reveal_strlit("views");
    let e = parameters(extensions, "extend"@, "extend"@);
    let r = parameters(relationships, "include"@, "relate"@);
    let v = parameters(views, "views"@, "views"@);
    let all = drained_query(localization, extensions, relationships, views);
    lemma_eager_keys_apart(extensions, "extend"@, "extend"@);
    lemma_keys_apart(relationships, "include"@, "relate"@);
    lemma_eager_keys_apart(views, "views"@, "views"@);
    assert forall|i: int| 0 <= i < e.len() implies (#[trigger] e[i]).0[0] == 'e' by {
        lemma_key_begins(extensions[i], "extend"@, "extend"@);
    }
    assert forall|i: int| 0 <= i < r.len() implies (#[trigger] r[i]).0[0] == 'i' || r[i].0[0]
        == 'r' by {
        lemma_key_begins(relationships[i], "include"@, "relate"@);
    }
    assert forall|i: int| 0 <= i < v.len() implies (#[trigger] v[i]).0[0] == 'v' by {
        lemma_key_begins(views[i], "views"@, "views"@);
    }
    assert forall|i: int, j: int|
        #![trigger all[i], all[j]]
        0 <= i < j < all.len() implies all[i].0 != all[j].0 by {
        let first = 1 + e.len();
        let second = first + r.len();
        assert(all[0].0[0] == 'l');
        if 1 <= i < first {
            assert(all[i] == e[i - 1]);
        } else if first <= i < second {
            assert(all[i] == r[i - first]);
        } else if second <= i {
            assert(all[i] == v[i - second]);
        }
        if 1 <= j < first {
            assert(all[j] == e[j - 1]);
        } else if first <= j < second {
            assert(all[j] == r[j - first]);
        } else if second <= j {
            assert(all[j] == v[j - second]);
        }
    }
}

/// A request builder
pub struct MusicRequestBuilder<'a, BuilderType, Data = ()> {
    /// Storefront
    pub(crate) storefront_override: Option<Country>,
    /// Localization
    pub(crate) localization_override: Option<&'a str>,
    /// Extensions
    pub(crate) extensions: ExtensionStorage,
    /// Relationships
    pub(crate) relationships: RelationshipStorage,
    /// Views
    pub(crate) views: ViewStorage,
    /// Data
    pub(crate) data: Data,
    pub(crate) _marker: PhantomData<BuilderType>,
}

impl<'a, BuilderType, Data> MusicRequestBuilder<'a, BuilderType, Data> {
    /// The storefront that stands in for the client's, if one was set.
    pub closed spec fn storefront_override(&self) -> Option<Country> {
        self.storefront_override
    }

    /// The localization that stands in for the client's, if one was set.
    pub closed spec fn localization_override(&self) -> Option<Seq<char>> {
        match self.localization_override {
            Some(localization) => Some(localization@),
            None => None,
        }
    }

    /// The extensions asked for so far.
    pub closed spec fn extensions(&self) -> Seq<Requested> {
        self.extensions@
    }

    /// The relationships asked for so far.
    pub closed spec fn relationships(&self) -> Seq<Requested> {
        self.relationships@
    }

    /// The views asked for so far.
    pub closed spec fn views(&self) -> Seq<Requested> {
        self.views@
    }

    /// The data that the request carries.
    pub closed spec fn data(&self) -> Data {
        self.data
    }

    /// The storefront a request of this builder addresses with the given client.
    pub open spec fn storefront(&self, client: &ApiClient) -> Country {
        match self.storefront_override() {
            Some(storefront) => storefront,
            None => client.storefront_country(),
        }
    }

    /// The localization a request of this builder asks for with the given client.
    pub open spec fn localization(&self, client: &ApiClient) -> Seq<char> {
        match self.localization_override() {
            Some(localization) => localization,
            None => client.localization(),
        }
    }

    /// The query parameters that this builder is drained into with the given client.
    pub open spec fn query(&self, client: &ApiClient) -> Seq<(Seq<char>, Seq<char>)> {
        drained_query(
            self.localization(client),
            self.extensions(),
            self.relationships(),
            self.views(),
        )
    }

    /// Whether the builder is as it is made: nothing is overridden and nothing asked for.
    pub open spec fn is_fresh(&self) -> bool {
        &&& self.storefront_override() is None
        &&& self.localization_override() is None
        &&& self.extensions() == Seq::<Requested>::empty()
        &&& self.relationships() == Seq::<Requested>::empty()
        &&& self.views() == Seq::<Requested>::empty()
    }

    /// Whether `after` is this builder with nothing changed but what it asks for.
    pub open spec fn same_request(&self, after: &Self) -> bool {
        &&& after.storefront_override() == self.storefront_override()
        &&& after.localization_override() == self.localization_override()
        &&& after.data() == self.data()
    }

    /// Whether `after` is set as this builder and asks for the same, whatever data the
    /// two carry.
    pub open spec fn same_but_data<Other>(
        &self,
        after: &MusicRequestBuilder<'a, BuilderType, Other>,
    ) -> bool {
        &&& after.storefront_override() == self.storefront_override()
        &&& after.localization_override() == self.localization_override()
        &&& after.extensions() == self.extensions()
        &&& after.relationships() == self.relationships()
        &&& after.views() == self.views()
    }

    /// A builder as it is made, which carries the given data.
    pub fn with_data(data: Data) -> (builder: Self)
        ensures
            builder.is_fresh(),
            builder.data() == data,
    {
        MusicRequestBuilder {
            storefront_override: None,
            localization_override: None,
            extensions: Default::default(),
            relationships: Default::default(),
            views: Default::default(),
            data,
            _marker: PhantomData,
        }
    }

    /// Takes the data out of the builder.
    pub fn split(self) -> (parts: (MusicRequestBuilder<'a, BuilderType, ()>, Data))
        ensures
            self.same_but_data(&parts.0),
            parts.1 == self.data(),
    {
        (
            MusicRequestBuilder {
                storefront_override: self.storefront_override,
                localization_override: self.localization_override,
                extensions: self.extensions,
                relationships: self.relationships,
                views: self.views,
                data: (),
                _marker: PhantomData,
            },
            self.data,
        )
    }

    /// Puts data in the place of what the builder carries.
    pub fn carrying<Other>(self, data: Other) -> (builder: MusicRequestBuilder<
        'a,
        BuilderType,
        Other,
    >)
        ensures
            self.same_but_data(&builder),
            builder.data() == data,
    {
        MusicRequestBuilder {
            storefront_override: self.storefront_override,
            localization_override: self.localization_override,
            extensions: self.extensions,
            relationships: self.relationships,
            views: self.views,
            data,
            _marker: PhantomData,
        }
    }

    /// Override storefront for this request
    pub fn override_storefront(self, storefront: Country) -> (builder: Self)
        ensures
            builder.storefront_override() == Some(storefront),
            builder.localization_override() == self.localization_override(),
            builder.extensions() == self.extensions(),
            builder.relationships() == self.relationships(),
            builder.views() == self.views(),
            builder.data() == self.data(),
    {
        let mut builder = self;
        builder.storefront_override = Some(storefront);
        builder
    }

    /// Override localization for this request
    pub fn override_localization(self, localization: &'a str) -> (builder: Self)
        ensures
            builder.localization_override() == Some(localization@),
            builder.storefront_override() == self.storefront_override(),
            builder.extensions() == self.extensions(),
            builder.relationships() == self.relationships(),
            builder.views() == self.views(),
            builder.data() == self.data(),
    {
        let mut builder = self;
        builder.localization_override = Some(localization);
        builder
    }

    /// Extend resource attributes
    pub fn extend(self, extension: impl ExtensionTrait) -> (builder: Self)
        ensures
            self.same_request(&builder),
            well_formed(self.extensions()),
            well_formed(builder.extensions()),
            all_eager(self.extensions()),
            all_eager(builder.extensions()),
            builder.extensions() == added(
                self.extensions(),
                extension.object(),
                false,
                extension.name(),
            ),
            builder.relationships() == self.relationships(),
            builder.views() == self.views(),
    {
        let mut builder = self;
        builder.extensions.add_extension(extension);
        builder
    }

    /// Include a relationship
    ///
    /// This will fetch the full object for the relationship data
    pub fn include_eager(self, relationship: impl RelationshipTrait) -> (builder: Self)
        ensures
            self.same_request(&builder),
            well_formed(self.relationships()),
            well_formed(builder.relationships()),
            builder.relationships() == added(
                self.relationships(),
                relationship.object(),
                false,
                relationship.name(),
            ),
            builder.extensions() == self.extensions(),
            builder.views() == self.views(),
    {
        let mut builder = self;
        builder.relationships.add_relationship(relationship);
        builder
    }

    /// Lazily include a relationship
    ///
    /// This will only fetch the identifiers for the relationship data
    pub fn include_lazy(self, relationship: impl RelationshipTrait) -> (builder: Self)
        ensures
            self.same_request(&builder),
            well_formed(self.relationships()),
            well_formed(builder.relationships()),
            builder.relationships() == added(
                self.relationships(),
                relationship.object(),
                true,
                relationship.name(),
            ),
            builder.extensions() == self.extensions(),
            builder.views() == self.views(),
    {
        let mut builder = self;
        builder.relationships.add_relationship_lazy(relationship);
        builder
    }

    /// Add a relationship view
    pub fn view(self, view: impl ViewTrait) -> (builder: Self)
        ensures
            self.same_request(&builder),
            well_formed(self.views()),
            well_formed(builder.views()),
            all_eager(self.views()),
            all_eager(builder.views()),
            builder.views() == added(self.views(), view.object(), false, view.name()),
            builder.extensions() == self.extensions(),
            builder.relationships() == self.relationships(),
    {
        let mut builder = self;
        builder.views.add_view(view);
        builder
    }

    /// Get request context draining this builder
    ///
    /// An override wins over what the client is set to. What was asked for is handed
    /// over to the context, and the builder asks for nothing any more.
    pub fn get_request_context_drain(&mut self, client: &ApiClient) -> (context: RequestContext)
        ensures
            context.storefront == old(self).storefront(client),
            query_view(context.query@) == old(self).query(client),
            well_formed(old(self).extensions()),
            well_formed(old(self).relationships()),
            well_formed(old(self).views()),
            all_eager(old(self).extensions()),
            all_eager(old(self).views()),
            keys_apart(old(self).query(client)),
            old(self).same_request(final(self)),
            final(self).extensions() == Seq::<Requested>::empty(),
            final(self).relationships() == Seq::<Requested>::empty(),
            final(self).views() == Seq::<Requested>::empty(),
    {
        let storefront = match self.storefront_override {
            Some(storefront) => storefront,
            None => client.get_storefront_country(),
        };
        let localization = match self.localization_override {
            Some(localization) => localization,
            None => client.get_localization(),
        };
        let mut query: Vec<(String, String)> = Vec::new();
        query.push((owned("l"), owned(localization)));
        assert(query_view(query@) =~= seq![("l"@, localization@)]);
        let mut context = RequestContext { storefront, query };
        self.extensions.build_query_drain(&mut context);
        self.relationships.build_query_drain(&mut context);
        self.views.build_query_drain(&mut context);
        proof {
            lemma_drained_keys_apart(
                localization@,
                old(self).extensions(),
                old(self).relationships(),
                old(self).views(),
            );
        }
        context
    }
}

impl<'a, T, Data: Default> Default for MusicRequestBuilder<'a, T, Data> {
    fn default() -> (builder: Self)
        ensures
            builder.is_fresh(),
            Data::default.ensures((), builder.data()),
    {
        MusicRequestBuilder {
            storefront_override: None,
            localization_override: None,
            extensions: Default::default(),
            relationships: Default::default(),
            views: Default::default(),
            data: Default::default(),
            _marker: PhantomData,
        }
    }
}

} // verus!
