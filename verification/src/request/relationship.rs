//! Request builder that supports relations

use crate::request::context::RequestContext;
use crate::request::fields::{
    added, keys_apart, lemma_keys_apart, parameters, query_view, well_formed, FieldSets, Requested,
};
use crate::text::Named;
use vstd::prelude::*;

verus! {

/// A trait for getting information about a relationship type
pub trait RelationshipTrait: Named {
    /// The name of the object that the relation belongs to.
    spec fn object(&self) -> Seq<char>;

    /// Get relation object name
    fn get_object(&self) -> (object: &'static str)
        ensures
            object@ == self.object(),
    ;
}

/// Relationship storage type
pub struct RelationshipStorage {
    storage: FieldSets,
}

impl RelationshipStorage {
    /// The objects with the relations requested for each, eager and lazy apart, in the
    /// order of arrival.
    pub closed spec fn view(&self) -> Seq<Requested> {
        self.storage@
    }

    /// Add a relationship to this storage
    pub fn add_relationship(&mut self, relationship: impl RelationshipTrait)
        ensures
            well_formed(old(self)@),
            well_formed(final(self)@),
            final(self)@ == added(old(self)@, relationship.object(), false, relationship.name()),
    {
        self.storage.add(relationship.get_object(), false, relationship.to_string());
    }

    /// Add a lazy relationship to this storage
    pub fn add_relationship_lazy(&mut self, relationship: impl RelationshipTrait)
        ensures
            well_formed(old(self)@),
            well_formed(final(self)@),
            final(self)@ == added(old(self)@, relationship.object(), true, relationship.name()),
    {
        self.storage.add(relationship.get_object(), true, relationship.to_string());
    }

    /// Build relationship query parameters draining this storage
    pub fn build_query_drain(&mut self, request_context: &mut RequestContext)
        ensures
            well_formed(old(self)@),
            keys_apart(parameters(old(self)@, "include"@, "relate"@)),
            final(self)@ == Seq::<Requested>::empty(),
            final(request_context).storefront == old(request_context).storefront,
            query_view(final(request_context).query@) == query_view(old(request_context).query@)
                + parameters(old(self)@, "include"@, "relate"@),
    {
        self.storage.drain("include", "relate", &mut request_context.query);
        proof {
            reveal_strlit("include");
            reveal_strlit("relate");
            lemma_keys_apart(old(self)@, "include"@, "relate"@);
        }
    }
}

impl Default for RelationshipStorage {
    fn default() -> (storage: Self)
        ensures
            storage@ == Seq::<Requested>::empty(),
    {
        RelationshipStorage { storage: FieldSets::new() }
    }
}

} // verus!
