//! Request builder that supports views

use crate::request::context::RequestContext;
use crate::request::fields::{
    added, all_eager, keys_apart, lemma_added_eager, lemma_eager_keys_apart, parameters, query_view,
    well_formed, FieldSets, Requested,
};
use crate::text::Named;
use vstd::prelude::*;

verus! {

/// A trait for getting information about a view type
pub trait ViewTrait: Named {
    /// The name of the object that the view belongs to.
    spec fn object(&self) -> Seq<char>;

    /// Get view object name
    fn get_object(&self) -> (object: &'static str)
        ensures
            object@ == self.object(),
    ;
}

/// View storage
pub struct ViewStorage {
    storage: FieldSets,
}

impl ViewStorage {
    #[verifier::type_invariant]
    spec fn eager(&self) -> bool {
        all_eager(self@)
    }

    /// The objects with the views requested for each, in the order of arrival. Every
    /// entry is eager.
    pub closed spec fn view(&self) -> Seq<Requested> {
        self.storage@
    }

    /// Add a view to this storage
    pub fn add_view(&mut self, view: impl ViewTrait)
        ensures
            well_formed(old(self)@),
            well_formed(final(self)@),
            all_eager(old(self)@),
            all_eager(final(self)@),
            final(self)@ == added(old(self)@, view.object(), false, view.name()),
    {
        proof {
            use_type_invariant(&*self);
            lemma_added_eager(self@, view.object(), view.name());
        }
        let mut storage = FieldSets::new();
        core::mem::swap(&mut self.storage, &mut storage);
        storage.add(view.get_object(), false, view.to_string());
        core::mem::swap(&mut self.storage, &mut storage);
    }

    /// Build view query parameters draining this storage
    pub fn build_query_drain(&mut self, request_context: &mut RequestContext)
        ensures
            well_formed(old(self)@),
            all_eager(old(self)@),
            keys_apart(parameters(old(self)@, "views"@, "views"@)),
            final(self)@ == Seq::<Requested>::empty(),
            final(request_context).storefront == old(request_context).storefront,
            query_view(final(request_context).query@) == query_view(old(request_context).query@)
                + parameters(old(self)@, "views"@, "views"@),
    {
        proof {
            use_type_invariant(&*self);
        }
        let mut storage = FieldSets::new();
        core::mem::swap(&mut self.storage, &mut storage);
        storage.drain("views", "views", &mut request_context.query);
        proof {
            lemma_eager_keys_apart(old(self)@, "views"@, "views"@);
        }
    }
}

impl Default for ViewStorage {
    fn default() -> (storage: Self)
        ensures
            storage@ == Seq::<Requested>::empty(),
    {
        ViewStorage { storage: FieldSets::new() }
    }
}

} // verus!
