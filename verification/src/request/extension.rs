//! Request builder that supports extensions

use crate::request::context::RequestContext;
use crate::request::fields::{
    added, all_eager, keys_apart, lemma_added_eager, lemma_eager_keys_apart, parameters, query_view,
    well_formed, FieldSets, Requested,
};
use crate::text::Named;
use vstd::prelude::*;

verus! {

/// A trait for getting information about an extension type
pub trait ExtensionTrait: Named {
    /// The name of the object that the extension belongs to.
    spec fn object(&self) -> Seq<char>;

    /// Get extension object name
    fn get_object(&self) -> (object: &'static str)
        ensures
            object@ == self.object(),
    ;
}

/// Extension storage
pub struct ExtensionStorage {
    storage: FieldSets,
}

impl ExtensionStorage {
    #[verifier::type_invariant]
    spec fn eager(&self) -> bool {
        all_eager(self@)
    }

    /// The objects with the extensions requested for each, in the order of arrival. Every
    /// entry is eager.
    pub closed spec fn view(&self) -> Seq<Requested> {
        self.storage@
    }

    /// Add an extension to this storage
    pub fn add_extension(&mut self, extension: impl ExtensionTrait)
        ensures
            well_formed(old(self)@),
            well_formed(final(self)@),
            all_eager(old(self)@),
            all_eager(final(self)@),
            final(self)@ == added(old(self)@, extension.object(), false, extension.name()),
    {
        proof {
            use_type_invariant(&*self);
            lemma_added_eager(self@, extension.object(), extension.name());
        }
        let mut storage = FieldSets::new();
        core::mem::swap(&mut self.storage, &mut storage);
        storage.add(extension.get_object(), false, extension.to_string());
        core::mem::swap(&mut self.storage, &mut storage);
    }

    /// Build extension query parameters draining this storage
    pub fn build_query_drain(&mut self, request_context: &mut RequestContext)
        ensures
            well_formed(old(self)@),
            all_eager(old(self)@),
            keys_apart(parameters(old(self)@, "extend"@, "extend"@)),
            final(self)@ == Seq::<Requested>::empty(),
            final(request_context).storefront == old(request_context).storefront,
            query_view(final(request_context).query@) == query_view(old(request_context).query@)
                + parameters(old(self)@, "extend"@, "extend"@),
    {
        proof {
            use_type_invariant(&*self);
        }
        let mut storage = FieldSets::new();
        core::mem::swap(&mut self.storage, &mut storage);
        storage.drain("extend", "extend", &mut request_context.query);
        proof {
            lemma_eager_keys_apart(old(self)@, "extend"@, "extend"@);
        }
    }
}

impl Default for ExtensionStorage {
    fn default() -> (storage: Self)
        ensures
            storage@ == Seq::<Requested>::empty(),
    {
        ExtensionStorage { storage: FieldSets::new() }
    }
}

} // verus!
