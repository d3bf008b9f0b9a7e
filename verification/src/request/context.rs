//! Request context

use crate::Country;
use std::hash::{Hash, Hasher};
use std::sync::Arc;
use vstd::prelude::*;
use vstd::std_specs::cmp::PartialEqSpecImpl;

verus! {

/// What a request was made with: the storefront and the query parameters.
#[derive(Debug, Clone)]
pub struct RequestContext {
    /// The storefront the request addresses
    pub storefront: Country,
    /// The query parameters, in the order in which they are sent
    pub query: Vec<(String, String)>,
}

/// The place of the context in a relationship or view: empty until a context is
/// propagated into it.
///
/// A context is no part of what was fetched, so any two places compare equal.
#[derive(Debug)]
pub struct ContextSlot {
    pub(crate) context: Option<Arc<RequestContext>>,
}

impl ContextSlot {
    /// The context that the place holds.
    pub closed spec fn view(&self) -> Option<Arc<RequestContext>> {
        self.context
    }

    /// A place without a context.
    pub fn empty() -> (slot: ContextSlot)
        ensures
            slot@ is None,
    {
        ContextSlot { context: None }
    }

    /// A place that holds a context.
    pub fn holding(context: Arc<RequestContext>) -> (slot: ContextSlot)
        ensures
            slot@ == Some(context),
    {
        ContextSlot { context: Some(context) }
    }

    /// Whether the place holds a context.
    pub fn is_some(&self) -> (some: bool)
        ensures
            some == self@ is Some,
    {
        self.context.is_some()
    }

    /// Another handle to the context, if the place holds one.
    pub fn get(&self) -> (context: Option<Arc<RequestContext>>)
        ensures
            context == self@,
    {
        match &self.context {
            Some(context) => Some(share(context)),
            None => None,
        }
    }
}

impl Clone for ContextSlot {
    fn clone(&self) -> (copy: Self)
        ensures
            copy@ == self@,
    {
        match &self.context {
            Some(context) => ContextSlot { context: Some(share(context)) },
            None => ContextSlot { context: None },
        }
    }
}

impl PartialEq for ContextSlot {
    fn eq(&self, other: &ContextSlot) -> (equal: bool) {
        true
    }
}

impl PartialEqSpecImpl for ContextSlot {
    open spec fn obeys_eq_spec() -> bool {
        true
    }

    open spec fn eq_spec(&self, other: &ContextSlot) -> bool {
        true
    }
}

impl Eq for ContextSlot {

}

impl Hash for ContextSlot {
    fn hash<H: Hasher>(&self, state: &mut H) {
    }
}

/// `Arc::clone`: another handle to the same shared value.
#[verifier::external_body]
pub(crate) fn share(context: &Arc<RequestContext>) -> (handle: Arc<RequestContext>)
    ensures
        handle == *context,
{
    Arc::clone(context)
}

/// Context container trait for filling out context in deserialized structs
pub trait ContextContainer {
    /// `after` is `self` with `context` stored in every relationship and view that `self`
    /// holds, at any depth, and with nothing else changed.
    spec fn propagated(&self, context: Arc<RequestContext>, after: &Self) -> bool;

    /// Stores the context in every relationship and view held by this value.
    ///
    /// Every one of them then holds `context`, and propagating the same context again
    /// changes nothing.
    fn set_context(&mut self, context: Arc<RequestContext>)
        ensures
            old(self).propagated(context, final(self)),
            final(self).propagated(context, final(self)),
    ;
}

/// Every relationship and view held by `value`, at any depth, holds `context`: to
/// propagate the context into the value changes nothing.
pub open spec fn carries<T: ContextContainer>(value: &T, context: Arc<RequestContext>) -> bool {
    value.propagated(context, value)
}

/// An option carries a context when what it holds carries it: an empty option holds
/// nothing that could lack the context.
pub proof fn lemma_option_carries<T: ContextContainer>(
    value: Option<T>,
    context: Arc<RequestContext>,
)
    ensures
        carries(&value, context) <==> (value matches Some(held) ==> carries(&held, context)),
{
}

/// A sequence carries a context when each of its items carries it.
pub proof fn lemma_sequence_carries<T: ContextContainer>(
    items: Vec<T>,
    context: Arc<RequestContext>,
)
    ensures
        carries(&items, context) <==> (forall|i: int|
            0 <= i < items@.len() ==> carries(&#[trigger] items@[i], context)),
{
}

impl<T: ContextContainer> ContextContainer for Option<T> {
    open spec fn propagated(&self, context: Arc<RequestContext>, after: &Self) -> bool {
        match (*self, *after) {
            (Some(before), Some(after)) => before.propagated(context, &after),
            (None, None) => true,
            _ => false,
        }
    }

    fn set_context(&mut self, context: Arc<RequestContext>) {
        match self {
            Some(e) => {
                e.set_context(context);
            },
            None => {},
        }
    }
}

impl<T: ContextContainer> ContextContainer for Vec<T> {
    open spec fn propagated(&self, context: Arc<RequestContext>, after: &Self) -> bool {
        &&& after@.len() == self@.len()
        &&& forall|i: int|
            0 <= i < self@.len() ==> (#[trigger] self@[i]).propagated(context, &after@[i])
    }

    fn set_context(&mut self, context: Arc<RequestContext>) {
        let n = self.len();
        let mut i: usize = 0;
        while i < n
            invariant
                i <= n,
                self@.len() == n,
                old(self)@.len() == n,
                forall|j: int|
                    0 <= j < i ==> (#[trigger] old(self)@[j]).propagated(context, &self@[j]),
                forall|j: int| 0 <= j < i ==> (#[trigger] self@[j]).propagated(context, &self@[j]),
                forall|j: int| i <= j < n ==> self@[j] == old(self)@[j],
            decreases n - i,
        {
            self[i].set_context(share(&context));
            i += 1;
        }
    }
}

impl ContextContainer for u8 {
    open spec fn propagated(&self, context: Arc<RequestContext>, after: &Self) -> bool {
        *after == *self
    }

    fn set_context(&mut self, _context: Arc<RequestContext>) {
    }
}

impl ContextContainer for u16 {
    open spec fn propagated(&self, context: Arc<RequestContext>, after: &Self) -> bool {
        *after == *self
    }

    fn set_context(&mut self, _context: Arc<RequestContext>) {
    }
}

impl ContextContainer for u32 {
    open spec fn propagated(&self, context: Arc<RequestContext>, after: &Self) -> bool {
        *after == *self
    }

    fn set_context(&mut self, _context: Arc<RequestContext>) {
    }
}

impl ContextContainer for u64 {
    open spec fn propagated(&self, context: Arc<RequestContext>, after: &Self) -> bool {
        *after == *self
    }

    fn set_context(&mut self, _context: Arc<RequestContext>) {
    }
}

impl ContextContainer for i8 {
    open spec fn propagated(&self, context: Arc<RequestContext>, after: &Self) -> bool {
        *after == *self
    }

    fn set_context(&mut self, _context: Arc<RequestContext>) {
    }
}

impl ContextContainer for i16 {
    open spec fn propagated(&self, context: Arc<RequestContext>, after: &Self) -> bool {
        *after == *self
    }

    fn set_context(&mut self, _context: Arc<RequestContext>) {
    }
}

impl ContextContainer for i32 {
    open spec fn propagated(&self, context: Arc<RequestContext>, after: &Self) -> bool {
        *after == *self
    }

    fn set_context(&mut self, _context: Arc<RequestContext>) {
    }
}

impl ContextContainer for i64 {
    open spec fn propagated(&self, context: Arc<RequestContext>, after: &Self) -> bool {
        *after == *self
    }

    fn set_context(&mut self, _context: Arc<RequestContext>) {
    }
}

impl ContextContainer for bool {
    open spec fn propagated(&self, context: Arc<RequestContext>, after: &Self) -> bool {
        *after == *self
    }

    fn set_context(&mut self, _context: Arc<RequestContext>) {
    }
}

impl ContextContainer for String {
    open spec fn propagated(&self, context: Arc<RequestContext>, after: &Self) -> bool {
        *after == *self
    }

    fn set_context(&mut self, _context: Arc<RequestContext>) {
    }
}

impl ContextContainer for &str {
    open spec fn propagated(&self, context: Arc<RequestContext>, after: &Self) -> bool {
        *after == *self
    }

    fn set_context(&mut self, _context: Arc<RequestContext>) {
    }
}

impl<A: ContextContainer> ContextContainer for (A,) {
    open spec fn propagated(&self, context: Arc<RequestContext>, after: &Self) -> bool {
        &&& self.0.propagated(context, &after.0)
    }

    fn set_context(&mut self, context: Arc<RequestContext>) {
        self.0.set_context(context);
    }
}

impl<A: ContextContainer, B: ContextContainer> ContextContainer for (A, B) {
    open spec fn propagated(&self, context: Arc<RequestContext>, after: &Self) -> bool {
        &&& self.0.propagated(context, &after.0)
        &&& self.1.propagated(context, &after.1)
    }

    fn set_context(&mut self, context: Arc<RequestContext>) {
        self.0.set_context(share(&context));
        self.1.set_context(context);
    }
}

impl<A: ContextContainer, B: ContextContainer, C: ContextContainer> ContextContainer for (A, B, C) {
    open spec fn propagated(&self, context: Arc<RequestContext>, after: &Self) -> bool {
        &&& self.0.propagated(context, &after.0)
        &&& self.1.propagated(context, &after.1)
        &&& self.2.propagated(context, &after.2)
    }

    fn set_context(&mut self, context: Arc<RequestContext>) {
        self.0.set_context(share(&context));
        self.1.set_context(share(&context));
        self.2.set_context(context);
    }
}

impl<
    A: ContextContainer,
    B: ContextContainer,
    C: ContextContainer,
    D: ContextContainer,
> ContextContainer for (A, B, C, D) {
    open spec fn propagated(&self, context: Arc<RequestContext>, after: &Self) -> bool {
        &&& self.0.propagated(context, &after.0)
        &&& self.1.propagated(context, &after.1)
        &&& self.2.propagated(context, &after.2)
        &&& self.3.propagated(context, &after.3)
    }

    fn set_context(&mut self, context: Arc<RequestContext>) {
        self.0.set_context(share(&context));
        self.1.set_context(share(&context));
        self.2.set_context(share(&context));
        self.3.set_context(context);
    }
}

impl<
    A: ContextContainer,
    B: ContextContainer,
    C: ContextContainer,
    D: ContextContainer,
    E: ContextContainer,
> ContextContainer for (A, B, C, D, E) {
    open spec fn propagated(&self, context: Arc<RequestContext>, after: &Self) -> bool {
        &&& self.0.propagated(context, &after.0)
        &&& self.1.propagated(context, &after.1)
        &&& self.2.propagated(context, &after.2)
        &&& self.3.propagated(context, &after.3)
        &&& self.4.propagated(context, &after.4)
    }

    fn set_context(&mut self, context: Arc<RequestContext>) {
        self.0.set_context(share(&context));
        self.1.set_context(share(&context));
        self.2.set_context(share(&context));
        self.3.set_context(share(&context));
        self.4.set_context(context);
    }
}

impl<
    A: ContextContainer,
    B: ContextContainer,
    C: ContextContainer,
    D: ContextContainer,
    E: ContextContainer,
    G: ContextContainer,
> ContextContainer for (A, B, C, D, E, G) {
    open spec fn propagated(&self, context: Arc<RequestContext>, after: &Self) -> bool {
        &&& self.0.propagated(context, &after.0)
        &&& self.1.propagated(context, &after.1)
        &&& self.2.propagated(context, &after.2)
        &&& self.3.propagated(context, &after.3)
        &&& self.4.propagated(context, &after.4)
        &&& self.5.propagated(context, &after.5)
    }

    fn set_context(&mut self, context: Arc<RequestContext>) {
        self.0.set_context(share(&context));
        self.1.set_context(share(&context));
        self.2.set_context(share(&context));
        self.3.set_context(share(&context));
        self.4.set_context(share(&context));
        self.5.set_context(context);
    }
}

impl<
    A: ContextContainer,
    B: ContextContainer,
    C: ContextContainer,
    D: ContextContainer,
    E: ContextContainer,
    G: ContextContainer,
    H: ContextContainer,
> ContextContainer for (A, B, C, D, E, G, H) {
    open spec fn propagated(&self, context: Arc<RequestContext>, after: &Self) -> bool {
        &&& self.0.propagated(context, &after.0)
        &&& self.1.propagated(context, &after.1)
        &&& self.2.propagated(context, &after.2)
        &&& self.3.propagated(context, &after.3)
        &&& self.4.propagated(context, &after.4)
        &&& self.5.propagated(context, &after.5)
        &&& self.6.propagated(context, &after.6)
    }

    fn set_context(&mut self, context: Arc<RequestContext>) {
        self.0.set_context(share(&context));
        self.1.set_context(share(&context));
        self.2.set_context(share(&context));
        self.3.set_context(share(&context));
        self.4.set_context(share(&context));
        self.5.set_context(share(&context));
        self.6.set_context(context);
    }
}

impl<
    A: ContextContainer,
    B: ContextContainer,
    C: ContextContainer,
    D: ContextContainer,
    E: ContextContainer,
    G: ContextContainer,
    H: ContextContainer,
    I: ContextContainer,
> ContextContainer for (A, B, C, D, E, G, H, I) {
    open spec fn propagated(&self, context: Arc<RequestContext>, after: &Self) -> bool {
        &&& self.0.propagated(context, &after.0)
        &&& self.1.propagated(context, &after.1)
        &&& self.2.propagated(context, &after.2)
        &&& self.3.propagated(context, &after.3)
        &&& self.4.propagated(context, &after.4)
        &&& self.5.propagated(context, &after.5)
        &&& self.6.propagated(context, &after.6)
        &&& self.7.propagated(context, &after.7)
    }

    fn set_context(&mut self, context: Arc<RequestContext>) {
        self.0.set_context(share(&context));
        self.1.set_context(share(&context));
        self.2.set_context(share(&context));
        self.3.set_context(share(&context));
        self.4.set_context(share(&context));
        self.5.set_context(share(&context));
        self.6.set_context(share(&context));
        self.7.set_context(context);
    }
}

impl<
    A: ContextContainer,
    B: ContextContainer,
    C: ContextContainer,
    D: ContextContainer,
    E: ContextContainer,
    G: ContextContainer,
    H: ContextContainer,
    I: ContextContainer,
    J: ContextContainer,
> ContextContainer for (A, B, C, D, E, G, H, I, J) {
    open spec fn propagated(&self, context: Arc<RequestContext>, after: &Self) -> bool {
        &&& self.0.propagated(context, &after.0)
        &&& self.1.propagated(context, &after.1)
        &&& self.2.propagated(context, &after.2)
        &&& self.3.propagated(context, &after.3)
        &&& self.4.propagated(context, &after.4)
        &&& self.5.propagated(context, &after.5)
        &&& self.6.propagated(context, &after.6)
        &&& self.7.propagated(context, &after.7)
        &&& self.8.propagated(context, &after.8)
    }

    fn set_context(&mut self, context: Arc<RequestContext>) {
        self.0.set_context(share(&context));
        self.1.set_context(share(&context));
        self.2.set_context(share(&context));
        self.3.set_context(share(&context));
        self.4.set_context(share(&context));
        self.5.set_context(share(&context));
        self.6.set_context(share(&context));
        self.7.set_context(share(&context));
        self.8.set_context(context);
    }
}

impl<
    A: ContextContainer,
    B: ContextContainer,
    C: ContextContainer,
    D: ContextContainer,
    E: ContextContainer,
    G: ContextContainer,
    H: ContextContainer,
    I: ContextContainer,
    J: ContextContainer,
    K: ContextContainer,
> ContextContainer for (A, B, C, D, E, G, H, I, J, K) {
    open spec fn propagated(&self, context: Arc<RequestContext>, after: &Self) -> bool {
        &&& self.0.propagated(context, &after.0)
        &&& self.1.propagated(context, &after.1)
        &&& self.2.propagated(context, &after.2)
        &&& self.3.propagated(context, &after.3)
        &&& self.4.propagated(context, &after.4)
        &&& self.5.propagated(context, &after.5)
        &&& self.6.propagated(context, &after.6)
        &&& self.7.propagated(context, &after.7)
        &&& self.8.propagated(context, &after.8)
        &&& self.9.propagated(context, &after.9)
    }

    fn set_context(&mut self, context: Arc<RequestContext>) {
        self.0.set_context(share(&context));
        self.1.set_context(share(&context));
        self.2.set_context(share(&context));
        self.3.set_context(share(&context));
        self.4.set_context(share(&context));
        self.5.set_context(share(&context));
        self.6.set_context(share(&context));
        self.7.set_context(share(&context));
        self.8.set_context(share(&context));
        self.9.set_context(context);
    }
}

impl<
    A: ContextContainer,
    B: ContextContainer,
    C: ContextContainer,
    D: ContextContainer,
    E: ContextContainer,
    G: ContextContainer,
    H: ContextContainer,
    I: ContextContainer,
    J: ContextContainer,
    K: ContextContainer,
    L: ContextContainer,
> ContextContainer for (A, B, C, D, E, G, H, I, J, K, L) {
    open spec fn propagated(&self, context: Arc<RequestContext>, after: &Self) -> bool {
        &&& self.0.propagated(context, &after.0)
        &&& self.1.propagated(context, &after.1)
        &&& self.2.propagated(context, &after.2)
        &&& self.3.propagated(context, &after.3)
        &&& self.4.propagated(context, &after.4)
        &&& self.5.propagated(context, &after.5)
        &&& self.6.propagated(context, &after.6)
        &&& self.7.propagated(context, &after.7)
        &&& self.8.propagated(context, &after.8)
        &&& self.9.propagated(context, &after.9)
        &&& self.10.propagated(context, &after.10)
    }

    fn set_context(&mut self, context: Arc<RequestContext>) {
        self.0.set_context(share(&context));
        self.1.set_context(share(&context));
        self.2.set_context(share(&context));
        self.3.set_context(share(&context));
        self.4.set_context(share(&context));
        self.5.set_context(share(&context));
        self.6.set_context(share(&context));
        self.7.set_context(share(&context));
        self.8.set_context(share(&context));
        self.9.set_context(share(&context));
        self.10.set_context(context);
    }
}

impl<
    A: ContextContainer,
    B: ContextContainer,
    C: ContextContainer,
    D: ContextContainer,
    E: ContextContainer,
    G: ContextContainer,
    H: ContextContainer,
    I: ContextContainer,
    J: ContextContainer,
    K: ContextContainer,
    L: ContextContainer,
    M: ContextContainer,
> ContextContainer for (A, B, C, D, E, G, H, I, J, K, L, M) {
    open spec fn propagated(&self, context: Arc<RequestContext>, after: &Self) -> bool {
        &&& self.0.propagated(context, &after.0)
        &&& self.1.propagated(context, &after.1)
        &&& self.2.propagated(context, &after.2)
        &&& self.3.propagated(context, &after.3)
        &&& self.4.propagated(context, &after.4)
        &&& self.5.propagated(context, &after.5)
        &&& self.6.propagated(context, &after.6)
        &&& self.7.propagated(context, &after.7)
        &&& self.8.propagated(context, &after.8)
        &&& self.9.propagated(context, &after.9)
        &&& self.10.propagated(context, &after.10)
        &&& self.11.propagated(context, &after.11)
    }

    fn set_context(&mut self, context: Arc<RequestContext>) {
        self.0.set_context(share(&context));
        self.1.set_context(share(&context));
        self.2.set_context(share(&context));
        self.3.set_context(share(&context));
        self.4.set_context(share(&context));
        self.5.set_context(share(&context));
        self.6.set_context(share(&context));
        self.7.set_context(share(&context));
        self.8.set_context(share(&context));
        self.9.set_context(share(&context));
        self.10.set_context(share(&context));
        self.11.set_context(context);
    }
}

} // verus!
