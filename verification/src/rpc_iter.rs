//! The generic cursor/buffer engine behind every paginated listing: a
//! mutable request cursor, a batch of already-produced items, the
//! server-reported total, and the terminal `done` flag.
//!
//! Items are kept in reverse delivery order and popped from the end, so the
//! caller receives them in the order the server listed them while every
//! buffer operation stays O(1).

use vstd::prelude::*;

verus! {

/// Buffered state of one paginated listing, parameterized by the request
/// type `R` and the produced item type `T`.
#[derive(Clone, Debug)]
pub struct RpcIterBuffer<R, T> {
    /// Already-produced items, in reverse server order; popped from the end.
    pub batch: Vec<T>,
    /// Terminal once set: no further page will be fetched.
    pub done: bool,
    /// The cursor the next page request will carry.
    pub request: R,
    /// Server-reported total item count, once known.
    pub total: Option<usize>,
}

impl<R, T> RpcIterBuffer<R, T> {
    /// A fresh buffer around the given initial request: nothing buffered,
    /// no total known, not done.
    pub fn new(request: R) -> (r: Self)
        ensures
            r.batch@ == Seq::<T>::empty(),
            !r.done,
            r.request == request,
            r.total is None,
    {
        RpcIterBuffer { batch: Vec::new(), done: false, request, total: None }
    }

    /// True iff a page fetch is due: nothing buffered and not yet done.
    pub fn should_fill(&self) -> (r: bool)
        ensures
            r == (!self.done && self.batch@.len() == 0),
    {
        !self.done && self.batch.len() == 0
    }

    /// Appends one produced item; the cursor, total and done flag are
    /// untouched.
    pub fn push(&mut self, item: T)
        ensures
            final(self).batch@ == old(self).batch@.push(item),
            final(self).done == old(self).done,
            final(self).request == old(self).request,
            final(self).total == old(self).total,
    {
        self.batch.push(item);
    }

    /// Removes and returns the newest buffered item — the next one in server
    /// delivery order — or none if the buffer is empty.
    pub fn pop(&mut self) -> (r: Option<T>)
        ensures
            old(self).batch@.len() == 0 ==> r is None && final(self).batch@ == old(self).batch@,
            old(self).batch@.len() > 0 ==> r == Some(old(self).batch@.last())
                && final(self).batch@ == old(self).batch@.drop_last(),
            final(self).done == old(self).done,
            final(self).request == old(self).request,
            final(self).total == old(self).total,
    {
        self.batch.pop()
    }
}

} // verus!
