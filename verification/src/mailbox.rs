use vstd::prelude::*;

verus! {

/// A single-slot, overwrite-on-write, consume-on-read channel carrying the
/// most recent pending `(width, height)` resize request from the host to the
/// render loop.
///
/// The host's resize notification posts into the slot; the render loop
/// drains it by polling once per frame. A write overwrites any unconsumed
/// value (latest wins), so at most one request is ever held, and a read
/// clears the slot (at-most-once delivery per event).
pub struct ResizeMailbox {
    pending: Option<(u32, u32)>,
}

impl View for ResizeMailbox {
    type V = Option<(u32, u32)>;

    /// The pending request, if any: the mailbox's whole abstract state.
    closed spec fn view(&self) -> Option<(u32, u32)> {
        self.pending
    }
}

impl ResizeMailbox {
    /// A mailbox with nothing pending.
    pub fn empty() -> (m: Self)
        ensures
            m@ is None,
    {
        ResizeMailbox { pending: None }
    }

    /// Post a resize request, overwriting any unconsumed one: only the most
    /// recent request posted between two polls survives.
    pub fn post(&mut self, width: u32, height: u32)
        ensures
            final(self)@ == Some((width, height)),
    {
        self.pending = Some((width, height));
    }

    /// Take the pending request, leaving the mailbox empty; `None` when
    /// nothing is pending.
    pub fn try_recv(&mut self) -> (r: Option<(u32, u32)>)
        ensures
            r == old(self)@,
            final(self)@ is None,
    {
        let r = self.pending;
        self.pending = None;
        r
    }
}

} // verus!
