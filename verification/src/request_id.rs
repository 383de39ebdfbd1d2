//! Allocation of request ids.

use vstd::prelude::*;

verus! {

/// The largest value the counter can hold; it is never handed out as an id.
pub const ID_LIMIT: u32 = 0xffff_ffff;

/// Hands out request ids in increasing order, starting again at zero once the
/// counter has reached `ID_LIMIT`.
pub struct RequestIdCounter {
    next: u32,
}

impl View for RequestIdCounter {
    type V = u32;

    /// The value stored in the counter.
    closed spec fn view(&self) -> u32 {
        self.next
    }
}

/// The id that a counter holding `stored` hands out next.
pub open spec fn issued_id(stored: u32) -> u32 {
    if stored == ID_LIMIT { 0 } else { stored }
}

impl RequestIdCounter {
    /// A counter whose first id is zero.
    pub fn new() -> (counter: Self)
        ensures
            counter@ == 0,
    {
        RequestIdCounter { next: 0 }
    }

    /// A counter that holds `stored`: its first id is `issued_id(stored)`.
    pub fn starting_at(stored: u32) -> (counter: Self)
        ensures
            counter@ == stored,
    {
        RequestIdCounter { next: stored }
    }

    /// Returns the next id and advances the counter by one.
    pub fn new_request_id(&mut self) -> (id: u32)
        ensures
            id == issued_id(old(self)@),
            id < ID_LIMIT,
            final(self)@ == id + 1,
    {
        if self.next == ID_LIMIT {
            self.next = 0;
        }
        let id: u32 = self.next;
        self.next = id + 1;
        id
    }
}

} // verus!
