//! The count of the connections that are open, against the limit on them.

use vstd::prelude::*;

verus! {

/// Counts the connections that are open, so that no more than a limit are.
#[derive(Clone, Copy, Debug, PartialEq, Eq, Structural)]
pub struct ActiveConnectionCounter {
    /// The number of open connections.
    pub count: usize,
    /// The number of connections that may be open at once.
    pub limit: usize,
}

impl ActiveConnectionCounter {
    /// A counter for at most `limit` connections, none of them open yet.
    pub fn new_counter_with(limit: usize) -> (counter: Self)
        ensures
            counter.count == 0,
            counter.limit == limit,
    {
        ActiveConnectionCounter { count: 0, limit }
    }

    /// Counts one more connection if the limit allows it, and says whether it did.
    pub fn track_connection(&mut self) -> (counted: bool)
        ensures
            counted == (old(self).count < old(self).limit),
            final(self).limit == old(self).limit,
            final(self).count == if counted {
                old(self).count + 1
            } else {
                old(self).count as int
            },
    {
        if self.count < self.limit {
            self.count += 1;
            true
        } else {
            false
        }
    }

    /// Counts one connection less, when a connection has closed.
    pub fn release_connection(&mut self)
        ensures
            final(self).limit == old(self).limit,
            final(self).count == if old(self).count > 0 {
                old(self).count - 1
            } else {
                0
            },
    {
        if self.count > 0 {
            self.count -= 1;
        }
    }
}

} // verus!
