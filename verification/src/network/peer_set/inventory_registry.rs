//! Which peer has told us of which block or transaction, of late.

use vstd::prelude::*;

use crate::network::meta_addr::PeerAddress;
use crate::network::protocol::inv::InventoryHash;

verus! {

/// One notice: the peer at the address has the item.
pub type Advertisement = (InventoryHash, PeerAddress);

/// The peers of `notices` that have the item `hash`, in the order of their notices.
pub open spec fn advertisers_in(notices: Seq<Advertisement>, hash: InventoryHash) -> Seq<PeerAddress>
    decreases notices.len(),
{
    if notices.len() == 0 {
        Seq::empty()
    } else {
        let before = advertisers_in(notices.drop_last(), hash);
        if notices.last().0 == hash {
            before.push(notices.last().1)
        } else {
            before
        }
    }
}

/// The notices of peers about what they have, over a window of time that
/// slides: the notices of the current span and those of the span before.
pub struct InventoryRegistry {
    current: Vec<Advertisement>,
    prev: Vec<Advertisement>,
}

impl InventoryRegistry {
    /// The notices of the current span.
    pub closed spec fn current(&self) -> Seq<Advertisement> {
        self.current@
    }

    /// The notices of the span before.
    pub closed spec fn previous(&self) -> Seq<Advertisement> {
        self.prev@
    }

    /// The peers that have told us of `hash` within the window: those of the
    /// span before first, then those of the current span.
    pub open spec fn advertisers(&self, hash: InventoryHash) -> Seq<PeerAddress> {
        advertisers_in(self.previous(), hash) + advertisers_in(self.current(), hash)
    }

    /// A registry without notices.
    pub fn new() -> (registry: Self)
        ensures
            registry.current() == Seq::<Advertisement>::empty(),
            registry.previous() == Seq::<Advertisement>::empty(),
    {
        InventoryRegistry { current: Vec::new(), prev: Vec::new() }
    }

    /// Notes that the peer at `addr` has the item `hash`.
    pub fn register(&mut self, hash: InventoryHash, addr: PeerAddress)
        ensures
            final(self).current() == old(self).current().push((hash, addr)),
            final(self).previous() == old(self).previous(),
    {
        self.current.push((hash, addr));
    }

    /// Moves the window on by one span: the notices of the current span
    /// become those of the span before, whose notices are forgotten.
    pub fn rotate(&mut self)
        ensures
            final(self).previous() == old(self).current(),
            final(self).current() == Seq::<Advertisement>::empty(),
    {
        let mut fresh: Vec<Advertisement> = Vec::new();
        std::mem::swap(&mut fresh, &mut self.current);
        self.prev = fresh;
    }

    /// The peers that have told us of `hash` within the window.
    pub fn peers(&self, hash: &InventoryHash) -> (found: Vec<PeerAddress>)
        ensures
            found@ == self.advertisers(*hash),
    {
        let mut found: Vec<PeerAddress> = Vec::new();
        Self::collect(&self.prev, hash, &mut found);
        Self::collect(&self.current, hash, &mut found);
        found
    }

    fn collect(notices: &Vec<Advertisement>, hash: &InventoryHash, found: &mut Vec<PeerAddress>)
        ensures
            final(found)@ == old(found)@ + advertisers_in(notices@, *hash),
    {
        let mut i: usize = 0;
        proof {
            assert(old(found)@ + advertisers_in(notices@.take(0), *hash) =~= old(found)@);
        }
        while i < notices.len()
            invariant
                i <= notices.len(),
                found@ == old(found)@ + advertisers_in(notices@.take(i as int), *hash),
            decreases notices.len() - i,
        {
            proof {
                let next = notices@.take(i + 1);
                assert(next.drop_last() =~= notices@.take(i as int));
                assert(next.last() == notices@[i as int]);
            }
            if notices[i].0 == *hash {
                found.push(notices[i].1);
                proof {
                    assert(found@ =~= old(found)@ + advertisers_in(notices@.take(i + 1), *hash));
                }
            }
            i += 1;
        }
        proof {
            assert(notices@.take(notices@.len() as int) =~= notices@);
        }
    }
}

} // verus!
