use vstd::prelude::*;

use crate::campaign::Campaign;

verus! {

/// The subscribers of `subs` but `id`, in their order.
pub open spec fn without(subs: Seq<u64>, id: u64) -> Seq<u64>
    decreases subs.len(),
{
    if subs.len() == 0 {
        subs
    } else if subs.last() == id {
        without(subs.drop_last(), id)
    } else {
        without(subs.drop_last(), id).push(subs.last())
    }
}

/// The current list of campaigns, replaced whole on each publish, and the
/// observers to notify when it is.
pub struct Store {
    snapshot: Vec<Campaign>,
    subscribers: Vec<u64>,
    next_id: u64,
}

impl Store {
    pub closed spec fn snapshot(&self) -> Seq<Campaign> {
        self.snapshot@
    }

    pub closed spec fn subscribers(&self) -> Seq<u64> {
        self.subscribers@
    }

    /// The id that the next subscriber gets.
    pub closed spec fn next_id(&self) -> u64 {
        self.next_id
    }

    /// Every subscriber id was handed out before, and each appears once.
    pub closed spec fn wf(&self) -> bool {
        &&& forall|i: int| 0 <= i < self.subscribers@.len() ==> #[trigger] self.subscribers@[i] < self.next_id
        &&& forall|i: int, j: int|
            0 <= i < j < self.subscribers@.len() ==> #[trigger] self.subscribers@[i]
                < #[trigger] self.subscribers@[j]
    }

    /// A store holding the empty list, with no subscriber.
    pub fn new() -> (r: Store)
        ensures
            r.wf(),
            r.snapshot().len() == 0,
            r.subscribers().len() == 0,
            r.next_id() == 0,
    {
        Store { snapshot: Vec::new(), subscribers: Vec::new(), next_id: 0 }
    }

    /// The current list.
    pub fn get(&self) -> (r: &Vec<Campaign>)
        ensures
            r@ == self.snapshot(),
    {
        &self.snapshot
    }

    /// The ids of the current subscribers, in the order they subscribed.
    pub fn subscriber_ids(&self) -> (r: &Vec<u64>)
        ensures
            r@ == self.subscribers(),
    {
        &self.subscribers
    }

    /// Replaces the list whole and returns the subscribers to notify, in the
    /// order they subscribed.
    pub fn set(&mut self, list: Vec<Campaign>) -> (notify: Vec<u64>)
        requires
            old(self).wf(),
        ensures
            final(self).wf(),
            final(self).snapshot() == list@,
            final(self).subscribers() == old(self).subscribers(),
            final(self).next_id() == old(self).next_id(),
            notify@ == old(self).subscribers(),
    {
        self.snapshot = list;
        self.subscribers.clone()
    }

    /// Adds a subscriber and returns its id; `None` once every id was handed out.
    pub fn subscribe(&mut self) -> (r: Option<u64>)
        requires
            old(self).wf(),
        ensures
            final(self).wf(),
            final(self).snapshot() == old(self).snapshot(),
            old(self).next_id() == u64::MAX ==> r is None && *final(self) == *old(self),
            old(self).next_id() < u64::MAX ==> {
                &&& r == Some(old(self).next_id())
                &&& final(self).subscribers() == old(self).subscribers().push(old(self).next_id())
                &&& final(self).next_id() == old(self).next_id() + 1
            },
    {
        if self.next_id == u64::MAX {
            return None;
        }
        let id = self.next_id;
        self.subscribers.push(id);
        self.next_id = id + 1;
        Some(id)
    }

    /// Removes a subscriber; an id that is not subscribed changes nothing.
    pub fn unsubscribe(&mut self, id: u64)
        requires
            old(self).wf(),
        ensures
            final(self).wf(),
            final(self).snapshot() == old(self).snapshot(),
            final(self).subscribers() == without(old(self).subscribers(), id),
            final(self).next_id() == old(self).next_id(),
    {
        let ghost subs = self.subscribers@;
        let mut kept: Vec<u64> = Vec::new();
        let mut i: usize = 0;
        while i < self.subscribers.len()
            invariant
                self.subscribers@ == subs,
                self.wf(),
                i <= subs.len(),
                kept@ == without(subs.subrange(0, i as int), id),
                forall|k: int| 0 <= k < kept@.len() ==> #[trigger] kept@[k] < self.next_id,
                forall|k: int| #![trigger kept@[k]]
                    0 <= k < kept@.len() ==> exists|m: int| 0 <= m < i && #[trigger] subs[m] == kept@[k],
                forall|k: int, l: int|
                    0 <= k < l < kept@.len() ==> #[trigger] kept@[k] < #[trigger] kept@[l],
            decreases subs.len() - i,
        {
            let s = self.subscribers[i];
            let ghost pre = subs.subrange(0, i as int + 1);
            assert(pre.drop_last() =~= subs.subrange(0, i as int));
            if s != id {
                proof {
                    assert forall|k: int| 0 <= k < kept@.len() implies #[trigger] kept@[k] < s by {
                        let m = choose|m: int| 0 <= m < i && #[trigger] subs[m] == kept@[k];
                    }
                }
                kept.push(s);
                proof {
                    assert forall|k: int| #![trigger kept@[k]] 0 <= k < kept@.len() implies exists|m: int|
                        0 <= m < i + 1 && #[trigger] subs[m] == kept@[k] by {
                        if k < kept@.len() - 1 {
                            let m = choose|m: int| 0 <= m < i && #[trigger] subs[m] == kept@[k];
                        } else {
                            assert(subs[i as int] == kept@[k]);
                        }
                    }
                }
            }
            i = i + 1;
        }
        assert(subs.subrange(0, i as int) =~= subs);
        self.subscribers = kept;
    }
}

} // verus!
