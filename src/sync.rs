use vstd::prelude::*;

use crate::campaign::{published, views, Campaign, RawRecord};
use crate::store::Store;

verus! {

/// What a sweep waits for.
#[derive(Clone, Copy, Debug, PartialEq, Eq, Structural)]
pub enum Phase {
    /// The record count.
    Count,
    /// The record at the next index.
    Record,
    /// Nothing: the sweep has published, or stopped without publishing.
    Done,
}

/// The outcome of a ledger read, handed to a sweep.
pub enum FetchEvent {
    CountRead(u64),
    CountFailed,
    RecordRead(RawRecord),
    RecordFailed,
}

/// What the caller is to do next for a sweep.
#[derive(Clone, Copy, Debug, PartialEq, Eq, Structural)]
pub enum FetchAction {
    /// Read the record count.
    ReadCount,
    /// Read the record at this index.
    ReadRecord(u64),
    /// The sweep has replaced the store's list; what is left is to notify the
    /// store's subscribers.
    Published,
    /// The sweep ended without touching the store.
    Stopped,
}

/// One sweep over the ledger: read the count, then each index in turn, then
/// publish what was read. A failed count read ends the sweep and leaves the
/// store alone; a failed record read leaves that index out.
pub struct FetchSequence {
    phase: Phase,
    count: u64,
    next: u64,
    cancelled: bool,
    fetched: Vec<Campaign>,
    slots: Ghost<Seq<Option<RawRecord>>>,
}

impl FetchSequence {
    pub closed spec fn phase(&self) -> Phase {
        self.phase
    }

    /// The record count that the sweep read.
    pub closed spec fn count(&self) -> u64 {
        self.count
    }

    /// The outcome of each record read so far, by index.
    pub closed spec fn slots(&self) -> Seq<Option<RawRecord>> {
        self.slots@
    }

    pub closed spec fn is_cancelled(&self) -> bool {
        self.cancelled
    }

    pub closed spec fn wf(&self) -> bool {
        &&& self.phase != Phase::Done ==> views(self.fetched@) == published(self.slots@)
        &&& self.slots@.len() == self.next as int
        &&& self.next <= self.count
        &&& self.phase == Phase::Record ==> self.next < self.count
        &&& self.phase == Phase::Count ==> self.next == 0
    }

    /// The action that the sweep waits on in its present state.
    pub open spec fn awaited(&self) -> FetchAction {
        match self.phase() {
            Phase::Count => FetchAction::ReadCount,
            Phase::Record => FetchAction::ReadRecord(self.slots().len() as u64),
            Phase::Done => FetchAction::Stopped,
        }
    }

    /// A sweep that starts by reading the record count.
    pub fn new() -> (r: FetchSequence)
        ensures
            r.wf(),
            r.phase() == Phase::Count,
            r.slots().len() == 0,
            !r.is_cancelled(),
            r.awaited() == FetchAction::ReadCount,
    {
        let r = FetchSequence {
            phase: Phase::Count,
            count: 0,
            next: 0,
            cancelled: false,
            fetched: Vec::new(),
            slots: Ghost(Seq::empty()),
        };
        assert(views(r.fetched@) =~= published(r.slots@));
        r
    }

    /// Marks the sweep cancelled: its next step stops it, and it never publishes.
    pub fn cancel(&mut self)
        requires
            old(self).wf(),
        ensures
            final(self).wf(),
            final(self).is_cancelled(),
            final(self).phase() == old(self).phase(),
            final(self).slots() == old(self).slots(),
            final(self).count() == old(self).count(),
    {
        self.cancelled = true;
    }

    fn finish(&mut self, store: &mut Store) -> (r: FetchAction)
        requires
            views(old(self).fetched@) == published(old(self).slots@),
            old(self).slots@.len() == old(self).next as int,
            old(self).next == old(self).count,
            old(store).wf(),
        ensures
            final(self).wf(),
            final(self).phase() == Phase::Done,
            final(self).slots() == old(self).slots(),
            final(self).count() == old(self).count(),
            final(self).is_cancelled() == old(self).is_cancelled(),
            final(store).wf(),
            views(final(store).snapshot()) == published(old(self).slots()),
            final(store).subscribers() == old(store).subscribers(),
            final(store).next_id() == old(store).next_id(),
            r == FetchAction::Published,
    {
        let mut list: Vec<Campaign> = Vec::new();
        core::mem::swap(&mut list, &mut self.fetched);
        self.phase = Phase::Done;
        let _notify = store.set(list);
        FetchAction::Published
    }

    /// Takes the outcome of the awaited read and returns what to do next. Where
    /// the sweep has read every index it publishes what it read to `store`, in
    /// index order, and only then. An event that the sweep does not wait for
    /// changes nothing.
    pub fn step(&mut self, event: FetchEvent, store: &mut Store) -> (r: FetchAction)
        requires
            old(self).wf(),
            old(store).wf(),
        ensures
            final(self).wf(),
            final(store).wf(),
            final(store).subscribers() == old(store).subscribers(),
            final(store).next_id() == old(store).next_id(),
            final(self).is_cancelled() == old(self).is_cancelled(),
            r == FetchAction::Published ==> final(self).phase() == Phase::Done && old(self).phase()
                != Phase::Done && !old(self).is_cancelled(),
            r == FetchAction::Published ==> views(final(store).snapshot()) == published(
                final(self).slots(),
            ),
            r != FetchAction::Published ==> *final(store) == *old(store),
            r == final(self).awaited() || r == FetchAction::Published,
            old(self).is_cancelled() ==> final(self).phase() == Phase::Done && r
                == FetchAction::Stopped,
            !old(self).is_cancelled() ==> match (old(self).phase(), event) {
                (Phase::Count, FetchEvent::CountRead(n)) => {
                    &&& final(self).count() == n
                    &&& final(self).slots().len() == 0
                    &&& r == if n == 0 {
                        FetchAction::Published
                    } else {
                        FetchAction::ReadRecord(0)
                    }
                },
                (Phase::Count, FetchEvent::CountFailed) => {
                    &&& final(self).phase() == Phase::Done
                    &&& r == FetchAction::Stopped
                },
                (Phase::Record, FetchEvent::RecordRead(rec)) => {
                    &&& final(self).count() == old(self).count()
                    &&& final(self).slots() == old(self).slots().push(Some(rec))
                    &&& r == if final(self).slots().len() == final(self).count() {
                        FetchAction::Published
                    } else {
                        FetchAction::ReadRecord(final(self).slots().len() as u64)
                    }
                },
                (Phase::Record, FetchEvent::RecordFailed) => {
                    &&& final(self).count() == old(self).count()
                    &&& final(self).slots() == old(self).slots().push(None)
                    &&& r == if final(self).slots().len() == final(self).count() {
                        FetchAction::Published
                    } else {
                        FetchAction::ReadRecord(final(self).slots().len() as u64)
                    }
                },
                _ => {
                    &&& final(self).phase() == old(self).phase()
                    &&& final(self).count() == old(self).count()
                    &&& final(self).slots() == old(self).slots()
                    &&& r == old(self).awaited()
                },
            },
            final(self).phase() == Phase::Record ==> r == FetchAction::ReadRecord(
                final(self).slots().len() as u64,
            ),
    {
        if self.cancelled {
            self.phase = Phase::Done;
            return FetchAction::Stopped;
        }
        match (self.phase, event) {
            (Phase::Count, FetchEvent::CountRead(n)) => {
                self.count = n;
                if n == 0 {
                    self.finish(store)
                } else {
                    self.phase = Phase::Record;
                    FetchAction::ReadRecord(0)
                }
            },
            (Phase::Count, FetchEvent::CountFailed) => {
                self.phase = Phase::Done;
                FetchAction::Stopped
            },
            (Phase::Record, FetchEvent::RecordRead(rec)) => {
                let ghost prev = self.slots@;
                proof {
                    self.slots@ = prev.push(Some(rec));
                    assert(self.slots@.drop_last() == prev);
                }
                let c = Campaign::from_record(self.next, rec);
                self.fetched.push(c);
                assert(views(self.fetched@) =~= published(self.slots@));
                self.next = self.next + 1;
                if self.next == self.count {
                    self.finish(store)
                } else {
                    FetchAction::ReadRecord(self.next)
                }
            },
            (Phase::Record, FetchEvent::RecordFailed) => {
                let ghost prev = self.slots@;
                proof {
                    self.slots@ = prev.push(None);
                    assert(self.slots@.drop_last() == prev);
                }
                assert(views(self.fetched@) =~= published(self.slots@));
                self.next = self.next + 1;
                if self.next == self.count {
                    self.finish(store)
                } else {
                    FetchAction::ReadRecord(self.next)
                }
            },
            _ => {
                match self.phase {
                    Phase::Count => FetchAction::ReadCount,
                    Phase::Record => FetchAction::ReadRecord(self.next),
                    Phase::Done => FetchAction::Stopped,
                }
            },
        }
    }
}

} // verus!
