use vstd::prelude::*;

use crate::address::{address_hex, Address};
use crate::amount::{word_base, Amount};

verus! {

/// A record as the ledger's `campaigns(index)` call returns it.
#[derive(Clone, Debug, PartialEq, Eq)]
pub struct RawRecord {
    pub creator: Address,
    pub title: String,
    pub description: String,
    pub goal: Amount,
    pub raised: Amount,
    pub completed: bool,
}

/// A campaign as the application shows it. `id` is the ledger index at which it
/// was read; the amounts are the ledger integers truncated to 64 bits.
#[derive(Clone, Debug, PartialEq, Eq)]
pub struct Campaign {
    pub id: u128,
    pub creator: String,
    pub title: String,
    pub description: String,
    pub goal: u64,
    pub funds_raised: u64,
    pub completed: bool,
}

pub struct CampaignView {
    pub id: int,
    pub creator: Seq<char>,
    pub title: Seq<char>,
    pub description: Seq<char>,
    pub goal: int,
    pub funds_raised: int,
    pub completed: bool,
}

impl View for Campaign {
    type V = CampaignView;

    open spec fn view(&self) -> CampaignView {
        CampaignView {
            id: self.id as int,
            creator: self.creator@,
            title: self.title@,
            description: self.description@,
            goal: self.goal as int,
            funds_raised: self.funds_raised as int,
            completed: self.completed,
        }
    }
}

/// The campaign that the record read at `index` decodes to.
pub open spec fn assembled(index: int, rec: RawRecord) -> CampaignView {
    CampaignView {
        id: index,
        creator: address_hex(rec.creator.bytes@),
        title: rec.title@,
        description: rec.description@,
        goal: rec.goal.value() % word_base(),
        funds_raised: rec.raised.value() % word_base(),
        completed: rec.completed,
    }
}

impl Campaign {
    /// Decodes the record read at `index` into a campaign.
    pub fn from_record(index: u64, rec: RawRecord) -> (r: Campaign)
        ensures
            r@ == assembled(index as int, rec),
    {
        let creator = rec.creator.to_hex();
        let goal = rec.goal.low_u64();
        let funds_raised = rec.raised.low_u64();
        Campaign {
            id: index as u128,
            creator,
            title: rec.title,
            description: rec.description,
            goal,
            funds_raised,
            completed: rec.completed,
        }
    }
}

/// The list that a sweep publishes, given what each index's read gave (`None`
/// where it failed): one campaign per successful read, in index order.
pub open spec fn published(slots: Seq<Option<RawRecord>>) -> Seq<CampaignView>
    decreases slots.len(),
{
    if slots.len() == 0 {
        Seq::empty()
    } else {
        let prev = published(slots.drop_last());
        match slots.last() {
            Some(rec) => prev.push(assembled(slots.len() - 1, rec)),
            None => prev,
        }
    }
}

/// How many reads of a sweep failed.
pub open spec fn failures(slots: Seq<Option<RawRecord>>) -> nat
    decreases slots.len(),
{
    if slots.len() == 0 {
        0
    } else {
        failures(slots.drop_last()) + if slots.last() is None { 1nat } else { 0nat }
    }
}

pub open spec fn views(list: Seq<Campaign>) -> Seq<CampaignView> {
    list.map_values(|c: Campaign| c@)
}

/// Gathers the campaigns of a sweep from the outcome of each index's read, in
/// index order, leaving out the indices whose read failed.
pub fn compact_slots(slots: Vec<Option<RawRecord>>) -> (r: Vec<Campaign>)
    requires
        slots@.len() <= u64::MAX,
    ensures
        views(r@) == published(slots@),
{
    let ghost all = slots@;
    let total: usize = slots.len();
    let mut out: Vec<Campaign> = Vec::new();
    let mut i: usize = 0;
    let mut rest = slots;
    while rest.len() > 0
        invariant
            i + rest@.len() == all.len(),
            i <= all.len() == total,
            all.len() <= u64::MAX,
            rest@ == all.subrange(i as int, all.len() as int),
            views(out@) == published(all.subrange(0, i as int)),
        decreases rest@.len(),
    {
        let slot = rest.remove(0);
        let ghost prefix = all.subrange(0, i as int + 1);
        assert(prefix.drop_last() =~= all.subrange(0, i as int));
        assert(prefix.last() == slot);
        match slot {
            Some(rec) => {
                let c = Campaign::from_record(i as u64, rec);
                out.push(c);
            },
            None => {},
        }
        assert(views(out@) =~= published(prefix));
        i = i + 1;
    }
    assert(all.subrange(0, i as int) =~= all);
    out
}

/// What a sweep publishes: one campaign per successful read, with the index it
/// was read at as its id, in strictly increasing index order; no index whose
/// read failed appears, and every index whose read succeeded does.
pub proof fn lemma_published(slots: Seq<Option<RawRecord>>)
    ensures
        published(slots).len() + failures(slots) == slots.len(),
        forall|k: int|
            0 <= k < published(slots).len() ==> {
                let id = #[trigger] published(slots)[k].id;
                &&& 0 <= id < slots.len()
                &&& slots[id] is Some
                &&& published(slots)[k] == assembled(id, slots[id]->Some_0)
            },
        forall|j: int, k: int|
            0 <= j < k < published(slots).len() ==> #[trigger] published(slots)[j].id
                < #[trigger] published(slots)[k].id,
        forall|i: int|
            0 <= i < slots.len() && #[trigger] slots[i] is Some ==> exists|k: int|
                0 <= k < published(slots).len() && #[trigger] published(slots)[k].id == i,
    decreases slots.len(),
{
    if slots.len() > 0 {
        let prev = slots.drop_last();
        lemma_published(prev);
        let p = published(slots);
        let q = published(prev);
        assert forall|i: int| 0 <= i < slots.len() && #[trigger] slots[i] is Some implies exists|
            k: int,
        | 0 <= k < p.len() && #[trigger] p[k].id == i by {
            if i < slots.len() - 1 {
                assert(prev[i] == slots[i]);
                let k = choose|k: int| 0 <= k < q.len() && #[trigger] q[k].id == i;
                assert(p[k] == q[k]);
            } else {
                assert(p[q.len() as int].id == i);
            }
        }
    }
}

/// A record that the ledger no longer holds at an index when a sweep reads it
/// (its read fails, or the index is past the count) is absent from the list
/// that sweep publishes, whatever an earlier sweep showed.
pub proof fn lemma_removed_record_absent(slots: Seq<Option<RawRecord>>, index: int)
    requires
        index >= slots.len() || (0 <= index && slots[index] is None),
    ensures
        forall|k: int| 0 <= k < published(slots).len() ==> #[trigger] published(slots)[k].id != index,
{
    lemma_published(slots);
}

} // verus!
