use vstd::prelude::*;

verus! {

/// What a transfer-call in flight records: sender, receiver and amount.
pub type PendingView = (Seq<char>, Seq<char>, u128);

/// A transfer-call whose resolution has not run yet.
pub struct PendingTransfer {
    pub id: u64,
    pub sender_id: String,
    pub receiver_id: String,
    pub amount: u128,
}

impl PendingTransfer {
    pub open spec fn record(&self) -> PendingView {
        (self.sender_id@, self.receiver_id@, self.amount)
    }
}

/// The transfer-calls awaiting resolution, keyed by an identifier that is
/// never handed out twice.
pub struct PendingTransfers {
    records: Vec<PendingTransfer>,
    next_id: u64,
    entries: Ghost<Map<u64, PendingView>>,
}

impl View for PendingTransfers {
    type V = Map<u64, PendingView>;

    closed spec fn view(&self) -> Map<u64, PendingView> {
        self.entries@
    }
}

impl PendingTransfers {
    /// Identifiers at or above this bound have never been handed out.
    pub closed spec fn next_id(&self) -> u64 {
        self.next_id
    }

    pub closed spec fn wf(&self) -> bool {
        &&& forall|i: int, j: int|
            0 <= i < self.records@.len() && 0 <= j < self.records@.len() && i != j
                ==> #[trigger] self.records@[i].id != #[trigger] self.records@[j].id
        &&& forall|i: int|
            0 <= i < self.records@.len() ==> {
                &&& self.entries@.contains_key(#[trigger] self.records@[i].id)
                &&& self.entries@[self.records@[i].id] == self.records@[i].record()
            }
        &&& forall|k: u64|
            #[trigger] self.entries@.contains_key(k) ==> exists|i: int|
                0 <= i < self.records@.len() && self.records@[i].id == k
        &&& forall|k: u64| #[trigger] self.entries@.contains_key(k) ==> k < self.next_id
        &&& forall|k: u64|
            #[trigger] self.entries@.contains_key(k) ==> self.entries@[k].0 != self.entries@[k].1
    }

    /// The two parties of a recorded transfer-call differ.
    pub proof fn lemma_parties_differ(&self, id: u64)
        requires
            self.wf(),
            self@.contains_key(id),
        ensures
            self@[id].0 != self@[id].1,
    {
    }

    pub fn new() -> (r: PendingTransfers)
        ensures
            r.wf(),
            r@ == Map::<u64, PendingView>::empty(),
            r.next_id() == 0,
    {
        PendingTransfers { records: Vec::new(), next_id: 0, entries: Ghost(Map::empty()) }
    }

    /// Whether every identifier has been handed out.
    pub fn exhausted(&self) -> (r: bool)
        ensures
            r == (self.next_id() == u64::MAX),
    {
        self.next_id == u64::MAX
    }

    /// Records a new transfer-call under a fresh identifier; `None` once
    /// every identifier has been used.
    pub fn open(&mut self, sender_id: String, receiver_id: String, amount: u128) -> (r: Option<u64>)
        requires
            old(self).wf(),
            sender_id@ != receiver_id@,
        ensures
            final(self).wf(),
            old(self).next_id() == u64::MAX ==> r is None && *final(self) == *old(self),
            old(self).next_id() < u64::MAX ==> r is Some,
            r matches Some(id) ==> {
                &&& !old(self)@.contains_key(id)
                &&& final(self)@ == old(self)@.insert(id, (sender_id@, receiver_id@, amount))
            },
    {
        if self.next_id == u64::MAX {
            return None;
        }
        let id = self.next_id;
        let ghost rec = (sender_id@, receiver_id@, amount);
        let ghost olds = self.records@;
        self.records.push(PendingTransfer { id, sender_id, receiver_id, amount });
        self.next_id = id + 1;
        self.entries = Ghost(self.entries@.insert(id, rec));
        assert forall|k: u64| #[trigger] self.entries@.contains_key(k) implies exists|i: int|
            0 <= i < self.records@.len() && self.records@[i].id == k by {
            if k != id {
                let i = choose|i: int| 0 <= i < olds.len() && olds[i].id == k;
                assert(self.records@[i] == olds[i]);
            } else {
                assert(self.records@[olds.len() as int].id == id);
            }
        }
        assert forall|i: int|
            0 <= i < self.records@.len() implies {
                &&& self.entries@.contains_key(#[trigger] self.records@[i].id)
                &&& self.entries@[self.records@[i].id] == self.records@[i].record()
            } by {
            if i < olds.len() {
                assert(self.records@[i] == olds[i]);
                assert(old(self).entries@.contains_key(olds[i].id));
            }
        }
        Some(id)
    }

    /// Removes and returns the transfer-call recorded under `id`; `None`,
    /// with nothing changed, when there is none.
    pub fn take(&mut self, id: u64) -> (r: Option<PendingTransfer>)
        requires
            old(self).wf(),
        ensures
            final(self).wf(),
            final(self).next_id() == old(self).next_id(),
            !old(self)@.contains_key(id) ==> r is None && *final(self) == *old(self),
            old(self)@.contains_key(id) ==> (r matches Some(t) && t.id == id && t.record()
                == old(self)@[id] && final(self)@ == old(self)@.remove(id)),
            r matches Some(t) ==> t.sender_id@ != t.receiver_id@,
    {
        let mut i: usize = 0;
        while i < self.records.len()
            invariant
                self.wf(),
                *self == *old(self),
                i <= self.records@.len(),
                forall|j: int| 0 <= j < i ==> self.records@[j].id != id,
            decreases self.records@.len() - i,
        {
            if self.records[i].id == id {
                let ghost oldr = self.records@;
                let t = self.records.remove(i);
                self.entries = Ghost(self.entries@.remove(id));
                assert forall|j: int| 0 <= j < self.records@.len() implies {
                    &&& self.entries@.contains_key(#[trigger] self.records@[j].id)
                    &&& self.entries@[self.records@[j].id] == self.records@[j].record()
                } by {
                    let oj = if j < i { j } else { j + 1 };
                    assert(self.records@[j] == oldr[oj]);
                    assert(oj != i);
                }
                assert forall|k: u64| #[trigger] self.entries@.contains_key(k) implies exists|j: int|
                    0 <= j < self.records@.len() && self.records@[j].id == k by {
                    let oj = choose|oj: int| 0 <= oj < oldr.len() && oldr[oj].id == k;
                    assert(oj != i);
                    let j = if oj < i { oj } else { oj - 1 };
                    assert(self.records@[j] == oldr[oj]);
                }
                assert forall|a: int, b: int|
                    0 <= a < self.records@.len() && 0 <= b < self.records@.len() && a != b
                        implies #[trigger] self.records@[a].id != #[trigger] self.records@[b].id by {
                    let oa = if a < i { a } else { a + 1 };
                    let ob = if b < i { b } else { b + 1 };
                    assert(self.records@[a] == oldr[oa]);
                    assert(self.records@[b] == oldr[ob]);
                }
                return Some(t);
            }
            i = i + 1;
        }
        assert(!self.entries@.contains_key(id));
        None
    }
}

} // verus!
