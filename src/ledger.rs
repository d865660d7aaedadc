use vstd::prelude::*;

verus! {

/// Sum of a sequence of balances, taken from the front.
pub open spec fn sum_of(s: Seq<u128>) -> int
    decreases s.len(),
{
    if s.len() == 0 {
        0
    } else {
        sum_of(s.drop_last()) + s.last()
    }
}

proof fn lemma_sum_nonneg(s: Seq<u128>)
    ensures
        sum_of(s) >= 0,
    decreases s.len(),
{
    if s.len() > 0 {
        lemma_sum_nonneg(s.drop_last());
    }
}

proof fn lemma_sum_update(s: Seq<u128>, i: int, v: u128)
    requires
        0 <= i < s.len(),
    ensures
        sum_of(s.update(i, v)) == sum_of(s) - s[i] + v,
    decreases s.len(),
{
    let t = s.update(i, v);
    if i == s.len() - 1 {
        assert(t.drop_last() =~= s.drop_last());
    } else {
        assert(t.drop_last() =~= s.drop_last().update(i, v));
        lemma_sum_update(s.drop_last(), i, v);
    }
}

proof fn lemma_sum_remove(s: Seq<u128>, i: int)
    requires
        0 <= i < s.len(),
    ensures
        sum_of(s.remove(i)) == sum_of(s) - s[i],
    decreases s.len(),
{
    let t = s.remove(i);
    if i == s.len() - 1 {
        assert(t =~= s.drop_last());
    } else {
        assert(t.drop_last() =~= s.drop_last().remove(i));
        assert(t.last() == s.last());
        lemma_sum_remove(s.drop_last(), i);
    }
}

proof fn lemma_sum_push(s: Seq<u128>, v: u128)
    ensures
        sum_of(s.push(v)) == sum_of(s) + v,
{
    assert(s.push(v).drop_last() =~= s);
}

proof fn lemma_sum_ge_one(s: Seq<u128>, i: int)
    requires
        0 <= i < s.len(),
    ensures
        s[i] <= sum_of(s),
{
    lemma_sum_remove(s, i);
    lemma_sum_nonneg(s.remove(i));
}

proof fn lemma_sum_ge_two(s: Seq<u128>, i: int, j: int)
    requires
        0 <= i < s.len(),
        0 <= j < s.len(),
        i != j,
    ensures
        s[i] + s[j] <= sum_of(s),
{
    lemma_sum_remove(s, i);
    let t = s.remove(i);
    let k = if j < i { j } else { j - 1 };
    assert(t[k] == s[j]);
    lemma_sum_ge_one(t, k);
}

/// The balances of the registered accounts.
///
/// An account is registered exactly when it has an entry; an entry may hold
/// zero. The view maps each registered account to its balance.
pub struct Ledger {
    ids: Vec<String>,
    balances: Vec<u128>,
    entries: Ghost<Map<Seq<char>, u128>>,
}

impl View for Ledger {
    type V = Map<Seq<char>, u128>;

    closed spec fn view(&self) -> Map<Seq<char>, u128> {
        self.entries@
    }
}

impl Ledger {
    /// Sum of all balances held in the ledger.
    pub closed spec fn total(&self) -> int {
        sum_of(self.balances@)
    }

    pub closed spec fn wf(&self) -> bool {
        &&& self.ids@.len() == self.balances@.len()
        &&& forall|i: int, j: int|
            0 <= i < self.ids@.len() && 0 <= j < self.ids@.len() && i != j
                ==> #[trigger] self.ids@[i]@ != #[trigger] self.ids@[j]@
        &&& forall|i: int|
            0 <= i < self.ids@.len() ==> {
                &&& self.entries@.contains_key(#[trigger] self.ids@[i]@)
                &&& self.entries@[self.ids@[i]@] == self.balances@[i]
            }
        &&& forall|k: Seq<char>|
            #[trigger] self.entries@.contains_key(k) ==> exists|i: int|
                0 <= i < self.ids@.len() && self.ids@[i]@ == k
    }

    /// Every balance is at most the total.
    pub proof fn lemma_entry_le_total(&self, k: Seq<char>)
        requires
            self.wf(),
            self@.contains_key(k),
        ensures
            self@[k] <= self.total(),
    {
        let i = choose|i: int| 0 <= i < self.ids@.len() && self.ids@[i]@ == k;
        lemma_sum_ge_one(self.balances@, i);
    }

    /// Two balances of distinct accounts together are at most the total.
    pub proof fn lemma_two_entries_le_total(&self, a: Seq<char>, b: Seq<char>)
        requires
            self.wf(),
            self@.contains_key(a),
            self@.contains_key(b),
            a != b,
        ensures
            self@[a] + self@[b] <= self.total(),
    {
        let i = choose|i: int| 0 <= i < self.ids@.len() && self.ids@[i]@ == a;
        let j = choose|j: int| 0 <= j < self.ids@.len() && self.ids@[j]@ == b;
        lemma_sum_ge_two(self.balances@, i, j);
    }

    pub proof fn lemma_total_nonneg(&self)
        ensures
            self.total() >= 0,
    {
        lemma_sum_nonneg(self.balances@);
    }

    pub fn new() -> (r: Ledger)
        ensures
            r.wf(),
            r@ == Map::<Seq<char>, u128>::empty(),
            r.total() == 0,
    {
        Ledger { ids: Vec::new(), balances: Vec::new(), entries: Ghost(Map::empty()) }
    }

    fn position(&self, id: &String) -> (r: Option<usize>)
        requires
            self.wf(),
        ensures
            match r {
                Some(i) => i < self.ids@.len() && self.ids@[i as int]@ == id@,
                None => !self@.contains_key(id@),
            },
    {
        let mut i: usize = 0;
        while i < self.ids.len()
            invariant
                self.wf(),
                i <= self.ids@.len(),
                forall|j: int| 0 <= j < i ==> self.ids@[j]@ != id@,
            decreases self.ids@.len() - i,
        {
            if self.ids[i] == *id {
                return Some(i);
            }
            i = i + 1;
        }
        None
    }

    /// The balance of `id`, or `None` when it is not registered.
    pub fn get(&self, id: &String) -> (r: Option<u128>)
        requires
            self.wf(),
        ensures
            r == (if self@.contains_key(id@) {
                Some(self@[id@])
            } else {
                None::<u128>
            }),
    {
        match self.position(id) {
            Some(i) => Some(self.balances[i]),
            None => None,
        }
    }

    /// Registers `id` with a zero balance.
    pub fn register(&mut self, id: String)
        requires
            old(self).wf(),
            !old(self)@.contains_key(id@),
        ensures
            final(self).wf(),
            final(self)@ == old(self)@.insert(id@, 0),
            final(self).total() == old(self).total(),
    {
        let ghost k = id@;
        proof {
            lemma_sum_push(self.balances@, 0);
        }
        self.ids.push(id);
        self.balances.push(0);
        self.entries = Ghost(self.entries@.insert(k, 0));
        assert forall|k2: Seq<char>| #[trigger] self.entries@.contains_key(k2) implies exists|i: int|
            0 <= i < self.ids@.len() && self.ids@[i]@ == k2 by {
            if k2 != k {
                let i = choose|i: int| 0 <= i < old(self).ids@.len() && old(self).ids@[i]@ == k2;
                assert(self.ids@[i] == old(self).ids@[i]);
            } else {
                assert(self.ids@[self.ids@.len() - 1]@ == k);
            }
        }
    }

    /// Sets the balance of the registered account `id` to `v`.
    pub fn set(&mut self, id: &String, v: u128)
        requires
            old(self).wf(),
            old(self)@.contains_key(id@),
        ensures
            final(self).wf(),
            final(self)@ == old(self)@.insert(id@, v),
            final(self).total() == old(self).total() - old(self)@[id@] + v,
    {
        let i = self.position(id).unwrap();
        proof {
            lemma_sum_update(self.balances@, i as int, v);
        }
        self.balances.set(i, v);
        self.entries = Ghost(self.entries@.insert(id@, v));
        assert forall|k2: Seq<char>| #[trigger] self.entries@.contains_key(k2) implies exists|j: int|
            0 <= j < self.ids@.len() && self.ids@[j]@ == k2 by {
            if k2 != id@ {
                let j = choose|j: int| 0 <= j < old(self).ids@.len() && old(self).ids@[j]@ == k2;
                assert(self.ids@[j] == old(self).ids@[j]);
            } else {
                assert(self.ids@[i as int]@ == k2);
            }
        }
    }

    /// Removes the registered account `id` with whatever balance it holds.
    pub fn remove(&mut self, id: &String)
        requires
            old(self).wf(),
            old(self)@.contains_key(id@),
        ensures
            final(self).wf(),
            final(self)@ == old(self)@.remove(id@),
            final(self).total() == old(self).total() - old(self)@[id@],
    {
        let i = self.position(id).unwrap();
        proof {
            lemma_sum_remove(self.balances@, i as int);
        }
        self.ids.remove(i);
        self.balances.remove(i);
        self.entries = Ghost(self.entries@.remove(id@));
        let ghost oids = old(self).ids@;
        assert forall|j: int| 0 <= j < self.ids@.len() implies {
            &&& self.entries@.contains_key(#[trigger] self.ids@[j]@)
            &&& self.entries@[self.ids@[j]@] == self.balances@[j]
        } by {
            let oj = if j < i { j } else { j + 1 };
            assert(self.ids@[j] == oids[oj]);
            assert(oj != i);
        }
        assert forall|k2: Seq<char>| #[trigger] self.entries@.contains_key(k2) implies exists|j: int|
            0 <= j < self.ids@.len() && self.ids@[j]@ == k2 by {
            let oj = choose|oj: int| 0 <= oj < oids.len() && oids[oj]@ == k2;
            assert(oj != i);
            let j = if oj < i { oj } else { oj - 1 };
            assert(self.ids@[j] == oids[oj]);
        }
        assert forall|a: int, b: int|
            0 <= a < self.ids@.len() && 0 <= b < self.ids@.len() && a != b
                implies #[trigger] self.ids@[a]@ != #[trigger] self.ids@[b]@ by {
            let oa = if a < i { a } else { a + 1 };
            let ob = if b < i { b } else { b + 1 };
            assert(self.ids@[a] == oids[oa]);
            assert(self.ids@[b] == oids[ob]);
        }
    }
}

} // verus!
