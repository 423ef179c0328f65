use vstd::prelude::*;

verus! {

/// What the tally says of a denomination: its recorded amount, or zero when absent.
pub open spec fn amount_of(m: Map<Seq<char>, nat>, denom: Seq<char>) -> nat {
    if m.contains_key(denom) {
        m[denom]
    } else {
        0
    }
}

/// One burn of `amount` units of `denom` applied to the tally; burning zero changes nothing.
pub open spec fn burn_step(m: Map<Seq<char>, nat>, denom: Seq<char>, amount: nat) -> Map<
    Seq<char>,
    nat,
> {
    if amount == 0 {
        m
    } else {
        m.insert(denom, amount_of(m, denom) + amount)
    }
}

struct TallyEntry {
    denom: String,
    amount: u128,
}

/// The cumulative amount burned per denomination.
pub struct BurnTally {
    entries: Vec<TallyEntry>,
    model: Ghost<Map<Seq<char>, nat>>,
}

impl View for BurnTally {
    type V = Map<Seq<char>, nat>;

    closed spec fn view(&self) -> Map<Seq<char>, nat> {
        self.model@
    }
}

impl BurnTally {
    /// Entries have distinct denominations and are exactly the keys of the model.
    pub closed spec fn wf(&self) -> bool {
        &&& forall|i: int, j: int|
            0 <= i < j < self.entries@.len() ==> self.entries@[i].denom@
                != self.entries@[j].denom@
        &&& forall|i: int|
            0 <= i < self.entries@.len() ==> {
                &&& #[trigger] self.model@.contains_key(self.entries@[i].denom@)
                &&& self.model@[self.entries@[i].denom@] == self.entries@[i].amount as nat
            }
        &&& forall|d: Seq<char>|
            #[trigger] self.model@.contains_key(d) ==> exists|i: int|
                0 <= i < self.entries@.len() && self.entries@[i].denom@ == d
    }

    /// A tally on which nothing has been burned yet.
    pub fn new() -> (r: BurnTally)
        ensures
            r.wf(),
            r@ == Map::<Seq<char>, nat>::empty(),
    {
        BurnTally { entries: Vec::new(), model: Ghost(Map::empty()) }
    }

    fn position(&self, denom: &String) -> (r: Option<usize>)
        requires
            self.wf(),
        ensures
            match r {
                Some(i) => i < self.entries@.len() && self.entries@[i as int].denom@ == denom@,
                None => !self@.contains_key(denom@),
            },
    {
        let mut i: usize = 0;
        while i < self.entries.len()
            invariant
                i <= self.entries@.len(),
                forall|k: int| 0 <= k < i ==> self.entries@[k].denom@ != denom@,
            decreases self.entries@.len() - i,
        {
            if self.entries[i].denom == *denom {
                return Some(i);
            }
            i = i + 1;
        }
        None
    }

    /// The amount burned so far of `denom`, zero if it was never burned.
    pub fn amount_burned(&self, denom: &String) -> (r: u128)
        requires
            self.wf(),
        ensures
            r as nat == amount_of(self@, denom@),
    {
        match self.position(denom) {
            Some(i) => self.entries[i].amount,
            None => 0,
        }
    }

    /// Sets the amount recorded for `denom`, as when it is loaded from storage.
    pub fn record(&mut self, denom: &String, amount: u128)
        requires
            old(self).wf(),
        ensures
            final(self).wf(),
            final(self)@ == old(self)@.insert(denom@, amount as nat),
    {
        let ghost before = self.entries@;
        match self.position(denom) {
            Some(i) => {
                let entry = TallyEntry { denom: denom.clone(), amount };
                self.entries.set(i, entry);
                self.model = Ghost(self.model@.insert(denom@, amount as nat));
                assert forall|d: Seq<char>| #[trigger] self.model@.contains_key(d) implies exists|
                    k: int,
                | 0 <= k < self.entries@.len() && self.entries@[k].denom@ == d by {
                    if d != denom@ {
                        let k = choose|k: int| 0 <= k < before.len() && before[k].denom@ == d;
                        assert(self.entries@[k].denom@ == d);
                    } else {
                        assert(self.entries@[i as int].denom@ == d);
                    }
                }
            },
            None => {
                let entry = TallyEntry { denom: denom.clone(), amount };
                self.entries.push(entry);
                self.model = Ghost(self.model@.insert(denom@, amount as nat));
                assert forall|d: Seq<char>| #[trigger] self.model@.contains_key(d) implies exists|
                    k: int,
                | 0 <= k < self.entries@.len() && self.entries@[k].denom@ == d by {
                    if d != denom@ {
                        let k = choose|k: int| 0 <= k < before.len() && before[k].denom@ == d;
                        assert(self.entries@[k].denom@ == d);
                    } else {
                        assert(self.entries@[before.len() as int].denom@ == d);
                    }
                }
            },
        }
    }
}

} // verus!
