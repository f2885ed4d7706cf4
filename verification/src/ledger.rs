//! The view ledger: which viewer has consumed which file.

use crate::text::same_text;
use vstd::prelude::*;

verus! {

/// A viewer, identified by its network address.
#[derive(Clone, Copy, Debug, PartialEq, Eq, Structural, Hash)]
pub enum ClientAddr {
    /// An IPv4 address, as its 32 bits.
    V4(u32),
    /// An IPv6 address, as its 128 bits.
    V6(u128),
}

/// One consumed view: `viewer` has seen `filename`.
struct ViewRecord {
    filename: String,
    viewer: ClientAddr,
}

/// The set of (filename, viewer) pairs recorded so far. Every pair is held
/// once.
pub struct ViewLedger {
    records: Vec<ViewRecord>,
}

impl View for ViewLedger {
    type V = Set<(Seq<char>, ClientAddr)>;

    closed spec fn view(&self) -> Set<(Seq<char>, ClientAddr)> {
        Set::new(|pair: (Seq<char>, ClientAddr)| holds(self.records@, pair))
    }
}

spec fn key(records: Seq<ViewRecord>, i: int) -> (Seq<char>, ClientAddr) {
    (records[i].filename@, records[i].viewer)
}

spec fn holds(records: Seq<ViewRecord>, pair: (Seq<char>, ClientAddr)) -> bool {
    exists|i: int| 0 <= i < records.len() && #[trigger] key(records, i) == pair
}

/// Whether `pair` is among the first `n` records.
spec fn from_first(records: Seq<ViewRecord>, n: int, pair: (Seq<char>, ClientAddr)) -> bool {
    exists|j: int| 0 <= j < n && #[trigger] key(records, j) == pair
}

spec fn each_pair_once(records: Seq<ViewRecord>) -> bool {
    forall|i: int, j: int|
        0 <= i < j < records.len() ==> #[trigger] key(records, i) != #[trigger] key(records, j)
}

impl ViewLedger {
    #[verifier::type_invariant]
    spec fn well_formed(self) -> bool {
        each_pair_once(self.records@)
    }

    /// A ledger with nothing recorded.
    pub fn new() -> (ledger: ViewLedger)
        ensures
            ledger@ == Set::<(Seq<char>, ClientAddr)>::empty(),
    {
        let ledger = ViewLedger { records: Vec::new() };
        assert(ledger@ =~= Set::<(Seq<char>, ClientAddr)>::empty());
        ledger
    }

    /// Whether `viewer` is recorded as having consumed `filename`.
    pub fn contains(&self, filename: &str, viewer: ClientAddr) -> (found: bool)
        ensures
            found == self@.contains((filename@, viewer)),
    {
        let mut i: usize = 0;
        while i < self.records.len()
            invariant
                i <= self.records.len(),
                forall|k: int| 0 <= k < i ==> #[trigger] key(self.records@, k) != (filename@, viewer),
            decreases self.records.len() - i,
        {
            if self.records[i].viewer == viewer && same_text(
                self.records[i].filename.as_str(),
                filename,
            ) {
                assert(key(self.records@, i as int) == (filename@, viewer));
                return true;
            }
            i += 1;
        }
        false
    }

    /// Records that `viewer` has consumed `filename`. Returns whether the pair
    /// is new.
    pub fn insert(&mut self, filename: &str, viewer: ClientAddr) -> (fresh: bool)
        ensures
            fresh == !old(self)@.contains((filename@, viewer)),
            final(self)@ == old(self)@.insert((filename@, viewer)),
    {
        if self.contains(filename, viewer) {
            assert(self@ =~= self@.insert((filename@, viewer)));
            return false;
        }
        proof {
            use_type_invariant(&*self);
        }
        let ghost before = self.records@;
        let record = ViewRecord { filename: filename.to_owned(), viewer };
        let mut records: Vec<ViewRecord> = Vec::new();
        std::mem::swap(&mut self.records, &mut records);
        records.push(record);
        proof {
            let n = before.len() as int;
            assert(!holds(before, (filename@, viewer)));
            assert(forall|k: int| 0 <= k < n ==> key(records@, k) == key(before, k));
            assert(key(records@, n) == (filename@, viewer));
            assert forall|i: int, j: int| 0 <= i < j < records.len() implies #[trigger] key(
                records@,
                i,
            ) != #[trigger] key(records@, j) by {
                if j < n {
                    assert(key(before, i) != key(before, j));
                } else {
                    assert(key(before, i) != (filename@, viewer));
                }
            }
        }
        self.records = records;
        proof {
            let after = self.records@;
            let n = before.len() as int;
            let added = (filename@, viewer);
            assert(forall|k: int| 0 <= k < n ==> key(after, k) == key(before, k));
            assert(key(after, n) == added);
            assert forall|pair: (Seq<char>, ClientAddr)|
                holds(after, pair) <==> (holds(before, pair) || pair == added) by {
                if holds(before, pair) {
                    let k = choose|k: int| 0 <= k < n && #[trigger] key(before, k) == pair;
                    assert(key(after, k) == pair);
                }
                if holds(after, pair) {
                    let k = choose|k: int| 0 <= k < after.len() && #[trigger] key(after, k) == pair;
                    if k < n {
                        assert(key(before, k) == pair);
                    }
                }
            }
            assert(self@ =~= old(self)@.insert(added));
        }
        true
    }

    /// Forgets every view of `filename`; the views of other files stay.
    pub fn remove_file(&mut self, filename: &str)
        ensures
            final(self)@ == old(self)@.filter(|pair: (Seq<char>, ClientAddr)| pair.0 != filename@),
    {
        proof {
            use_type_invariant(&*self);
        }
        let ghost before = self.records@;
        let mut kept: Vec<ViewRecord> = Vec::new();
        let mut i: usize = 0;
        while i < self.records.len()
            invariant
                i <= self.records.len(),
                self.records@ == before,
                each_pair_once(before),
                each_pair_once(kept@),
                forall|k: int| 0 <= k < kept.len() ==> (#[trigger] key(kept@, k)).0 != filename@,
                forall|k: int| 0 <= k < kept.len() ==> from_first(before, i as int, #[trigger] key(kept@, k)),
                forall|j: int|
                    0 <= j < i && (#[trigger] key(before, j)).0 != filename@ ==> holds(
                        kept@,
                        key(before, j),
                    ),
            decreases self.records.len() - i,
        {
            if !same_text(self.records[i].filename.as_str(), filename) {
                let ghost earlier = kept@;
                let record = ViewRecord {
                    filename: self.records[i].filename.clone(),
                    viewer: self.records[i].viewer,
                };
                kept.push(record);
                proof {
                    let n = earlier.len() as int;
                    assert(forall|k: int| 0 <= k < n ==> key(kept@, k) == key(earlier, k));
                    assert(key(kept@, n) == key(before, i as int));
                    assert forall|k: int| 0 <= k < kept.len() implies (#[trigger] key(kept@, k)).0
                        != filename@ by {
                        if k < n {
                            assert(key(earlier, k).0 != filename@);
                        }
                    }
                    assert forall|k: int| 0 <= k < kept.len() implies from_first(
                        before,
                        i + 1,
                        #[trigger] key(kept@, k),
                    ) by {
                        if k < n {
                            assert(from_first(before, i as int, key(earlier, k)));
                            let j = choose|j: int|
                                0 <= j < i && #[trigger] key(before, j) == key(earlier, k);
                            assert(key(before, j) == key(kept@, k));
                        } else {
                            assert(key(before, i as int) == key(kept@, k));
                        }
                    }
                    assert forall|a: int, b: int| 0 <= a < b < kept.len() implies #[trigger] key(
                        kept@,
                        a,
                    ) != #[trigger] key(kept@, b) by {
                        if b < n {
                            assert(key(earlier, a) != key(earlier, b));
                        } else {
                            let j = choose|j: int|
                                0 <= j < i && #[trigger] key(before, j) == key(earlier, a);
                            assert(key(before, j) != key(before, i as int));
                        }
                    }
                    assert forall|j: int|
                        0 <= j < i + 1 && (#[trigger] key(before, j)).0 != filename@ implies holds(
                        kept@,
                        key(before, j),
                    ) by {
                        if j < i {
                            let k = choose|k: int|
                                0 <= k < n && #[trigger] key(earlier, k) == key(before, j);
                            assert(key(kept@, k) == key(before, j));
                        }
                    }
                }
            }
            i += 1;
        }
        self.records = kept;
        proof {
            let after = self.records@;
            let wanted = old(self)@.filter(|pair: (Seq<char>, ClientAddr)| pair.0 != filename@);
            assert forall|pair: (Seq<char>, ClientAddr)| holds(after, pair) <==> (holds(
                before,
                pair,
            ) && pair.0 != filename@) by {
                if holds(after, pair) {
                    let k = choose|k: int| 0 <= k < after.len() && #[trigger] key(after, k) == pair;
                    assert(key(after, k).0 != filename@);
                }
                if holds(before, pair) && pair.0 != filename@ {
                    let j = choose|j: int| 0 <= j < before.len() && #[trigger] key(before, j) == pair;
                    assert(holds(after, key(before, j)));
                }
            }
            assert(self@ =~= wanted);
        }
    }
}

} // verus!
