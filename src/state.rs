use vstd::prelude::*;

use crate::coin::{Coin, CoinView};
use crate::error::ContractError;

verus! {

/// What is kept for a registered name: its owner and the price it last changed hands for.
#[derive(Debug)]
pub struct NameRecord {
    pub owner: String,
    pub cur_price: Coin,
}

/// A name record as a mathematical value.
pub struct RecordView {
    pub owner: Seq<char>,
    pub cur_price: CoinView,
}

impl View for NameRecord {
    type V = RecordView;

    open spec fn view(&self) -> RecordView {
        RecordView { owner: self.owner@, cur_price: self.cur_price@ }
    }
}

impl NameRecord {
    /// A copy of this record.
    pub fn duplicate(&self) -> (r: NameRecord)
        ensures
            r == *self,
    {
        NameRecord { owner: self.owner.clone(), cur_price: self.cur_price.duplicate() }
    }
}

/// The value of an optional record.
pub open spec fn record_view(r: Option<NameRecord>) -> Option<RecordView> {
    match r {
        Some(rec) => Some(rec@),
        None => None,
    }
}

/// The record stored under `name`, if any.
pub open spec fn lookup(records: Map<Seq<char>, RecordView>, name: Seq<char>) -> Option<RecordView> {
    if records.contains_key(name) {
        Some(records[name])
    } else {
        None
    }
}

struct Entry {
    name: String,
    record: NameRecord,
}

/// The registry's persistent state: the price of registering a name, set once,
/// and the record of every name registered so far, one per name.
pub struct Registry {
    purchase_price: Option<Coin>,
    entries: Vec<Entry>,
}

/// The registry's state as a mathematical value.
pub struct RegistryView {
    pub purchase_price: Option<CoinView>,
    pub records: Map<Seq<char>, RecordView>,
}

spec fn names_unique(s: Seq<Entry>) -> bool {
    forall|i: int, j: int| 0 <= i < j < s.len() ==> s[i].name@ != s[j].name@
}

spec fn entries_map(s: Seq<Entry>) -> Map<Seq<char>, RecordView>
    decreases s.len(),
{
    if s.len() == 0 {
        Map::empty()
    } else {
        entries_map(s.drop_last()).insert(s.last().name@, s.last().record@)
    }
}

proof fn lemma_entries_map(s: Seq<Entry>)
    requires
        names_unique(s),
    ensures
        forall|i: int|
            0 <= i < s.len() ==> entries_map(s).contains_key(#[trigger] s[i].name@)
                && entries_map(s)[s[i].name@] == s[i].record@,
        forall|k: Seq<char>|
            #[trigger] entries_map(s).contains_key(k) ==> exists|i: int|
                0 <= i < s.len() && s[i].name@ == k,
    decreases s.len(),
{
    if s.len() > 0 {
        let t = s.drop_last();
        lemma_entries_map(t);
        assert forall|i: int| 0 <= i < s.len() implies entries_map(s).contains_key(
            #[trigger] s[i].name@,
        ) && entries_map(s)[s[i].name@] == s[i].record@ by {
            if i < s.len() - 1 {
                assert(t[i] == s[i]);
            }
        }
        assert forall|k: Seq<char>| #[trigger] entries_map(s).contains_key(k) implies exists|
            i: int,
        | 0 <= i < s.len() && s[i].name@ == k by {
            if k != s.last().name@ {
                assert(entries_map(t).contains_key(k));
                let i = choose|i: int| 0 <= i < t.len() && t[i].name@ == k;
                assert(s[i] == t[i]);
            } else {
                assert(s[s.len() - 1].name@ == k);
            }
        }
    }
}

proof fn lemma_entries_map_update(s: Seq<Entry>, i: int, e: Entry)
    requires
        names_unique(s),
        0 <= i < s.len(),
        e.name@ == s[i].name@,
    ensures
        names_unique(s.update(i, e)),
        entries_map(s.update(i, e)) == entries_map(s).insert(e.name@, e.record@),
{
    let u = s.update(i, e);
    assert(names_unique(u)) by {
        assert forall|a: int, b: int| 0 <= a < b < u.len() implies u[a].name@ != u[b].name@ by {
            assert(u[a].name@ == s[a].name@);
            assert(u[b].name@ == s[b].name@);
        }
    }
    lemma_entries_map(s);
    lemma_entries_map(u);
    let m = entries_map(s).insert(e.name@, e.record@);
    assert forall|k: Seq<char>| #[trigger] entries_map(u).contains_key(k) <==> m.contains_key(k) by {
        if entries_map(u).contains_key(k) {
            let j = choose|j: int| 0 <= j < u.len() && u[j].name@ == k;
            assert(s[j].name@ == k);
        }
        if entries_map(s).contains_key(k) {
            let j = choose|j: int| 0 <= j < s.len() && s[j].name@ == k;
            assert(u[j].name@ == k);
        }
    }
    assert forall|k: Seq<char>| #[trigger] entries_map(u).contains_key(k) implies entries_map(u)[k]
        == m[k] by {
        let j = choose|j: int| 0 <= j < u.len() && u[j].name@ == k;
        if j != i {
            assert(u[j] == s[j]);
            assert(s[j].name@ == k);
        }
    }
    assert(entries_map(u) =~= m);
}

impl View for Registry {
    type V = RegistryView;

    closed spec fn view(&self) -> RegistryView {
        RegistryView {
            purchase_price: crate::coin::price_view(self.purchase_price),
            records: entries_map(self.entries@),
        }
    }
}

impl Registry {
    /// The registry keeps one record per name.
    pub closed spec fn wf(&self) -> bool {
        names_unique(self.entries@)
    }

    /// A registry with the given price of registration and no names.
    pub fn new(purchase_price: Option<Coin>) -> (r: Registry)
        ensures
            r.wf(),
            r@.purchase_price == crate::coin::price_view(purchase_price),
            r@.records == Map::<Seq<char>, RecordView>::empty(),
    {
        Registry { purchase_price, entries: Vec::new() }
    }

    /// The price of registering a name.
    pub fn load_config(&self) -> (r: &Option<Coin>)
        ensures
            crate::coin::price_view(*r) == self@.purchase_price,
    {
        &self.purchase_price
    }

    fn find(&self, name: &String) -> (r: Option<usize>)
        ensures
            match r {
                Some(i) => i < self.entries@.len() && self.entries@[i as int].name@ == name@,
                None => forall|i: int|
                    0 <= i < self.entries@.len() ==> #[trigger] self.entries@[i].name@ != name@,
            },
    {
        let mut i: usize = 0;
        while i < self.entries.len()
            invariant
                0 <= i <= self.entries@.len(),
                forall|j: int| 0 <= j < i ==> #[trigger] self.entries@[j].name@ != name@,
            decreases self.entries@.len() - i,
        {
            if self.entries[i].name == *name {
                return Some(i);
            }
            i += 1;
        }
        None
    }

    /// The record of `name`, if it has been registered.
    pub fn get(&self, name: &String) -> (r: Option<&NameRecord>)
        requires
            self.wf(),
        ensures
            record_view(
                match r {
                    Some(rec) => Some(*rec),
                    None => None,
                },
            ) == lookup(self@.records, name@),
    {
        proof {
            lemma_entries_map(self.entries@);
        }
        match self.find(name) {
            Some(i) => Some(&self.entries[i].record),
            None => None,
        }
    }

    /// Stores `record` under `name`, replacing any record already there.
    pub fn put(&mut self, name: String, record: NameRecord)
        requires
            old(self).wf(),
        ensures
            final(self).wf(),
            final(self)@.purchase_price == old(self)@.purchase_price,
            final(self)@.records == old(self)@.records.insert(name@, record@),
    {
        proof {
            lemma_entries_map(self.entries@);
        }
        match self.find(&name) {
            Some(i) => {
                let e = Entry { name, record };
                proof {
                    lemma_entries_map_update(self.entries@, i as int, e);
                }
                self.entries.set(i, e);
            },
            None => {
                let e = Entry { name, record };
                proof {
                    let s = self.entries@;
                    let t = s.push(e);
                    assert(t.drop_last() == s);
                    assert forall|a: int, b: int| 0 <= a < b < t.len() implies t[a].name@
                        != t[b].name@ by {
                        if b < s.len() {
                            assert(t[a] == s[a] && t[b] == s[b]);
                        } else {
                            assert(t[a] == s[a]);
                        }
                    }
                }
                self.entries.push(e);
            },
        }
    }

    /// Reads the record of `name` (or its absence), hands it to `f`, and stores
    /// what `f` returns under `name`, all in one step. Where `f` fails nothing is
    /// written and its error is returned.
    pub fn update_if_present<F>(&mut self, name: &String, f: F) -> (r: Result<(), ContractError>) where
        F: FnOnce(Option<NameRecord>) -> Result<NameRecord, ContractError>,
        requires
            old(self).wf(),
            forall|arg: Option<NameRecord>| #[trigger] f.requires((arg,)),
        ensures
            final(self).wf(),
            final(self)@.purchase_price == old(self)@.purchase_price,
            exists|arg: Option<NameRecord>, res: Result<NameRecord, ContractError>|
                record_view(arg) == lookup(old(self)@.records, name@) && #[trigger] f.ensures(
                    (arg,),
                    res,
                ) && match res {
                    Ok(rec) => r is Ok && final(self)@.records == old(self)@.records.insert(
                        name@,
                        rec@,
                    ),
                    Err(e) => r == Err::<(), ContractError>(e) && final(self)@ == old(self)@,
                },
    {
        let current = match self.get(name) {
            Some(rec) => Some(rec.duplicate()),
            None => None,
        };
        let res = f(current);
        match res {
            Ok(rec) => {
                self.put(name.clone(), rec);
                Ok(())
            },
            Err(e) => Err(e),
        }
    }
}

} // verus!
