//! Price catalog cache: an injectable, wholesale-replaced snapshot of
//! item name to market price, with exact-match lookup.

use vstd::prelude::*;

use crate::strutil::str_eq;

verus! {

/// One catalog entry: an item name and its market price.
#[derive(Debug)]
pub struct PriceEntry {
    pub name: String,
    pub price: i64,
}

/// View of a catalog entry.
pub struct PriceEntryView {
    pub name: Seq<char>,
    pub price: int,
}

impl View for PriceEntry {
    type V = PriceEntryView;

    open spec fn view(&self) -> PriceEntryView {
        PriceEntryView { name: self.name@, price: self.price as int }
    }
}

/// The price found for `name` in `entries`: the first entry with that
/// exact name, or `None` when no entry carries it.
pub open spec fn spec_lookup(entries: Seq<PriceEntryView>, name: Seq<char>) -> Option<int>
    decreases entries.len(),
{
    if entries.len() == 0 {
        None
    } else if entries[0].name == name {
        Some(entries[0].price)
    } else {
        spec_lookup(entries.drop_first(), name)
    }
}

/// Skipping entries whose names all differ from `name` does not change
/// the lookup result.
pub proof fn lemma_lookup_skip(entries: Seq<PriceEntryView>, name: Seq<char>, i: int)
    requires
        0 <= i <= entries.len(),
        forall|j: int| 0 <= j < i ==> entries[j].name != name,
    ensures
        spec_lookup(entries, name) == spec_lookup(entries.skip(i), name),
    decreases i,
{
    if i > 0 {
        assert(entries.len() > 0);
        assert(entries[0].name != name);
        lemma_lookup_skip(entries.drop_first(), name, i - 1);
        assert(entries.drop_first().skip(i - 1) =~= entries.skip(i));
        assert(forall|j: int|
            0 <= j < i - 1 ==> entries.drop_first()[j] == entries[j + 1]);
    } else {
        assert(entries.skip(0) =~= entries);
    }
}

/// An in-memory snapshot of current market prices. Replaced wholesale
/// on a successful refresh; never merged or mutated in place.
#[derive(Debug)]
pub struct PriceCatalog {
    pub entries: Vec<PriceEntry>,
}

impl View for PriceCatalog {
    type V = Seq<PriceEntryView>;

    open spec fn view(&self) -> Seq<PriceEntryView> {
        self.entries@.map_values(|e: PriceEntry| e@)
    }
}

impl PriceCatalog {
    /// An empty catalog: nothing has been fetched yet, so every lookup
    /// reports the price as unknown.
    pub fn new() -> (c: PriceCatalog)
        ensures
            c@ =~= Seq::<PriceEntryView>::empty(),
    {
        PriceCatalog { entries: Vec::new() }
    }

    /// Exact-match price lookup: the first entry named `name`, or
    /// `None` when the catalog holds no such entry.
    pub fn lookup(&self, name: &str) -> (r: Option<i64>)
        ensures
            match r {
                Some(p) => spec_lookup(self@, name@) == Some(p as int),
                None => spec_lookup(self@, name@) is None,
            },
    {
        let n = self.entries.len();
        let mut i: usize = 0;
        while i < n
            invariant
                0 <= i <= n,
                n == self.entries@.len(),
                forall|j: int| 0 <= j < i ==> self@[j].name != name@,
            decreases n - i,
        {
            if str_eq(self.entries[i].name.as_str(), name) {
                proof {
                    lemma_lookup_skip(self@, name@, i as int);
                    assert(self@.skip(i as int)[0] == self@[i as int]);
                }
                return Some(self.entries[i].price);
            }
            i = i + 1;
        }
        proof {
            lemma_lookup_skip(self@, name@, n as int);
            assert(self@.skip(n as int) =~= Seq::<PriceEntryView>::empty());
        }
        None
    }

    /// Installs the outcome of one fetch cycle. A successful fetch
    /// replaces the snapshot wholesale; a failed fetch (`None`) leaves
    /// the previous snapshot untouched, so every lookup keeps its old
    /// result.
    pub fn refresh(&mut self, fetched: Option<Vec<PriceEntry>>)
        ensures
            match fetched {
                Some(snapshot) => final(self)@ == snapshot@.map_values(|e: PriceEntry| e@),
                None => final(self)@ == old(self)@,
            },
    {
        match fetched {
            Some(snapshot) => {
                self.entries = snapshot;
            },
            None => {},
        }
    }
}

/// Catalog atomicity: a refresh whose fetch failed leaves every lookup
/// result exactly as it was before the attempt.
pub proof fn lemma_refresh_atomic(before: PriceCatalog, after: PriceCatalog, name: Seq<char>)
    requires
        after@ == before@,
    ensures
        spec_lookup(after@, name) == spec_lookup(before@, name),
{
}

} // verus!
