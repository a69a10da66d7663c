//! A table of HTTP header names and values, keyed by the exact name.

use vstd::prelude::*;

verus! {

/// The map that a list of `(name, value)` pairs denotes: a later pair for a
/// name replaces an earlier one.
pub open spec fn pairs_to_map(pairs: Seq<(Seq<char>, Seq<char>)>) -> Map<Seq<char>, Seq<char>>
    decreases pairs.len(),
{
    if pairs.len() == 0 {
        Map::empty()
    } else {
        pairs_to_map(pairs.drop_last()).insert(pairs.last().0, pairs.last().1)
    }
}

/// Extra headers sent with every request, by name.
#[derive(Debug)]
pub struct HeaderTable {
    entries: Vec<(String, String)>,
}

/// A list of `(name, value)` pairs, each taken by the views of its name and value.
pub open spec fn entry_views(entries: Seq<(String, String)>) -> Seq<(Seq<char>, Seq<char>)> {
    Seq::new(entries.len(), |i: int| (entries[i].0@, entries[i].1@))
}

impl HeaderTable {
    /// The entries in the order they were set, each taken by the views of its
    /// name and value.
    pub closed spec fn pairs(&self) -> Seq<(Seq<char>, Seq<char>)> {
        entry_views(self.entries@)
    }
}

impl View for HeaderTable {
    type V = Map<Seq<char>, Seq<char>>;

    open spec fn view(&self) -> Map<Seq<char>, Seq<char>> {
        pairs_to_map(self.pairs())
    }
}

proof fn lemma_last_pair_wins(pairs: Seq<(Seq<char>, Seq<char>)>, i: int, name: Seq<char>)
    requires
        0 <= i < pairs.len(),
        pairs[i].0 == name,
        forall|j: int| i < j < pairs.len() ==> pairs[j].0 != name,
    ensures
        pairs_to_map(pairs).contains_key(name),
        pairs_to_map(pairs)[name] == pairs[i].1,
    decreases pairs.len(),
{
    if i < pairs.len() - 1 {
        lemma_last_pair_wins(pairs.drop_last(), i, name);
    }
}

proof fn lemma_absent_name(pairs: Seq<(Seq<char>, Seq<char>)>, name: Seq<char>)
    requires
        forall|j: int| 0 <= j < pairs.len() ==> pairs[j].0 != name,
    ensures
        !pairs_to_map(pairs).contains_key(name),
    decreases pairs.len(),
{
    if pairs.len() > 0 {
        lemma_absent_name(pairs.drop_last(), name);
    }
}

impl HeaderTable {
    /// An empty table.
    pub fn new() -> (t: Self)
        ensures
            t.pairs() == Seq::<(Seq<char>, Seq<char>)>::empty(),
            t@ == Map::<Seq<char>, Seq<char>>::empty(),
    {
        let t = HeaderTable { entries: Vec::new() };
        assert(t.pairs() =~= Seq::<(Seq<char>, Seq<char>)>::empty());
        t
    }

    /// Sets the value of the header `name`, replacing any value it had.
    pub fn insert(&mut self, name: String, value: String)
        ensures
            final(self).pairs() == old(self).pairs().push((name@, value@)),
            final(self)@ == old(self)@.insert(name@, value@),
    {
        let ghost before = self.pairs();
        self.entries.push((name, value));
        assert(self.pairs().drop_last() =~= before);
        assert(self.pairs() =~= before.push((name@, value@)));
    }

    /// The value of the header `name`, if the table has one.
    pub fn get(&self, name: &str) -> (r: Option<&String>)
        ensures
            r is Some <==> self@.contains_key(name@),
            r matches Some(v) ==> v@ == self@[name@],
    {
        let key = String::from_str(name);
        let n = self.entries.len();
        let mut i = n;
        while i > 0
            invariant
                n == self.entries@.len(),
                i <= n,
                key@ == name@,
                forall|j: int| i <= j < n ==> self.pairs()[j].0 != name@,
            decreases i,
        {
            i = i - 1;
            if self.entries[i].0 == key {
                proof {
                    lemma_last_pair_wins(self.pairs(), i as int, name@);
                }
                return Some(&self.entries[i].1);
            }
        }
        proof {
            lemma_absent_name(self.pairs(), name@);
        }
        None
    }

    /// Whether the table has a value for the header `name`.
    pub fn contains_key(&self, name: &str) -> (r: bool)
        ensures
            r == self@.contains_key(name@),
    {
        self.get(name).is_some()
    }

    /// The entries in the order they were set; setting them in this order
    /// into an empty map gives the table.
    pub fn to_pairs(&self) -> (r: Vec<(String, String)>)
        ensures
            entry_views(r@) == self.pairs(),
            pairs_to_map(entry_views(r@)) == self@,
    {
        let mut r: Vec<(String, String)> = Vec::new();
        let n = self.entries.len();
        for i in 0..n
            invariant
                n == self.entries@.len(),
                r@.len() == i,
                forall|j: int|
                    0 <= j < i ==> (#[trigger] r@[j]).0@ == self.entries@[j].0@ && r@[j].1@
                        == self.entries@[j].1@,
        {
            let name = self.entries[i].0.clone();
            let value = self.entries[i].1.clone();
            r.push((name, value));
        }
        assert(entry_views(r@) =~= self.pairs());
        r
    }
}

} // verus!

verus! {

/// After a header is set, reading it gives the value set, and every other
/// header reads as it did before.
pub proof fn law_header_read_after_write(
    before: HeaderTable,
    after: HeaderTable,
    name: Seq<char>,
    value: Seq<char>,
    other: Seq<char>,
)
    requires
        after@ == before@.insert(name, value),
    ensures
        after@.contains_key(name),
        after@[name] == value,
        other != name ==> (after@.contains_key(other) == before@.contains_key(other)),
        other != name && before@.contains_key(other) ==> after@[other] == before@[other],
{
}

} // verus!
