use vstd::prelude::*;

verus! {

/// A scalar that a filter compares an object's field with.
#[derive(Debug, Clone)]
pub enum FilterValue {
    Str(String),
    Int(i64),
    Bool(bool),
}

/// What a [`FilterValue`] stands for.
pub enum ScalarView {
    Str(Seq<char>),
    Int(int),
    Bool(bool),
}

impl View for FilterValue {
    type V = ScalarView;

    open spec fn view(&self) -> ScalarView {
        match self {
            FilterValue::Str(s) => ScalarView::Str(s@),
            FilterValue::Int(i) => ScalarView::Int(*i as int),
            FilterValue::Bool(b) => ScalarView::Bool(*b),
        }
    }
}

/// The map that a list of entries denotes: a later entry for a key replaces
/// an earlier one.
pub open spec fn entries_map(s: Seq<(String, FilterValue)>) -> Map<Seq<char>, ScalarView>
    decreases s.len(),
{
    if s.len() == 0 {
        Map::empty()
    } else {
        entries_map(s.drop_last()).insert(s.last().0@, s.last().1@)
    }
}

/// The map of a list with every entry for `k` taken out is the list's map
/// without `k`.
proof fn lemma_entries_map_prefix_without(s: Seq<(String, FilterValue)>, kept: Seq<(String, FilterValue)>, j: int, k: Seq<char>)
    requires
        0 <= j < s.len(),
        entries_map(kept) == entries_map(s.subrange(0, j)).remove(k),
    ensures
        s[j].0@ == k ==> entries_map(kept) == entries_map(s.subrange(0, j + 1)).remove(k),
        s[j].0@ != k ==> entries_map(kept.push(s[j])) == entries_map(s.subrange(0, j + 1)).remove(k),
{
    let p = s.subrange(0, j + 1);
    assert(p.drop_last() =~= s.subrange(0, j));
    assert(p.last() == s[j]);
    if s[j].0@ == k {
        assert(entries_map(p).remove(k) =~= entries_map(s.subrange(0, j)).remove(k));
    } else {
        let q = kept.push(s[j]);
        assert(q.drop_last() =~= kept);
        assert(entries_map(q) =~= entries_map(p).remove(k));
    }
}

/// In a list whose entry `i` is the last one for its key, that entry gives
/// the key's value.
proof fn lemma_entries_map_last_entry(s: Seq<(String, FilterValue)>, i: int)
    requires
        0 <= i < s.len(),
        forall|j: int| i < j < s.len() ==> s[j].0@ != s[i].0@,
    ensures
        entries_map(s).contains_key(s[i].0@),
        entries_map(s)[s[i].0@] == s[i].1@,
    decreases s.len(),
{
    if i < s.len() - 1 {
        lemma_entries_map_last_entry(s.drop_last(), i);
    }
}

/// A key that no entry holds is not in the list's map.
proof fn lemma_entries_map_absent(s: Seq<(String, FilterValue)>, k: Seq<char>)
    requires
        forall|j: int| 0 <= j < s.len() ==> s[j].0@ != k,
    ensures
        !entries_map(s).contains_key(k),
    decreases s.len(),
{
    if s.len() > 0 {
        lemma_entries_map_absent(s.drop_last(), k);
    }
}

/// Field-equality constraints that a query sends to the server: a flat map
/// from field name to scalar.
#[derive(Debug, Clone)]
pub struct Filter {
    entries: Vec<(String, FilterValue)>,
}

impl View for Filter {
    type V = Map<Seq<char>, ScalarView>;

    closed spec fn view(&self) -> Map<Seq<char>, ScalarView> {
        entries_map(self.entries@)
    }
}

impl Filter {
    /// A filter with no constraint.
    pub fn new() -> (r: Filter)
        ensures
            r@ == Map::<Seq<char>, ScalarView>::empty(),
    {
        Filter { entries: Vec::new() }
    }

    /// Sets the constraint on `key`, replacing any earlier one.
    pub fn insert(&mut self, key: String, value: FilterValue)
        ensures
            final(self)@ == old(self)@.insert(key@, value@),
    {
        let ghost orig = self.entries@;
        let mut rest: Vec<(String, FilterValue)> = Vec::new();
        let mut pending: Vec<(String, FilterValue)> = Vec::new();
        std::mem::swap(&mut pending, &mut self.entries);
        let ghost mut j: int = 0;
        assert(orig.subrange(0, 0) =~= Seq::<(String, FilterValue)>::empty());
        assert(entries_map(rest@) =~= entries_map(orig.subrange(0, 0)).remove(key@));
        while pending.len() > 0
            invariant
                0 <= j <= orig.len(),
                pending@ == orig.subrange(j, orig.len() as int),
                entries_map(rest@) == entries_map(orig.subrange(0, j)).remove(key@),
            decreases pending.len(),
        {
            let e = pending.remove(0);
            proof {
                assert(e == orig[j]);
                lemma_entries_map_prefix_without(orig, rest@, j, key@);
            }
            if e.0 != key {
                rest.push(e);
            }
            proof {
                j = j + 1;
                assert(pending@ =~= orig.subrange(j, orig.len() as int));
            }
        }
        assert(orig.subrange(0, j) =~= orig);
        let ghost before = rest@;
        rest.push((key, value));
        assert(rest@.drop_last() =~= before);
        assert(entries_map(rest@) =~= entries_map(orig).insert(key@, value@));
        self.entries = rest;
    }

    /// The constraint on `key`, if there is one.
    pub fn get(&self, key: &str) -> (r: Option<&FilterValue>)
        ensures
            r is Some <==> self@.contains_key(key@),
            r matches Some(v) ==> v@ == self@[key@],
    {
        let k = key.to_string();
        let mut i: usize = self.entries.len();
        while i > 0
            invariant
                i <= self.entries.len(),
                k@ == key@,
                forall|j: int| i <= j < self.entries.len() ==> self.entries@[j].0@ != key@,
            decreases i,
        {
            i = i - 1;
            if self.entries[i].0 == k {
                proof {
                    lemma_entries_map_last_entry(self.entries@, i as int);
                }
                return Some(&self.entries[i].1);
            }
        }
        proof {
            lemma_entries_map_absent(self.entries@, key@);
        }
        None
    }

    /// The entries of the filter, in the order they were set; the last one
    /// for a key holds.
    pub fn entries(&self) -> (r: &Vec<(String, FilterValue)>)
        ensures
            entries_map(r@) == self@,
    {
        &self.entries
    }
}

} // verus!
