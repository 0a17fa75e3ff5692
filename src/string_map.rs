use vstd::prelude::*;

use crate::text::chars_of;

verus! {

/// The order of `String`: character by character by code point, a proper
/// prefix before the longer string.
pub open spec fn key_lt(a: Seq<char>, b: Seq<char>) -> bool
    decreases a.len(),
{
    if a.len() == 0 {
        b.len() > 0
    } else if b.len() == 0 {
        false
    } else if a[0] != b[0] {
        (a[0] as int) < (b[0] as int)
    } else {
        key_lt(a.drop_first(), b.drop_first())
    }
}

/// Whether the keys of `s` are strictly ascending, as a `BTreeMap` walks
/// them.
pub open spec fn keys_ascending(s: Seq<(Seq<char>, Seq<char>)>) -> bool {
    forall|i: int, j: int| 0 <= i < j < s.len() ==> key_lt(#[trigger] s[i].0, #[trigger] s[j].0)
}

/// The value that `s` holds for `k`.
pub open spec fn lookup(s: Seq<(Seq<char>, Seq<char>)>, k: Seq<char>) -> Option<Seq<char>> {
    if exists|i: int| 0 <= i < s.len() && (#[trigger] s[i]).0 == k {
        Some(s[choose|i: int| 0 <= i < s.len() && (#[trigger] s[i]).0 == k].1)
    } else {
        None
    }
}

proof fn lemma_key_lt_irreflexive(a: Seq<char>)
    ensures
        !key_lt(a, a),
    decreases a.len(),
{
    if a.len() > 0 {
        lemma_key_lt_irreflexive(a.drop_first());
    }
}

proof fn lemma_key_lt_transitive(a: Seq<char>, b: Seq<char>, c: Seq<char>)
    requires
        key_lt(a, b),
        key_lt(b, c),
    ensures
        key_lt(a, c),
    decreases a.len(),
{
    if a.len() > 0 && b.len() > 0 && c.len() > 0 && a[0] == b[0] && b[0] == c[0] {
        lemma_key_lt_transitive(a.drop_first(), b.drop_first(), c.drop_first());
    }
}

proof fn lemma_key_lt_total(a: Seq<char>, b: Seq<char>)
    requires
        a != b,
    ensures
        key_lt(a, b) || key_lt(b, a),
    decreases a.len(),
{
    if a.len() > 0 && b.len() > 0 && a[0] == b[0] {
        if a.drop_first() == b.drop_first() {
            assert(a =~= seq![a[0]] + a.drop_first());
            assert(b =~= seq![b[0]] + b.drop_first());
            assert(a == b);
        } else {
            lemma_key_lt_total(a.drop_first(), b.drop_first());
        }
    } else if a.len() == 0 && b.len() == 0 {
        assert(a =~= b);
    } else if a.len() > 0 && b.len() > 0 {
        assert(a[0] != b[0]);
    }
}

/// In a map with ascending keys, each entry gives its key's value.
proof fn lemma_lookup_at(s: Seq<(Seq<char>, Seq<char>)>, i: int)
    requires
        keys_ascending(s),
        0 <= i < s.len(),
    ensures
        lookup(s, s[i].0) == Some(s[i].1),
{
    assert(s[i].0 == s[i].0);
    let j = choose|j: int| 0 <= j < s.len() && (#[trigger] s[j]).0 == s[i].0;
    if j < i {
        assert(key_lt(s[j].0, s[i].0));
        lemma_key_lt_irreflexive(s[i].0);
    } else if i < j {
        assert(key_lt(s[i].0, s[j].0));
        lemma_key_lt_irreflexive(s[i].0);
    }
}

pub open spec fn pair_view(e: (String, String)) -> (Seq<char>, Seq<char>) {
    (e.0@, e.1@)
}

/// Whether `a` comes before `b` in the order of `String`.
fn key_less(a: &String, b: &String) -> (r: bool)
    ensures
        r == key_lt(a@, b@),
{
    let ac = chars_of(a.as_str());
    let bc = chars_of(b.as_str());
    let mut i: usize = 0;
    assert(a@.subrange(0, a@.len() as int) =~= a@);
    assert(b@.subrange(0, b@.len() as int) =~= b@);
    while i < ac.len() && i < bc.len()
        invariant
            ac@ == a@,
            bc@ == b@,
            i <= ac.len(),
            i <= bc.len(),
            key_lt(a@, b@) == key_lt(
                a@.subrange(i as int, a@.len() as int),
                b@.subrange(i as int, b@.len() as int),
            ),
        decreases ac.len() - i,
    {
        let x = ac[i];
        let y = bc[i];
        let ghost sa = a@.subrange(i as int, a@.len() as int);
        let ghost sb = b@.subrange(i as int, b@.len() as int);
        assert(sa[0] == x && sb[0] == y);
        if x != y {
            return x < y;
        }
        assert(sa.drop_first() =~= a@.subrange(i + 1, a@.len() as int));
        assert(sb.drop_first() =~= b@.subrange(i + 1, b@.len() as int));
        i = i + 1;
    }
    ac.len() == i && i < bc.len()
}

/// A flat map from strings to strings whose entries are kept in ascending
/// key order, as a `BTreeMap` of strings keeps them.
#[derive(Debug, PartialEq, Eq)]
pub struct StringMap {
    entries: Vec<(String, String)>,
}

impl View for StringMap {
    type V = Seq<(Seq<char>, Seq<char>)>;

    closed spec fn view(&self) -> Seq<(Seq<char>, Seq<char>)> {
        self.entries@.map_values(|e: (String, String)| pair_view(e))
    }
}

impl StringMap {
    #[verifier::type_invariant]
    spec fn ascending(&self) -> bool {
        keys_ascending(self@)
    }

    /// A map with no entry.
    pub fn new() -> (r: StringMap)
        ensures
            r@ == Seq::<(Seq<char>, Seq<char>)>::empty(),
    {
        let r = StringMap { entries: Vec::new() };
        assert(r@ =~= Seq::<(Seq<char>, Seq<char>)>::empty());
        r
    }

    /// Sets `key` to `value`, in its place in the key order.
    pub fn insert(&mut self, key: String, value: String)
        ensures
            keys_ascending(final(self)@),
            forall|k: Seq<char>|
                #[trigger] lookup(final(self)@, k) == if k == key@ {
                    Some(value@)
                } else {
                    lookup(old(self)@, k)
                },
    {
        proof {
            use_type_invariant(&*self);
        }
        let ghost s = self@;
        let mut entries: Vec<(String, String)> = Vec::new();
        std::mem::swap(&mut entries, &mut self.entries);
        assert(entries@.map_values(|e: (String, String)| pair_view(e)) == s);

        let mut p: usize = 0;
        let mut placed = false;
        while p < entries.len() && !placed
            invariant
                p <= entries.len(),
                entries@.map_values(|e: (String, String)| pair_view(e)) == s,
                forall|i: int| 0 <= i < p ==> key_lt(#[trigger] s[i].0, key@),
                placed ==> p < entries.len() && !key_lt(s[p as int].0, key@),
            decreases entries.len() - p + if placed { 0int } else { 1int },
        {
            assert(s[p as int] == pair_view(entries@[p as int]));
            if key_less(&entries[p].0, &key) {
                p = p + 1;
            } else {
                placed = true;
            }
        }

        let replace = p < entries.len() && entries[p].0 == key;
        let ghost kv = (key@, value@);
        if replace {
            entries.remove(p);
        }
        entries.insert(p, (key, value));
        let ghost t = entries@.map_values(|e: (String, String)| pair_view(e));
        proof {
            if replace {
                assert(t =~= s.update(p as int, kv));
            } else {
                assert(t =~= s.insert(p as int, kv));
                if p < s.len() {
                    assert(!key_lt(s[p as int].0, key@));
                    lemma_key_lt_total(s[p as int].0, key@);
                    assert forall|j: int| p <= j < s.len() implies key_lt(key@, #[trigger] s[j].0) by {
                        if j > p {
                            lemma_key_lt_transitive(key@, s[p as int].0, s[j].0);
                        }
                    }
                }
            }
            assert(keys_ascending(t));
            assert forall|k: Seq<char>|
                #[trigger] lookup(t, k) == if k == key@ {
                    Some(value@)
                } else {
                    lookup(s, k)
                } by {
                if k == key@ {
                    lemma_lookup_at(t, p as int);
                } else if exists|i: int| 0 <= i < s.len() && (#[trigger] s[i]).0 == k {
                    let i = choose|i: int| 0 <= i < s.len() && (#[trigger] s[i]).0 == k;
                    let i2 = if replace || i < p { i } else { i + 1 };
                    assert(t[i2] == s[i]);
                    lemma_lookup_at(s, i);
                    lemma_lookup_at(t, i2);
                } else {
                    assert forall|i2: int| 0 <= i2 < t.len() implies (#[trigger] t[i2]).0 != k by {
                        if i2 != p {
                            let i = if replace || i2 < p { i2 } else { i2 - 1 };
                            assert(t[i2] == s[i]);
                        }
                    }
                }
            }
        }
        self.entries = entries;
    }

    /// The index of the entry for `key`.
    fn find(&self, key: &str) -> (r: Option<usize>)
        ensures
            r is None ==> lookup(self@, key@) is None,
            r matches Some(i) ==> i < self@.len() && lookup(self@, key@) == Some(self@[i as int].1),
    {
        proof {
            use_type_invariant(self);
        }
        let k = key.to_string();
        let mut i: usize = 0;
        while i < self.entries.len()
            invariant
                i <= self.entries.len(),
                self@.len() == self.entries.len(),
                keys_ascending(self@),
                k@ == key@,
                forall|j: int| 0 <= j < i ==> (#[trigger] self@[j]).0 != key@,
            decreases self.entries.len() - i,
        {
            assert(self@[i as int] == pair_view(self.entries@[i as int]));
            if self.entries[i].0 == k {
                proof {
                    lemma_lookup_at(self@, i as int);
                }
                return Some(i);
            }
            i = i + 1;
        }
        None
    }

    /// The value of `key`, if it is set.
    pub fn get(&self, key: &str) -> (r: Option<&String>)
        ensures
            r is Some <==> lookup(self@, key@) is Some,
            r matches Some(v) ==> v@ == lookup(self@, key@)->0,
    {
        match self.find(key) {
            Some(i) => Some(&self.entries[i].1),
            None => None,
        }
    }

    /// Whether `key` is set.
    pub fn contains_key(&self, key: &str) -> (r: bool)
        ensures
            r == lookup(self@, key@) is Some,
    {
        self.find(key).is_some()
    }

    /// The number of entries.
    pub fn len(&self) -> (r: usize)
        ensures
            r == self@.len(),
    {
        self.entries.len()
    }

    /// The entries, in ascending key order.
    pub fn entries(&self) -> (r: &Vec<(String, String)>)
        ensures
            r@.map_values(|e: (String, String)| pair_view(e)) == self@,
            keys_ascending(self@),
    {
        proof {
            use_type_invariant(self);
        }
        &self.entries
    }
}

} // verus!
