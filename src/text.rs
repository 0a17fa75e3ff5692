use vstd::prelude::*;

verus! {

/// Whether `p` occurs in `s` as a run of consecutive characters.
pub open spec fn contains_sub(s: Seq<char>, p: Seq<char>) -> bool {
    exists|i: int| 0 <= i <= s.len() - p.len() && #[trigger] s.subrange(i, i + p.len()) == p
}

/// The pieces of `s` between single spaces, as splitting on `' '` gives
/// them: `""` gives one empty piece, and two spaces in a row an empty piece
/// between them.
pub open spec fn split_on_space(s: Seq<char>) -> Seq<Seq<char>>
    decreases s.len(),
{
    if s.len() == 0 {
        seq![Seq::empty()]
    } else {
        let before = split_on_space(s.drop_last());
        if s.last() == ' ' {
            before.push(Seq::empty())
        } else {
            before.update(before.len() - 1, before.last().push(s.last()))
        }
    }
}

proof fn lemma_split_on_space_nonempty(s: Seq<char>)
    ensures
        split_on_space(s).len() >= 1,
    decreases s.len(),
{
    if s.len() > 0 {
        lemma_split_on_space_nonempty(s.drop_last());
    }
}

/// Relies on `String::push`: appends one character to the string.
#[verifier::external_body]
fn push_char(s: &mut String, c: char)
    ensures
        final(s)@ == old(s)@.push(c),
{
    s.push(c);
}

/// The characters of `s`, in order.
pub fn chars_of(s: &str) -> (r: Vec<char>)
    ensures
        r@ == s@,
{
    let mut r: Vec<char> = Vec::new();
    for c in it: s.chars()
        invariant
            r@ == it.seq().subrange(0, it.index() as int),
    {
        r.push(c);
    }
    assert(r@ =~= s@);
    r
}

/// Whether `pattern` occurs in `s`.
pub fn contains(s: &str, pattern: &str) -> (r: bool)
    ensures
        r == contains_sub(s@, pattern@),
{
    let cs = chars_of(s);
    let ps = chars_of(pattern);
    if ps.len() > cs.len() {
        return false;
    }
    let mut i: usize = 0;
    while i <= cs.len() - ps.len()
        invariant
            cs@ == s@,
            ps@ == pattern@,
            ps.len() <= cs.len(),
            i <= cs.len() - ps.len() + 1,
            forall|k: int|
                0 <= k < i ==> #[trigger] s@.subrange(k, k + pattern@.len()) != pattern@,
        decreases cs.len() - ps.len() + 1 - i,
    {
        let mut j: usize = 0;
        let mut same = true;
        while j < ps.len()
            invariant
                cs@ == s@,
                ps@ == pattern@,
                i + ps.len() <= cs.len(),
                j <= ps.len(),
                same <==> forall|m: int| 0 <= m < j ==> cs@[i + m] == ps@[m],
            decreases ps.len() - j,
        {
            if cs[i + j] != ps[j] {
                same = false;
            }
            j = j + 1;
        }
        if same {
            assert(s@.subrange(i as int, i + pattern@.len()) =~= pattern@);
            return true;
        }
        assert(s@.subrange(i as int, i + pattern@.len()) != pattern@) by {
            let m = choose|m: int| 0 <= m < ps.len() && cs@[i + m] != ps@[m];
            assert(s@.subrange(i as int, i + pattern@.len())[m] == cs@[i + m]);
        }
        i = i + 1;
    }
    false
}

/// The pieces of `s` between single spaces.
pub fn split_spaces(s: &str) -> (r: Vec<String>)
    ensures
        r@.map_values(|p: String| p@) == split_on_space(s@),
{
    let cs = chars_of(s);
    let mut pieces: Vec<String> = Vec::new();
    let mut current = String::new();
    let mut i: usize = 0;
    while i < cs.len()
        invariant
            cs@ == s@,
            i <= cs.len(),
            pieces@.map_values(|p: String| p@).push(current@) == split_on_space(s@.subrange(0, i as int)),
        decreases cs.len() - i,
    {
        let c = cs[i];
        proof {
            let pre = s@.subrange(0, i + 1);
            assert(pre.drop_last() =~= s@.subrange(0, i as int));
            assert(pre.last() == c);
            lemma_split_on_space_nonempty(s@.subrange(0, i as int));
        }
        if c == ' ' {
            let ghost before = pieces@;
            let mut done = String::new();
            std::mem::swap(&mut done, &mut current);
            pieces.push(done);
            assert(pieces@.map_values(|p: String| p@) =~= before.map_values(|p: String| p@).push(done@));
        } else {
            let ghost before = current@;
            push_char(&mut current, c);
            assert(pieces@.map_values(|p: String| p@).push(current@) =~= pieces@.map_values(|p: String| p@).push(before).update(pieces@.len() as int, before.push(c)));
        }
        i = i + 1;
    }
    assert(s@.subrange(0, cs.len() as int) =~= s@);
    let ghost before = pieces@;
    pieces.push(current);
    assert(pieces@.map_values(|p: String| p@) =~= before.map_values(|p: String| p@).push(current@));
    pieces
}

} // verus!
