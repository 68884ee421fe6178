//! Character-level helpers shared by the tokenizer, the completion engine and
//! the dispatcher: whitespace classification, prefix tests, lexicographic
//! order on character sequences, and the start of the trailing segment of a
//! line under a choice of boundary characters.

use vstd::prelude::*;

verus! {

/// Characters that separate whitespace-delimited tokens.
pub open spec fn is_space(c: char) -> bool {
    c == ' ' || c == '\t' || c == '\n' || c == '\r'
}

/// Executable form of `is_space`.
pub fn is_space_char(c: char) -> (r: bool)
    ensures
        r == is_space(c),
{
    c == ' ' || c == '\t' || c == '\n' || c == '\r'
}

/// The line holds at least one non-whitespace character.
pub open spec fn has_content(s: Seq<char>) -> bool {
    exists|i: int| 0 <= i < s.len() && !is_space(#[trigger] s[i])
}

/// Whether any character of `s` is not whitespace.
pub fn contains_content(s: &Vec<char>) -> (r: bool)
    ensures
        r == has_content(s@),
{
    let mut i: usize = 0;
    while i < s.len()
        invariant
            i <= s@.len(),
            forall|k: int| 0 <= k < i ==> is_space(#[trigger] s@[k]),
        decreases s@.len() - i,
    {
        if !is_space_char(s[i]) {
            assert(has_content(s@)) by {
                assert(0 <= i < s@.len() && !is_space(s@[i as int]));
            }
            return true;
        }
        i += 1;
    }
    false
}

/// `p` is an initial run of `s`.
pub open spec fn is_prefix_of(p: Seq<char>, s: Seq<char>) -> bool {
    p.len() <= s.len() && p == s.subrange(0, p.len() as int)
}

/// Whether `s` starts with `p`, compared character by character.
pub fn starts_with(s: &Vec<char>, p: &Vec<char>) -> (r: bool)
    ensures
        r == is_prefix_of(p@, s@),
{
    if p.len() > s.len() {
        assert(!is_prefix_of(p@, s@));
        return false;
    }
    let mut i: usize = 0;
    while i < p.len()
        invariant
            i <= p.len() <= s.len(),
            forall|k: int| 0 <= k < i ==> p@[k] == s@[k],
        decreases p.len() - i,
    {
        if s[i] != p[i] {
            assert(s@.subrange(0, p@.len() as int)[i as int] != p@[i as int]);
            return false;
        }
        i += 1;
    }
    assert(p@ =~= s@.subrange(0, p@.len() as int));
    true
}

/// Strict lexicographic order on character sequences by code point, the
/// order that a byte-wise comparison of their UTF-8 encodings induces.
pub open spec fn lex_less(a: Seq<char>, b: Seq<char>) -> bool
    decreases a.len(),
{
    if b.len() == 0 {
        false
    } else if a.len() == 0 {
        true
    } else if a[0] != b[0] {
        a[0] < b[0]
    } else {
        lex_less(a.skip(1), b.skip(1))
    }
}

/// Reflexive closure of `lex_less`.
pub open spec fn lex_leq(a: Seq<char>, b: Seq<char>) -> bool {
    lex_less(a, b) || a == b
}

/// Exactly one of `lex_less(a, b)`, `lex_less(b, a)`, `a == b` holds.
pub proof fn lemma_lex_total(a: Seq<char>, b: Seq<char>)
    ensures
        lex_less(a, b) || lex_less(b, a) || a == b,
        lex_less(a, b) ==> !lex_less(b, a) && a != b,
    decreases a.len(),
{
    if a.len() == 0 && b.len() == 0 {
        assert(a =~= b);
    } else if a.len() != 0 && b.len() != 0 && a[0] == b[0] {
        lemma_lex_total(a.skip(1), b.skip(1));
        if a.skip(1) == b.skip(1) {
            assert(a.len() == b.len());
            assert forall|i: int| 0 <= i < a.len() implies a[i] == b[i] by {
                if i > 0 {
                    assert(a[i] == a.skip(1)[i - 1]);
                    assert(b[i] == b.skip(1)[i - 1]);
                }
            }
            assert(a =~= b);
        }
        if a == b {
            assert(a.skip(1) =~= b.skip(1));
        }
    } else if a.len() != 0 && b.len() != 0 {
        assert(a[0] != b[0]);
        assert(a[0] < b[0] || b[0] < a[0]);
    }
}

/// `lex_less` is transitive, also in its mixed forms with `lex_leq`.
pub proof fn lemma_lex_trans(a: Seq<char>, b: Seq<char>, c: Seq<char>)
    requires
        lex_leq(a, b),
        lex_leq(b, c),
    ensures
        lex_leq(a, c),
        lex_less(a, b) || lex_less(b, c) ==> lex_less(a, c),
    decreases a.len(),
{
    if a == b || b == c {
    } else {
        if c.len() == 0 {
            lemma_lex_total(b, c);
            assert(false);
        } else if b.len() == 0 {
            lemma_lex_total(a, b);
            assert(false);
        } else if a.len() == 0 {
        } else {
            if a[0] == b[0] && b[0] == c[0] {
                lemma_lex_trans(a.skip(1), b.skip(1), c.skip(1));
                if a.skip(1) == b.skip(1) {
                    lemma_lex_total(a, b);
                    assert(a != b ==> lex_less(a, b) || lex_less(b, a));
                    assert(lex_less(a, b) <==> lex_less(a.skip(1), b.skip(1)));
                    assert(lex_less(b, a) <==> lex_less(b.skip(1), a.skip(1)));
                    lemma_lex_total(a.skip(1), b.skip(1));
                    assert(false);
                }
                if b.skip(1) == c.skip(1) {
                    lemma_lex_total(b, c);
                    lemma_lex_total(b.skip(1), c.skip(1));
                    assert(false);
                }
            } else if a[0] == b[0] {
                assert(b[0] < c[0]);
                assert(lex_less(a, c));
            } else if b[0] == c[0] {
                assert(a[0] < b[0]);
                assert(lex_less(a, c));
            } else {
                assert(a[0] < b[0] && b[0] < c[0]);
                assert(lex_less(a, c));
            }
        }
    }
}

/// Shifting a common first character off both sequences keeps their order.
proof fn lemma_lex_skip(a: Seq<char>, b: Seq<char>, i: int)
    requires
        0 <= i < a.len(),
        0 <= i < b.len(),
        a[i] == b[i],
    ensures
        lex_less(a.skip(i), b.skip(i)) == lex_less(a.skip(i + 1), b.skip(i + 1)),
{
    assert(a.skip(i).len() != 0 && b.skip(i).len() != 0);
    assert(a.skip(i)[0] == a[i]);
    assert(b.skip(i)[0] == b[i]);
    assert(a.skip(i).skip(1) =~= a.skip(i + 1));
    assert(b.skip(i).skip(1) =~= b.skip(i + 1));
}

/// Decides `lex_less(a@, b@)`.
pub fn lex_less_chars(a: &Vec<char>, b: &Vec<char>) -> (r: bool)
    ensures
        r == lex_less(a@, b@),
{
    let n: usize = if a.len() < b.len() { a.len() } else { b.len() };
    let mut i: usize = 0;
    assert(a@.skip(0) =~= a@);
    assert(b@.skip(0) =~= b@);
    while i < n
        invariant
            i <= n,
            n == if a@.len() < b@.len() { a@.len() } else { b@.len() },
            lex_less(a@, b@) == lex_less(a@.skip(i as int), b@.skip(i as int)),
        decreases n - i,
    {
        if a[i] != b[i] {
            assert(a@.skip(i as int)[0] == a@[i as int]);
            assert(b@.skip(i as int)[0] == b@[i as int]);
            return a[i] < b[i];
        }
        proof {
            lemma_lex_skip(a@, b@, i as int);
        }
        i += 1;
    }
    if a.len() < b.len() {
        assert(a@.skip(i as int).len() == 0 && b@.skip(i as int).len() != 0);
        true
    } else {
        assert(b@.skip(i as int).len() == 0);
        false
    }
}

/// Whether `c` ends a trailing segment, under a choice of boundary sets:
/// whitespace and/or the path separator.
pub open spec fn is_boundary(c: char, spaces: bool, slashes: bool) -> bool {
    (spaces && is_space(c)) || (slashes && c == '/')
}

/// Index just past the last boundary character of `s`: where the trailing
/// segment begins. 0 when `s` holds no boundary character.
pub open spec fn cut_start(s: Seq<char>, spaces: bool, slashes: bool) -> int
    decreases s.len(),
{
    if s.len() == 0 {
        0
    } else if is_boundary(s[s.len() - 1], spaces, slashes) {
        s.len() as int
    } else {
        cut_start(s.drop_last(), spaces, slashes)
    }
}

/// The trailing segment starts inside the line, everything from it on is
/// segment text (no boundary character), and a boundary character stands
/// right before it unless it is the whole line.
pub proof fn lemma_cut_start_bounds(s: Seq<char>, spaces: bool, slashes: bool)
    ensures
        0 <= cut_start(s, spaces, slashes) <= s.len(),
        forall|k: int|
            cut_start(s, spaces, slashes) <= k < s.len() ==> !is_boundary(
                #[trigger] s[k],
                spaces,
                slashes,
            ),
        cut_start(s, spaces, slashes) > 0 ==> is_boundary(
            s[cut_start(s, spaces, slashes) - 1],
            spaces,
            slashes,
        ),
    decreases s.len(),
{
    if s.len() != 0 && !is_boundary(s[s.len() - 1], spaces, slashes) {
        lemma_cut_start_bounds(s.drop_last(), spaces, slashes);
        assert(forall|k: int| 0 <= k < s.len() - 1 ==> #[trigger] s[k] == s.drop_last()[k]);
    }
}

/// Finds where the trailing segment of `s` begins.
pub fn find_cut_start(s: &Vec<char>, spaces: bool, slashes: bool) -> (r: usize)
    ensures
        r == cut_start(s@, spaces, slashes),
        r <= s@.len(),
{
    proof {
        lemma_cut_start_bounds(s@, spaces, slashes);
    }
    let mut i: usize = s.len();
    assert(s@.subrange(0, i as int) =~= s@);
    while i > 0
        invariant
            i <= s@.len(),
            cut_start(s@, spaces, slashes) == cut_start(
                s@.subrange(0, i as int),
                spaces,
                slashes,
            ),
        decreases i,
    {
        let c = s[i - 1];
        let hit = (spaces && is_space_char(c)) || (slashes && c == '/');
        proof {
            assert(s@.subrange(0, i as int)[i - 1] == s@[i - 1]);
        }
        if hit {
            return i;
        }
        proof {
            assert(s@.subrange(0, i as int).drop_last() =~= s@.subrange(0, i - 1));
        }
        i -= 1;
    }
    0
}

/// Copies the tail of a character vector from position `from` on.
pub fn tail_from(src: &Vec<char>, from: usize) -> (r: Vec<char>)
    requires
        from <= src@.len(),
    ensures
        r@ == src@.skip(from as int),
{
    let mut r: Vec<char> = Vec::new();
    let mut k: usize = from;
    while k < src.len()
        invariant
            from <= k <= src@.len(),
            r@ == src@.subrange(from as int, k as int),
        decreases src@.len() - k,
    {
        r.push(src[k]);
        assert(r@ =~= src@.subrange(from as int, k + 1 as int));
        k += 1;
    }
    assert(r@ =~= src@.skip(from as int));
    r
}

/// Copies a character vector.
pub fn copy_chars(src: &Vec<char>) -> (r: Vec<char>)
    ensures
        r@ == src@,
{
    let mut r: Vec<char> = Vec::new();
    let mut i: usize = 0;
    while i < src.len()
        invariant
            i <= src.len(),
            r@ == src@.subrange(0, i as int),
        decreases src.len() - i,
    {
        r.push(src[i]);
        assert(r@ =~= src@.subrange(0, i + 1 as int));
        i += 1;
    }
    assert(r@ =~= src@);
    r
}

} // verus!
