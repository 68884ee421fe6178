//! The completion engine: prefix matching of directory entries against the
//! trailing segment of the line, the inline suggestion (lexicographically
//! smallest match), the candidate menu with its cyclic highlight, the search
//! scope of the listing, and the rewrite of the line when a candidate is
//! accepted.

use crate::text::{
    cut_start, find_cut_start, is_prefix_of, is_space, is_space_char, lemma_cut_start_bounds,
    lemma_lex_total, lemma_lex_trans, lex_leq, lex_less, lex_less_chars, starts_with,
};
use vstd::prelude::*;

verus! {

/// One filesystem entry offered for completion: its name and whether it is a
/// directory (directories gain a trailing separator in the suggestion).
pub struct Candidate {
    pub name: Vec<char>,
    pub is_dir: bool,
}

/// Where the trailing whitespace-delimited token of the line begins.
pub open spec fn token_start(s: Seq<char>) -> int {
    cut_start(s, true, false)
}

/// Where the prefix to match begins: after the last whitespace or path
/// separator, whichever comes later.
pub open spec fn seg_start(s: Seq<char>) -> int {
    cut_start(s, true, true)
}

/// The typed prefix that candidates are matched against: the last
/// `/`-delimited segment of the last whitespace-delimited token.
pub open spec fn typed_prefix(s: Seq<char>) -> Seq<char> {
    s.skip(seg_start(s))
}

/// Entry `i` exists and its name starts with the typed prefix.
pub open spec fn matches_at(entries: Seq<Candidate>, prefix: Seq<char>, i: int) -> bool {
    0 <= i < entries.len() && is_prefix_of(prefix, entries[i].name@)
}

/// Entry `j` is the inline winner: it matches, no match has a
/// lexicographically smaller name, and every earlier match is strictly
/// larger (so the first directory scanned wins a tie between equal names).
pub open spec fn is_best_at(entries: Seq<Candidate>, prefix: Seq<char>, j: int) -> bool {
    &&& matches_at(entries, prefix, j)
    &&& forall|i: int|
        matches_at(entries, prefix, i) ==> lex_leq(entries[j].name@, #[trigger] entries[i].name@)
    &&& forall|i: int|
        0 <= i < j && matches_at(entries, prefix, i) ==> lex_less(
            entries[j].name@,
            #[trigger] entries[i].name@,
        )
}

/// A candidate's name as the suggestion sees it: directories carry a
/// trailing separator.
pub open spec fn decorated(c: Candidate) -> Seq<char> {
    if c.is_dir {
        c.name@ + seq!['/']
    } else {
        c.name@
    }
}

/// What remains of the winner's decorated name past the typed prefix.
pub open spec fn remainder_at(entries: Seq<Candidate>, prefix: Seq<char>, j: int) -> Seq<char> {
    decorated(entries[j]).skip(prefix.len() as int)
}

/// Finds the inline winner among `entries`: the first entry whose name is
/// the lexicographically smallest one starting with `prefix`.
pub fn best_match(prefix: &Vec<char>, entries: &Vec<Candidate>) -> (r: Option<usize>)
    ensures
        r is None ==> forall|i: int| !matches_at(entries@, prefix@, i),
        r matches Some(j) ==> is_best_at(entries@, prefix@, j as int),
{
    let mut found = false;
    let mut best: usize = 0;
    let mut i: usize = 0;
    while i < entries.len()
        invariant
            i <= entries@.len(),
            !found ==> forall|k: int| 0 <= k < i ==> !matches_at(entries@, prefix@, k),
            found ==> best < i && matches_at(entries@, prefix@, best as int),
            found ==> forall|k: int|
                0 <= k < i && matches_at(entries@, prefix@, k) ==> lex_leq(
                    entries@[best as int].name@,
                    #[trigger] entries@[k].name@,
                ),
            found ==> forall|k: int|
                0 <= k < best && matches_at(entries@, prefix@, k) ==> lex_less(
                    entries@[best as int].name@,
                    #[trigger] entries@[k].name@,
                ),
        decreases entries@.len() - i,
    {
        if starts_with(&entries[i].name, prefix) {
            if !found {
                found = true;
                best = i;
            } else if lex_less_chars(&entries[i].name, &entries[best].name) {
                proof {
                    let a = entries@[i as int].name@;
                    let b = entries@[best as int].name@;
                    assert forall|k: int|
                        0 <= k < i && matches_at(entries@, prefix@, k) implies lex_less(
                        a,
                        #[trigger] entries@[k].name@,
                    ) by {
                        lemma_lex_trans(a, b, entries@[k].name@);
                    }
                }
                best = i;
            } else {
                proof {
                    lemma_lex_total(
                        entries@[i as int].name@,
                        entries@[best as int].name@,
                    );
                }
            }
        }
        i += 1;
    }
    if found {
        Some(best)
    } else {
        None
    }
}

/// The inline winner is one entry: any two indices that both satisfy
/// `is_best_at` coincide.
pub proof fn lemma_best_unique(entries: Seq<Candidate>, prefix: Seq<char>, j1: int, j2: int)
    requires
        is_best_at(entries, prefix, j1),
        is_best_at(entries, prefix, j2),
    ensures
        j1 == j2,
{
    if j1 < j2 {
        lemma_lex_total(entries[j2].name@, entries[j1].name@);
    } else if j2 < j1 {
        lemma_lex_total(entries[j1].name@, entries[j2].name@);
    }
}

/// Computes the inline suggestion for `prefix` over `entries`: what remains
/// of the winner's name — with a trailing separator when it names a
/// directory — past the typed prefix, or nothing when no name matches.
pub fn suggestion_for(prefix: &Vec<char>, entries: &Vec<Candidate>) -> (r: Vec<char>)
    ensures
        (forall|i: int| !matches_at(entries@, prefix@, i)) ==> r@.len() == 0,
        (exists|i: int| matches_at(entries@, prefix@, i)) ==> exists|j: int|
            is_best_at(entries@, prefix@, j),
        forall|j: int|
            is_best_at(entries@, prefix@, j) ==> r@ == remainder_at(entries@, prefix@, j),
{
    match best_match(prefix, entries) {
        None => {
            Vec::new()
        },
        Some(j) => {
            let name = &entries[j].name;
            let mut r: Vec<char> = Vec::new();
            let mut k: usize = prefix.len();
            assert(is_prefix_of(prefix@, name@));
            while k < name.len()
                invariant
                    prefix@.len() <= k <= name@.len(),
                    name@ == entries@[j as int].name@,
                    j < entries@.len(),
                    r@ == name@.subrange(prefix@.len() as int, k as int),
                decreases name@.len() - k,
            {
                r.push(name[k]);
                assert(r@ =~= name@.subrange(prefix@.len() as int, k + 1 as int));
                k += 1;
            }
            assert(r@ =~= name@.skip(prefix@.len() as int));
            if entries[j].is_dir {
                r.push('/');
                assert(r@ =~= decorated(entries@[j as int]).skip(prefix@.len() as int));
            } else {
                assert(r@ =~= decorated(entries@[j as int]).skip(prefix@.len() as int));
            }
            proof {
                assert forall|j2: int|
                    is_best_at(entries@, prefix@, j2) implies r@ == remainder_at(
                    entries@,
                    prefix@,
                    j2,
                ) by {
                    lemma_best_unique(entries@, prefix@, j as int, j2);
                }
            }
            r
        },
    }
}

/// The names among `entries` that start with `prefix`, in listing order:
/// what the candidate menu shows.
pub open spec fn matching_names(entries: Seq<Candidate>, prefix: Seq<char>) -> Seq<Seq<char>>
    decreases entries.len(),
{
    if entries.len() == 0 {
        Seq::empty()
    } else {
        let rest = matching_names(entries.drop_last(), prefix);
        if is_prefix_of(prefix, entries.last().name@) {
            rest.push(entries.last().name@)
        } else {
            rest
        }
    }
}

/// Collects the matching names in listing order, unsorted, as the menu
/// presents them.
pub fn matched_names(prefix: &Vec<char>, entries: &Vec<Candidate>) -> (r: Vec<Vec<char>>)
    ensures
        r@.len() == matching_names(entries@, prefix@).len(),
        forall|k: int|
            0 <= k < r@.len() ==> r@[k]@ == #[trigger] matching_names(entries@, prefix@)[k],
{
    let ghost all = entries@;
    let mut r: Vec<Vec<char>> = Vec::new();
    let mut i: usize = 0;
    assert(entries@.subrange(0, 0) =~= Seq::<Candidate>::empty());
    while i < entries.len()
        invariant
            i <= entries@.len(),
            r@.len() == matching_names(entries@.subrange(0, i as int), prefix@).len(),
            forall|k: int|
                0 <= k < r@.len() ==> r@[k]@ == #[trigger] matching_names(
                    entries@.subrange(0, i as int),
                    prefix@,
                )[k],
        decreases entries@.len() - i,
    {
        let ghost pre = entries@.subrange(0, i as int);
        let ghost cur = entries@.subrange(0, i + 1 as int);
        proof {
            assert(cur.drop_last() =~= pre);
            assert(cur.last() == entries@[i as int]);
        }
        if starts_with(&entries[i].name, prefix) {
            let name = crate::text::copy_chars(&entries[i].name);
            r.push(name);
        }
        i += 1;
    }
    proof {
        assert(entries@.subrange(0, entries@.len() as int) =~= entries@);
    }
    r
}

/// Widening the boundary set can only move the segment start rightward: the
/// prefix to match starts at or after the last token.
pub proof fn lemma_seg_after_token(s: Seq<char>)
    ensures
        token_start(s) <= seg_start(s),
    decreases s.len(),
{
    if s.len() != 0 {
        if crate::text::is_boundary(s[s.len() - 1], true, true) {
            lemma_cut_start_bounds(s, true, false);
        } else {
            lemma_seg_after_token(s.drop_last());
        }
    }
}

/// Where a directory listing for completion is taken from.
pub enum Scope {
    /// Each directory of the search-path variable, in listed order: the
    /// line is completing a command name.
    SearchPath,
    /// The named directory, resolved relative to the working directory; the
    /// listing falls back to the working directory itself when this path
    /// cannot be read.
    Directory(Vec<char>),
}

/// The line is completing a command name: the trailing token holds no path
/// separator and nothing but whitespace stands before it.
pub open spec fn command_position(s: Seq<char>) -> bool {
    seg_start(s) == token_start(s) && forall|k: int| 0 <= k < token_start(s) ==> is_space(#[trigger] s[k])
}

/// The directory named by the trailing token's path portion, made relative
/// to the working directory: `.` followed by the token up to its last
/// separator; plain `.` when the token holds none.
pub open spec fn scope_dir(s: Seq<char>) -> Seq<char> {
    if seg_start(s) > token_start(s) {
        seq!['.'] + seq!['/'] + s.subrange(token_start(s), seg_start(s) - 1)
    } else {
        seq!['.']
    }
}

/// Builds the trailing token's directory as a relative path: what
/// `scope_dir` names.
pub fn scope_dir_of(line: &Vec<char>) -> (r: Vec<char>)
    ensures
        r@ == scope_dir(line@),
{
    proof {
        lemma_seg_after_token(line@);
        lemma_cut_start_bounds(line@, true, true);
    }
    let tok = find_cut_start(line, true, false);
    let seg = find_cut_start(line, true, true);
    if seg == tok {
        let mut d: Vec<char> = Vec::new();
        d.push('.');
        assert(d@ =~= scope_dir(line@));
        d
    } else {
        let mut d: Vec<char> = Vec::new();
        d.push('.');
        d.push('/');
        let mut k: usize = tok;
        while k < seg - 1
            invariant
                tok <= k <= seg - 1,
                seg <= line@.len(),
                d@ == seq!['.'] + seq!['/'] + line@.subrange(tok as int, k as int),
            decreases seg - 1 - k,
        {
            d.push(line[k]);
            assert(d@ =~= seq!['.'] + seq!['/'] + line@.subrange(tok as int, k + 1 as int));
            k += 1;
        }
        assert(d@ == scope_dir(line@));
        d
    }
}

/// Chooses the listing scope for the inline suggestion: the search path in
/// command position, otherwise the token's directory.
pub fn compute_scope(line: &Vec<char>) -> (r: Scope)
    ensures
        command_position(line@) ==> r is SearchPath,
        !command_position(line@) ==> (r matches Scope::Directory(d) && d@ == scope_dir(line@)),
{
    proof {
        lemma_seg_after_token(line@);
        lemma_cut_start_bounds(line@, true, true);
    }
    let tok = find_cut_start(line, true, false);
    let seg = find_cut_start(line, true, true);
    if seg == tok {
        let mut all_spaces = true;
        let mut k: usize = 0;
        while k < tok
            invariant
                k <= tok <= line@.len(),
                all_spaces == forall|m: int| 0 <= m < k ==> is_space(#[trigger] line@[m]),
            decreases tok - k,
        {
            if !is_space_char(line[k]) {
                all_spaces = false;
            }
            k += 1;
        }
        if all_spaces {
            return Scope::SearchPath;
        }
    }
    Scope::Directory(scope_dir_of(line))
}

/// Copies out the typed prefix: the trailing segment that candidate names
/// are matched against.
pub fn typed_prefix_of(line: &Vec<char>) -> (r: Vec<char>)
    ensures
        r@ == typed_prefix(line@),
{
    let cut = find_cut_start(line, true, true);
    let mut r: Vec<char> = Vec::new();
    let mut k: usize = cut;
    while k < line.len()
        invariant
            cut <= k <= line@.len(),
            r@ == line@.subrange(cut as int, k as int),
        decreases line@.len() - k,
    {
        r.push(line[k]);
        assert(r@ =~= line@.subrange(cut as int, k + 1 as int));
        k += 1;
    }
    assert(r@ =~= line@.skip(cut as int));
    r
}

/// First position at or after `i` holding the search-path separator `:`, or
/// the end of the text.
pub open spec fn piece_end(s: Seq<char>, i: int) -> int
    decreases s.len() - i,
{
    if i < 0 || i >= s.len() {
        i
    } else if s[i] == ':' {
        i
    } else {
        piece_end(s, i + 1)
    }
}

/// `piece_end` stays between `i` and the end of the text.
pub proof fn lemma_piece_end(s: Seq<char>, i: int)
    requires
        0 <= i <= s.len(),
    ensures
        i <= piece_end(s, i) <= s.len(),
    decreases s.len() - i,
{
    if i < s.len() && s[i] != ':' {
        lemma_piece_end(s, i + 1);
    }
}

/// A run without `:` that stops at `:` or at the end is exactly what
/// `piece_end` finds.
pub proof fn lemma_piece_end_scan(s: Seq<char>, i: int, e: int)
    requires
        0 <= i <= e <= s.len(),
        forall|k: int| i <= k < e ==> #[trigger] s[k] != ':',
        e == s.len() || s[e] == ':',
    ensures
        piece_end(s, i) == e,
    decreases e - i,
{
    if i < e {
        lemma_piece_end_scan(s, i + 1, e);
    }
}

/// The `:`-separated pieces of the search-path variable from `i` on, in
/// listed order; empty pieces are kept.
pub open spec fn pieces_from(s: Seq<char>, i: int) -> Seq<Seq<char>>
    decreases s.len() - i,
        via pieces_from_dec
{
    let e = piece_end(s, i);
    if e >= s.len() {
        seq![s.subrange(i, s.len() as int)]
    } else {
        seq![s.subrange(i, e)] + pieces_from(s, e + 1)
    }
}

#[via_fn]
proof fn pieces_from_dec(s: Seq<char>, i: int) {
    if 0 <= i && i <= s.len() {
        lemma_piece_end(s, i);
    }
}

/// Splits the search-path variable at `:` into its directories, in listed
/// order, keeping empty pieces.
pub fn split_search_path(s: &Vec<char>) -> (r: Vec<Vec<char>>)
    ensures
        r@.len() == pieces_from(s@, 0).len(),
        forall|k: int| 0 <= k < r@.len() ==> r@[k]@ == #[trigger] pieces_from(s@, 0)[k],
{
    let mut r: Vec<Vec<char>> = Vec::new();
    let mut cur: Vec<char> = Vec::new();
    let mut start: usize = 0;
    let mut i: usize = 0;
    while i < s.len()
        invariant
            start <= i <= s@.len(),
            cur@ == s@.subrange(start as int, i as int),
            forall|k: int| start <= k < i ==> #[trigger] s@[k] != ':',
            pieces_from(s@, 0) == r.deep_view() + pieces_from(s@, start as int),
            forall|k: int| 0 <= k < r@.len() ==> #[trigger] r.deep_view()[k] == r@[k]@,
        decreases s@.len() - i,
    {
        if s[i] == ':' {
            proof {
                lemma_piece_end_scan(s@, start as int, i as int);
            }
            let ghost pre = r.deep_view();
            r.push(cur);
            proof {
                assert(r.deep_view() =~~= pre.push(s@.subrange(start as int, i as int)));
                assert(pieces_from(s@, start as int) == seq![s@.subrange(start as int, i as int)]
                    + pieces_from(s@, i + 1));
                assert(r.deep_view() + pieces_from(s@, i + 1) =~~= pre + pieces_from(
                    s@,
                    start as int,
                ));
            }
            cur = Vec::new();
            i += 1;
            start = i;
            assert(cur@ =~= s@.subrange(start as int, i as int));
        } else {
            cur.push(s[i]);
            assert(cur@ =~= s@.subrange(start as int, i + 1 as int));
            i += 1;
        }
    }
    proof {
        lemma_piece_end_scan(s@, start as int, s@.len() as int);
        assert(pieces_from(s@, start as int) == seq![s@.subrange(start as int, s@.len() as int)]);
    }
    let ghost pre = r.deep_view();
    r.push(cur);
    proof {
        assert(r.deep_view() =~~= pre.push(s@.subrange(start as int, s@.len() as int)));
        assert(pieces_from(s@, 0) =~~= r.deep_view());
    }
    r
}

/// The candidate menu: whether it is shown, whether an entry is actively
/// selected, and which one.
pub struct CompletionState {
    pub menu_visible: bool,
    pub highlighting: bool,
    pub highlighted_index: usize,
}

impl CompletionState {
    /// Highlighting only happens inside a visible menu, and a hidden menu
    /// keeps no stale highlight position.
    pub open spec fn wf(self) -> bool {
        &&& self.highlighting ==> self.menu_visible
        &&& !self.menu_visible ==> !self.highlighting && self.highlighted_index == 0
    }

    /// No menu, no highlight.
    pub fn new() -> (r: CompletionState)
        ensures
            r.wf(),
            !r.menu_visible,
            !r.highlighting,
            r.highlighted_index == 0,
    {
        CompletionState { menu_visible: false, highlighting: false, highlighted_index: 0 }
    }

    /// Closes the menu and resets the highlight: the state after any
    /// structural edit and after acceptance.
    pub fn close(&mut self)
        ensures
            final(self).wf(),
            !final(self).menu_visible,
            !final(self).highlighting,
            final(self).highlighted_index == 0,
    {
        self.menu_visible = false;
        self.highlighting = false;
        self.highlighted_index = 0;
    }

    /// One completion-key press. With no candidates the menu closes at once.
    /// Otherwise: the first press opens the menu without selecting, the next
    /// begins highlighting at the current position, and each further press
    /// advances the highlight by one, wrapping to 0 when it would reach the
    /// candidate count.
    pub fn cycle(&mut self, candidate_count: usize)
        requires
            old(self).wf(),
        ensures
            final(self).wf(),
            candidate_count == 0 ==> !final(self).menu_visible && !final(self).highlighting
                && final(self).highlighted_index == 0,
            candidate_count > 0 && !old(self).menu_visible ==> final(self).menu_visible && !final(self).highlighting && final(self).highlighted_index == 0,
            candidate_count > 0 && old(self).menu_visible && !old(self).highlighting ==> final(self).menu_visible && final(self).highlighting && final(self).highlighted_index == old(self).highlighted_index,
            candidate_count > 0 && old(self).menu_visible && old(self).highlighting ==> final(self).menu_visible && final(self).highlighting && final(self).highlighted_index == if old(self).highlighted_index + 1 >= candidate_count {
                0usize
            } else {
                (old(self).highlighted_index + 1) as usize
            },
    {
        if candidate_count == 0 {
            self.close();
        } else if !self.menu_visible {
            self.menu_visible = true;
            self.highlighted_index = 0;
        } else if !self.highlighting {
            self.highlighting = true;
        } else {
            if self.highlighted_index >= candidate_count - 1 {
                self.highlighted_index = 0;
            } else {
                self.highlighted_index = self.highlighted_index + 1;
            }
        }
    }

    /// Reconciles the menu with the candidates recomputed on this tick: an
    /// empty candidate list closes it, and a highlight position past the
    /// count wraps to the first entry.
    pub fn sync_with(&mut self, candidate_count: usize)
        requires
            old(self).wf(),
        ensures
            final(self).wf(),
            old(self).menu_visible && candidate_count == 0 ==> !final(self).menu_visible
                && !final(self).highlighting && final(self).highlighted_index == 0,
            old(self).menu_visible && candidate_count > 0 ==> final(self).menu_visible == old(self).menu_visible && final(self).highlighting == old(self).highlighting && final(self).highlighted_index == if old(self).highlighted_index >= candidate_count {
                0usize
            } else {
                old(self).highlighted_index
            },
            !old(self).menu_visible ==> *final(self) == *old(self),
    {
        if self.menu_visible {
            if candidate_count == 0 {
                self.close();
            } else if self.highlighted_index >= candidate_count {
                self.highlighted_index = 0;
            }
        }
    }
}

/// Rewrites the line for an accepted candidate: everything up to the typed
/// prefix is kept and the candidate's name replaces the prefix, so the last
/// token becomes its original directory portion followed by the name.
pub fn accept_line(line: &Vec<char>, name: &Vec<char>) -> (r: Vec<char>)
    ensures
        r@ == line@.subrange(0, seg_start(line@)) + name@,
{
    let cut = find_cut_start(line, true, true);
    let mut r: Vec<char> = Vec::new();
    let mut k: usize = 0;
    while k < cut
        invariant
            k <= cut <= line@.len(),
            r@ == line@.subrange(0, k as int),
        decreases cut - k,
    {
        r.push(line[k]);
        assert(r@ =~= line@.subrange(0, k + 1 as int));
        k += 1;
    }
    let mut m: usize = 0;
    while m < name.len()
        invariant
            m <= name@.len(),
            r@ == line@.subrange(0, cut as int) + name@.subrange(0, m as int),
        decreases name@.len() - m,
    {
        r.push(name[m]);
        assert(r@ =~= line@.subrange(0, cut as int) + name@.subrange(0, m + 1 as int));
        m += 1;
    }
    assert(r@ =~= line@.subrange(0, cut as int) + name@);
    r
}

} // verus!
