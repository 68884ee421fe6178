//! The dispatcher: whitespace tokenization of a confirmed line and its
//! reading as a built-in directive or an external command.

use crate::text::{is_space, is_space_char};
use vstd::prelude::*;

verus! {

/// First position at or after `i` holding a whitespace character, or the end
/// of the line: where the token starting at `i` stops.
pub open spec fn token_end(s: Seq<char>, i: int) -> int
    decreases s.len() - i,
{
    if i < 0 || i >= s.len() {
        i
    } else if is_space(s[i]) {
        i
    } else {
        token_end(s, i + 1)
    }
}

/// `token_end` stays between `i` and the end, scans over no whitespace, and
/// stops at whitespace or the end.
pub proof fn lemma_token_end(s: Seq<char>, i: int)
    requires
        0 <= i <= s.len(),
    ensures
        i <= token_end(s, i) <= s.len(),
        forall|k: int| i <= k < token_end(s, i) ==> !is_space(#[trigger] s[k]),
        token_end(s, i) == s.len() || is_space(s[token_end(s, i)]),
    decreases s.len() - i,
{
    if i < s.len() && !is_space(s[i]) {
        lemma_token_end(s, i + 1);
    }
}

/// A maximal run of non-whitespace ending at whitespace or the line's end is
/// exactly what `token_end` finds.
pub proof fn lemma_token_end_scan(s: Seq<char>, i: int, e: int)
    requires
        0 <= i <= e <= s.len(),
        forall|k: int| i <= k < e ==> !is_space(#[trigger] s[k]),
        e == s.len() || is_space(s[e]),
    ensures
        token_end(s, i) == e,
    decreases e - i,
{
    if i < e {
        lemma_token_end_scan(s, i + 1, e);
    }
}

/// The whitespace-delimited tokens of `s` from position `i` on: maximal
/// non-whitespace runs, in order, with no empty pieces.
pub open spec fn tokens_from(s: Seq<char>, i: int) -> Seq<Seq<char>>
    decreases s.len() - i,
        via tokens_from_dec
{
    if i < 0 || i >= s.len() {
        Seq::empty()
    } else if is_space(s[i]) {
        tokens_from(s, i + 1)
    } else {
        seq![s.subrange(i, token_end(s, i))] + tokens_from(s, token_end(s, i))
    }
}

#[via_fn]
proof fn tokens_from_dec(s: Seq<char>, i: int) {
    if 0 <= i && i < s.len() && !is_space(s[i]) {
        lemma_token_end(s, i + 1);
    }
}

/// The tokens of the whole line.
pub open spec fn tokens_of(s: Seq<char>) -> Seq<Seq<char>> {
    tokens_from(s, 0)
}

/// Splits the line at whitespace into its tokens, dropping the whitespace
/// and keeping no empty pieces.
pub fn tokenize(s: &Vec<char>) -> (r: Vec<Vec<char>>)
    ensures
        r@.len() == tokens_of(s@).len(),
        forall|k: int| 0 <= k < r@.len() ==> r@[k]@ == #[trigger] tokens_of(s@)[k],
{
    let mut r: Vec<Vec<char>> = Vec::new();
    let mut i: usize = 0;
    while i < s.len()
        invariant
            i <= s@.len(),
            tokens_of(s@) == r.deep_view() + tokens_from(s@, i as int),
            forall|k: int| 0 <= k < r@.len() ==> #[trigger] r.deep_view()[k] == r@[k]@,
        decreases s@.len() - i,
    {
        if is_space_char(s[i]) {
            i += 1;
        } else {
            let start = i;
            let mut t: Vec<char> = Vec::new();
            while i < s.len() && !is_space_char(s[i])
                invariant
                    start <= i <= s@.len(),
                    start < s@.len(),
                    !is_space(s@[start as int]),
                    forall|k: int| start <= k < i ==> !is_space(#[trigger] s@[k]),
                    t@ == s@.subrange(start as int, i as int),
                decreases s@.len() - i,
            {
                t.push(s[i]);
                assert(t@ =~= s@.subrange(start as int, i + 1 as int));
                i += 1;
            }
            proof {
                lemma_token_end_scan(s@, start as int, i as int);
                assert(tokens_from(s@, start as int) == seq![s@.subrange(
                    start as int,
                    i as int,
                )] + tokens_from(s@, i as int));
            }
            let ghost pre = r.deep_view();
            r.push(t);
            proof {
                assert(r.deep_view() =~~= pre.push(t@));
                assert(r.deep_view() + tokens_from(s@, i as int) =~~= pre + tokens_from(
                    s@,
                    start as int,
                ));
            }
        }
    }
    proof {
        assert(tokens_of(s@) =~~= r.deep_view());
    }
    r
}

/// What a confirmed line asks for.
pub enum Directive {
    /// An empty line: nothing to do.
    Empty,
    /// The change-directory built-in, with the path to move to.
    ChangeDir(Vec<char>),
    /// The exit built-in: the session terminates at once with status 0.
    Exit,
    /// An external command with its arguments, run to completion in the
    /// foreground.
    Spawn { program: Vec<char>, args: Vec<Vec<char>> },
}

/// The word naming the change-directory built-in.
pub open spec fn cd_word() -> Seq<char> {
    seq!['c', 'd']
}

/// The word naming the exit built-in.
pub open spec fn exit_word() -> Seq<char> {
    seq!['e', 'x', 'i', 't']
}

/// The path a bare change-directory falls back to.
pub open spec fn root_word() -> Seq<char> {
    seq!['/']
}

/// The report for a spawn that failed because no such program exists: the
/// program's name quoted after a fixed heading.
pub open spec fn unknown_command_text(program: Seq<char>) -> Seq<char> {
    seq!['U', 'n', 'k', 'n', 'o', 'w', 'n', ' ', 'C', 'o', 'm', 'm', 'a', 'n', 'd', ':', ' ', '"']
        + program + seq!['"']
}

/// Builds the not-found report for `program`, word for word what the
/// session prints on its error stream.
pub fn unknown_command_report(program: &Vec<char>) -> (r: Vec<char>)
    ensures
        r@ == unknown_command_text(program@),
{
    let mut r: Vec<char> = Vec::new();
    r.push('U');
    r.push('n');
    r.push('k');
    r.push('n');
    r.push('o');
    r.push('w');
    r.push('n');
    r.push(' ');
    r.push('C');
    r.push('o');
    r.push('m');
    r.push('m');
    r.push('a');
    r.push('n');
    r.push('d');
    r.push(':');
    r.push(' ');
    r.push('"');
    let ghost heading = r@;
    assert(heading =~= unknown_command_text(program@).subrange(0, 18));
    let mut i: usize = 0;
    while i < program.len()
        invariant
            i <= program@.len(),
            r@ == heading + program@.subrange(0, i as int),
        decreases program@.len() - i,
    {
        r.push(program[i]);
        assert(r@ =~= heading + program@.subrange(0, i + 1 as int));
        i += 1;
    }
    r.push('"');
    assert(r@ =~= unknown_command_text(program@));
    r
}

/// Reads a confirmed line: no tokens is an empty directive; a first token
/// `exit` terminates whatever follows it; a first token `cd` changes to the
/// first argument, or to the root when none is given; anything else spawns
/// the first token with the remaining tokens as arguments.
pub fn parse_line(line: &Vec<char>) -> (d: Directive)
    ensures
        tokens_of(line@).len() == 0 <==> d is Empty,
        tokens_of(line@).len() > 0 && tokens_of(line@)[0] == exit_word() ==> d is Exit,
        d is Exit ==> tokens_of(line@).len() > 0 && tokens_of(line@)[0] == exit_word(),
        tokens_of(line@).len() > 0 && tokens_of(line@)[0] == cd_word() ==> (d matches
            Directive::ChangeDir(p) && p@ == if tokens_of(line@).len() > 1 {
            tokens_of(line@)[1]
        } else {
            root_word()
        }),
        tokens_of(line@).len() > 0 && tokens_of(line@)[0] != exit_word() && tokens_of(line@)[0]
            != cd_word() ==> (d matches Directive::Spawn { program, args } && program@ == tokens_of(
            line@,
        )[0] && args@.len() == tokens_of(line@).len() - 1 && forall|k: int|
            0 <= k < args@.len() ==> args@[k]@ == #[trigger] tokens_of(line@)[k + 1]),
{
    let mut ts = tokenize(line);
    if ts.len() == 0 {
        Directive::Empty
    } else {
        let first_exit = ts[0].len() == 4 && {
            let t = &ts[0];
            t[0] == 'e' && t[1] == 'x' && t[2] == 'i' && t[3] == 't'
        };
        let first_cd = ts[0].len() == 2 && {
            let t = &ts[0];
            t[0] == 'c' && t[1] == 'd'
        };
        proof {
            assert(first_exit == (ts@[0]@ =~= exit_word()));
            assert(first_cd == (ts@[0]@ =~= cd_word()));
        }
        if first_exit {
            Directive::Exit
        } else if first_cd {
            if ts.len() >= 2 {
                Directive::ChangeDir(ts.remove(1))
            } else {
                let mut p: Vec<char> = Vec::new();
                p.push('/');
                assert(p@ =~= root_word());
                Directive::ChangeDir(p)
            }
        } else {
            let program = ts.remove(0);
            Directive::Spawn { program, args: ts }
        }
    }
}

} // verus!
