//! Textual, line-oriented coverage instrumentation.
//!
//! Each source line is classified — first match wins — as a function
//! definition header, a call statement, an assignment, a branch header, a
//! throw, or a plain line, by the textual patterns below. A classified line
//! registers a coverage site and is rewritten to call the matching
//! instrumentation hook; a plain line passes through unchanged. The
//! classification is a heuristic over the line's text, not a structural
//! transform: a pattern inside a string literal or comment is still picked
//! up, a known and accepted limitation of this kind of source tool.

use vstd::prelude::*;

use crate::test_coverage_container::{
    spec_add_branch, spec_add_function, spec_add_statement, TestCoverageContainer,
};
use crate::text::{dec_str, u64_to_string};

verus! {

/// The classification of one source line.
#[derive(Debug, Clone, Copy, PartialEq, Eq, Structural)]
pub enum LineKind {
    FunctionDef,
    CallStatement,
    Assignment,
    Branch,
    Throw,
    Plain,
}

/// Whitespace as the line patterns understand it.
pub open spec fn is_space(c: char) -> bool {
    c == ' ' || c == '\t' || c == '\n' || c == '\r' || c == '\u{b}' || c == '\u{c}'
}

/// A `{` at `k`, preceded only by whitespace from `q` on.
pub open spec fn brace_after(s: Seq<char>, q: int, k: int) -> bool {
    0 <= q <= k < s.len() && s[k] == '{' && (forall|j: int| q <= j < k ==> is_space(s[j]))
}

/// A `)` at `c` whose next non-space character is `{`.
pub open spec fn close_ok(s: Seq<char>, c: int) -> bool {
    0 <= c < s.len() && s[c] == ')' && (exists|k: int| #[trigger] brace_after(s, c + 1, k))
}

/// The tail of a function header — `)` then `{` — somewhere at or after `p`.
pub open spec fn fn_tail_from(s: Seq<char>, p: int) -> bool {
    exists|c: int| p <= c && #[trigger] close_ok(s, c)
}

/// The literal `fn ` starting at `a`.
pub open spec fn fn_kw_at(s: Seq<char>, a: int) -> bool {
    0 <= a && a + 3 <= s.len() && s[a] == 'f' && s[a + 1] == 'n' && s[a + 2] == ' '
}

/// A `(` at `b` that closes a function header begun at `a`, with a nonempty
/// name between.
pub open spec fn open_ok(s: Seq<char>, a: int, b: int) -> bool {
    a + 4 <= b < s.len() && s[b] == '(' && fn_tail_from(s, b + 1)
}

/// A whole function definition header starting at `a`:
/// `fn <name>(...) {` with a nonempty name.
pub open spec fn fn_match_at(s: Seq<char>, a: int) -> bool {
    fn_kw_at(s, a) && (exists|b: int| #[trigger] open_ok(s, a, b))
}

/// Whether the line is a function definition header.
pub open spec fn is_fn_def(s: Seq<char>) -> bool {
    exists|a: int| #[trigger] fn_match_at(s, a)
}

/// Whether the line holds a call expression ended by `;`:
/// something, `(`, anything, `);`.
pub open spec fn is_call_stmt(s: Seq<char>) -> bool {
    exists|b: int, c: int|
        #![trigger s[b], s[c]]
        1 <= b < c && c + 1 < s.len() && s[b] == '(' && s[c] == ')' && s[c + 1] == ';'
}

/// Whether the line holds an assignment ended by `;`:
/// something, `=`, something, `;`.
pub open spec fn is_assignment(s: Seq<char>) -> bool {
    exists|e: int, t: int| #![trigger s[e], s[t]] 1 <= e && e + 2 <= t < s.len() && s[e] == '=' && s[t] == ';'
}

/// The literal `if` starting at `p`.
pub open spec fn if_kw_at(s: Seq<char>, p: int) -> bool {
    0 <= p && p + 2 <= s.len() && s[p] == 'i' && s[p + 1] == 'f'
}

/// The literal `else` starting at `p`.
pub open spec fn else_kw_at(s: Seq<char>, p: int) -> bool {
    0 <= p && p + 4 <= s.len() && s[p] == 'e' && s[p + 1] == 'l' && s[p + 2] == 's' && s[p + 3]
        == 'e'
}

/// Whether the line is a branch header: `if` or `else`, something, `{`.
pub open spec fn is_branch(s: Seq<char>) -> bool {
    exists|p: int, r: int|
        #![trigger s[r], s[p]]
        r < s.len() && s[r] == '{' && ((if_kw_at(s, p) && p + 2 < r) || (else_kw_at(s, p) && p + 4
            < r))
}

/// The literal `throw` starting at `p`.
pub open spec fn throw_kw_at(s: Seq<char>, p: int) -> bool {
    0 <= p && p + 5 <= s.len() && s[p] == 't' && s[p + 1] == 'h' && s[p + 2] == 'r' && s[p + 3]
        == 'o' && s[p + 4] == 'w'
}

/// Whether the line is a throw with a payload block: `throw`, something, `{`.
pub open spec fn is_throw(s: Seq<char>) -> bool {
    exists|p: int, r: int| #![trigger throw_kw_at(s, p), s[r]] throw_kw_at(s, p) && p + 5 < r < s.len() && s[r] == '{'
}

/// The classification of a line, first match wins, in this fixed order.
pub open spec fn classify(s: Seq<char>) -> LineKind {
    if is_fn_def(s) {
        LineKind::FunctionDef
    } else if is_call_stmt(s) {
        LineKind::CallStatement
    } else if is_assignment(s) {
        LineKind::Assignment
    } else if is_branch(s) {
        LineKind::Branch
    } else if is_throw(s) {
        LineKind::Throw
    } else {
        LineKind::Plain
    }
}

/// The parts of the leftmost function-header match: keyword at `a` (the
/// leftmost that completes), name ending at the first workable `(` at `b`,
/// first workable `)` at `c`, and the header's `{` at `k`.
pub open spec fn fn_def_parts(s: Seq<char>, a: int, b: int, c: int, k: int) -> bool {
    &&& fn_kw_at(s, a)
    &&& (forall|a2: int| 0 <= a2 < a ==> !fn_match_at(s, a2))
    &&& open_ok(s, a, b)
    &&& (forall|b2: int| a + 4 <= b2 < b ==> !open_ok(s, a, b2))
    &&& b + 1 <= c && close_ok(s, c)
    &&& (forall|c2: int| b + 1 <= c2 < c ==> !close_ok(s, c2))
    &&& brace_after(s, c + 1, k)
}

/// The function name of a header match: the text between `fn ` and `(`.
pub open spec fn fn_def_name(s: Seq<char>, a: int, b: int) -> Seq<char> {
    s.subrange(a + 3, b)
}

/// A line rewritten by splicing text right after the header's `{` at `k`.
pub open spec fn fn_def_rewrite(s: Seq<char>, k: int, instr: Seq<char>) -> Seq<char> {
    s.subrange(0, k + 1) + " "@ + instr + " "@ + s.subrange(k + 1, s.len() as int)
}

/// The function-hit call spliced into a function header.
pub open spec fn fn_instr(name: Seq<char>, path: Seq<char>, line: nat) -> Seq<char> {
    "rhai_test_coverage_instrument_function(\""@ + name + "\",\""@ + path + "\","@ + dec_str(line)
        + " );"@
}

/// The statement-hit call appended to a statement (or prepended to a throw).
pub open spec fn stmt_instr(path: Seq<char>, line: nat) -> Seq<char> {
    "rhai_test_coverage_instrument_statement(\""@ + path + "\","@ + dec_str(line) + " );"@
}

/// The branch-hit call appended to a branch header.
pub open spec fn branch_instr(path: Seq<char>, line: nat) -> Seq<char> {
    "rhai_test_coverage_instrument_branch(\""@ + path + "\","@ + dec_str(line) + " );"@
}

/// The characters of a line, with random access.
pub(crate) fn chars_of(line: &str) -> (r: Vec<char>)
    ensures
        r@ == line@,
{
    let n = line.unicode_len();
    let mut out: Vec<char> = Vec::new();
    let mut i: usize = 0;
    while i < n
        invariant
            i <= n,
            n == line@.len(),
            out@ =~= line@.take(i as int),
        decreases n - i,
    {
        out.push(line.get_char(i));
        proof {
            assert(out@ =~= line@.take(i + 1));
        }
        i += 1;
    }
    proof {
        assert(line@.take(n as int) =~= line@);
    }
    out
}

/// Whitespace test matching `is_space`.
fn is_space_char(c: char) -> (r: bool)
    ensures
        r == is_space(c),
{
    c == ' ' || c == '\t' || c == '\n' || c == '\r' || c == '\u{b}' || c == '\u{c}'
}

/// Finds the `{` that a header's whitespace run leads to, from `q` on.
fn find_brace_after(cs: &Vec<char>, q: usize) -> (r: Option<usize>)
    requires
        q <= cs@.len(),
    ensures
        r matches Some(k) ==> brace_after(cs@, q as int, k as int),
        r is None ==> forall|k: int| !brace_after(cs@, q as int, k),
{
    let mut j = q;
    while j < cs.len() && is_space_char(cs[j])
        invariant
            q <= j <= cs@.len(),
            forall|t: int| q <= t < j ==> is_space(cs@[t]),
        decreases cs@.len() - j,
    {
        j += 1;
    }
    if j < cs.len() && cs[j] == '{' {
        Some(j)
    } else {
        proof {
            assert forall|k: int| !brace_after(cs@, q as int, k) by {
                if brace_after(cs@, q as int, k) {
                    if j < cs@.len() {
                        if k < j {
                            assert(is_space(cs@[k]));
                        } else if k == j {
                            assert(cs@[k] == '{');
                        } else {
                            assert(is_space(cs@[j as int]));
                        }
                    } else {
                        assert(is_space(cs@[k]));
                    }
                }
            }
        }
        None
    }
}

/// Finds the first workable `)` — one followed (over whitespace) by `{` —
/// at or after `p`.
fn find_close(cs: &Vec<char>, p: usize) -> (r: Option<(usize, usize)>)
    requires
        p <= cs@.len(),
    ensures
        r matches Some((c, k)) ==> p <= c && close_ok(cs@, c as int) && brace_after(
            cs@,
            c as int + 1,
            k as int,
        ) && (forall|c2: int| p <= c2 < c ==> !close_ok(cs@, c2)),
        r is None ==> forall|c2: int| p <= c2 ==> !close_ok(cs@, c2),
{
    let mut c = p;
    while c < cs.len()
        invariant
            p <= c <= cs@.len(),
            forall|c2: int| p <= c2 < c ==> !close_ok(cs@, c2),
        decreases cs@.len() - c,
    {
        if cs[c] == ')' {
            match find_brace_after(cs, c + 1) {
                Some(k) => {
                    return Some((c, k));
                },
                None => {
                    proof {
                        assert(!close_ok(cs@, c as int));
                    }
                },
            }
        }
        c += 1;
    }
    None
}

/// Finds the first `(` after the keyword at `a` whose tail completes a
/// header; returns it with its workable `)` and the header's `{`.
fn find_open(cs: &Vec<char>, a: usize) -> (r: Option<(usize, usize, usize)>)
    requires
        a < cs@.len(),
    ensures
        r matches Some((b, c, k)) ==> open_ok(cs@, a as int, b as int) && (forall|b2: int|
            a + 4 <= b2 < b ==> !open_ok(cs@, a as int, b2)) && b + 1 <= c && close_ok(
            cs@,
            c as int,
        ) && (forall|c2: int| b + 1 <= c2 < c ==> !close_ok(cs@, c2)) && brace_after(
            cs@,
            c as int + 1,
            k as int,
        ),
        r is None ==> forall|b2: int| !open_ok(cs@, a as int, b2),
{
    let n = cs.len();
    if n - a < 4 {
        proof {
            assert forall|b2: int| !open_ok(cs@, a as int, b2) by {
                if open_ok(cs@, a as int, b2) {
                    assert(a + 4 <= b2 < cs@.len());
                }
            }
        }
        return None;
    }
    let mut b = a + 4;
    while b < n
        invariant
            a + 4 <= b,
            n == cs@.len(),
            forall|b2: int| a + 4 <= b2 < b ==> !open_ok(cs@, a as int, b2),
        decreases cs@.len() - b,
    {
        if cs[b] == '(' {
            match find_close(cs, b + 1) {
                Some((c, k)) => {
                    proof {
                        assert(fn_tail_from(cs@, b as int + 1));
                    }
                    return Some((b, c, k));
                },
                None => {
                    proof {
                        assert(!fn_tail_from(cs@, b as int + 1));
                    }
                },
            }
        }
        b += 1;
    }
    proof {
        assert forall|b2: int| !open_ok(cs@, a as int, b2) by {
            if open_ok(cs@, a as int, b2) {
                assert(a + 4 <= b2 < cs@.len());
            }
        }
    }
    None
}

/// Finds the leftmost completed function header; `None` exactly when the
/// line is no function definition.
fn find_fn_def(cs: &Vec<char>) -> (r: Option<(usize, usize, usize, usize)>)
    ensures
        r matches Some((a, b, c, k)) ==> fn_def_parts(cs@, a as int, b as int, c as int, k as int),
        r is None ==> !is_fn_def(cs@),
{
    let mut a: usize = 0;
    while a < cs.len()
        invariant
            a <= cs@.len(),
            forall|a2: int| 0 <= a2 < a ==> !fn_match_at(cs@, a2),
        decreases cs@.len() - a,
    {
        if cs[a] == 'f' && cs.len() - a >= 3 && cs[a + 1] == 'n' && cs[a + 2] == ' ' {
            match find_open(cs, a) {
                Some((b, c, k)) => {
                    return Some((a, b, c, k));
                },
                None => {
                    proof {
                        assert(!fn_match_at(cs@, a as int));
                    }
                },
            }
        } else {
            proof {
                assert(!fn_kw_at(cs@, a as int));
            }
        }
        a += 1;
    }
    proof {
        assert forall|a2: int| !fn_match_at(cs@, a2) by {
            if fn_match_at(cs@, a2) {
                assert(0 <= a2 < cs@.len());
            }
        }
    }
    None
}

/// Finds the first occurrence of a character at or after `from`.
fn find_char_from(cs: &Vec<char>, from: usize, ch: char) -> (r: Option<usize>)
    ensures
        r matches Some(p) ==> from <= p < cs@.len() && cs@[p as int] == ch && (forall|q: int|
            from <= q < p ==> cs@[q] != ch),
        r is None ==> forall|q: int| from <= q < cs@.len() ==> cs@[q] != ch,
{
    let mut p = from;
    while p < cs.len()
        invariant
            from <= p,
            forall|q: int| from <= q < p ==> cs@[q] != ch,
        decreases cs@.len() - p,
    {
        if cs[p] == ch {
            return Some(p);
        }
        p += 1;
    }
    None
}

/// Finds the last occurrence of a character.
pub(crate) fn find_last_char(cs: &Vec<char>, ch: char) -> (r: Option<usize>)
    ensures
        r matches Some(p) ==> 0 <= p < cs@.len() && cs@[p as int] == ch && (forall|q: int|
            p < q < cs@.len() ==> cs@[q] != ch),
        r is None ==> forall|q: int| 0 <= q < cs@.len() ==> cs@[q] != ch,
{
    let mut p = cs.len();
    while p > 0
        invariant
            p <= cs@.len(),
            forall|q: int| p <= q < cs@.len() ==> cs@[q] != ch,
        decreases p,
    {
        p -= 1;
        if cs[p] == ch {
            return Some(p);
        }
    }
    None
}

/// Whether the line is a call statement.
fn check_call_stmt(cs: &Vec<char>) -> (r: bool)
    ensures
        r == is_call_stmt(cs@),
{
    match find_char_from(cs, 1, '(') {
        None => {
            proof {
                assert forall|b: int, c: int|
                    #![trigger cs@[b], cs@[c]]
                    !(1 <= b < c && c + 1 < cs@.len() && cs@[b] == '(' && cs@[c] == ')' && cs@[c
                        + 1] == ';') by {}
            }
            false
        },
        Some(b0) => {
            let n = cs.len();
            let mut c = b0 + 1;
            while c < n
                invariant
                    b0 + 1 <= c,
                    n == cs@.len(),
                    1 <= b0 < cs@.len() && cs@[b0 as int] == '(',
                    forall|c2: int|
                        b0 < c2 < c ==> !(c2 + 1 < cs@.len() && #[trigger] cs@[c2] == ')' && cs@[c2
                            + 1] == ';'),
                decreases cs@.len() - c,
            {
                if cs[c] == ')' && c + 1 < n && cs[c + 1] == ';' {
                    proof {
                        assert(cs@[b0 as int] == '(' && cs@[c as int] == ')' && cs@[c as int + 1]
                            == ';');
                        assert(1 <= b0 < c && c + 1 < cs@.len());
                        assert(is_call_stmt(cs@));
                    }
                    return true;
                }
                c += 1;
            }
            proof {
                assert forall|b: int, cc: int|
                    #![trigger cs@[b], cs@[cc]]
                    !(1 <= b < cc && cc + 1 < cs@.len() && cs@[b] == '(' && cs@[cc] == ')' && cs@[cc
                        + 1] == ';') by {
                    if 1 <= b < cc && cc + 1 < cs@.len() && cs@[b] == '(' && cs@[cc] == ')'
                        && cs@[cc + 1] == ';' {
                        assert(b >= b0);
                        assert(cc > b0);
                    }
                }
            }
            false
        },
    }
}

/// Whether the line is an assignment statement.
fn check_assignment(cs: &Vec<char>) -> (r: bool)
    ensures
        r == is_assignment(cs@),
{
    match find_char_from(cs, 1, '=') {
        None => {
            proof {
                assert forall|e: int, t: int|
                    #![trigger cs@[e], cs@[t]]
                    !(1 <= e && e + 2 <= t < cs@.len() && cs@[e] == '=' && cs@[t] == ';') by {}
            }
            false
        },
        Some(e0) => {
            let n = cs.len();
            if n - e0 < 2 {
                proof {
                    assert forall|e: int, t: int|
                        #![trigger cs@[e], cs@[t]]
                        !(1 <= e && e + 2 <= t < cs@.len() && cs@[e] == '=' && cs@[t] == ';') by {
                        if 1 <= e && e + 2 <= t < cs@.len() && cs@[e] == '=' && cs@[t] == ';' {
                            assert(e >= e0);
                            assert(t >= e0 + 2);
                        }
                    }
                }
                return false;
            }
            match find_char_from(cs, e0 + 2, ';') {
                Some(t) => {
                    proof {
                        assert(cs@[e0 as int] == '=' && cs@[t as int] == ';');
                        assert(1 <= e0 && e0 + 2 <= t < cs@.len());
                        assert(is_assignment(cs@));
                    }
                    true
                },
                None => {
                    proof {
                        assert forall|e: int, t: int|
                            #![trigger cs@[e], cs@[t]]
                            !(1 <= e && e + 2 <= t < cs@.len() && cs@[e] == '=' && cs@[t] == ';')
                            by {
                            if 1 <= e && e + 2 <= t < cs@.len() && cs@[e] == '=' && cs@[t] == ';' {
                                assert(e >= e0);
                                assert(t >= e0 + 2);
                            }
                        }
                    }
                    false
                },
            }
        },
    }
}

/// Whether the line is a branch header.
fn check_branch(cs: &Vec<char>) -> (r: bool)
    ensures
        r == is_branch(cs@),
{
    match find_last_char(cs, '{') {
        None => {
            proof {
                assert forall|p: int, r2: int|
                    #![trigger cs@[r2], cs@[p]]
                    !(r2 < cs@.len() && cs@[r2] == '{' && ((if_kw_at(cs@, p) && p + 2 < r2) || (
                    else_kw_at(cs@, p) && p + 4 < r2))) by {
                    if r2 < cs@.len() && cs@[r2] == '{' && ((if_kw_at(cs@, p) && p + 2 < r2) || (
                    else_kw_at(cs@, p) && p + 4 < r2)) {
                        assert(0 <= r2);
                    }
                }
            }
            false
        },
        Some(last) => {
            let mut p: usize = 0;
            while p < cs.len()
                invariant
                    p <= cs@.len(),
                    last < cs@.len() && cs@[last as int] == '{',
                    forall|q: int| last < q < cs@.len() ==> cs@[q] != '{',
                    forall|p2: int| 0 <= p2 < p ==> !(if_kw_at(cs@, p2) && p2 + 2 < last),
                    forall|p2: int| 0 <= p2 < p ==> !(else_kw_at(cs@, p2) && p2 + 4 < last),
                decreases cs@.len() - p,
            {
                let if_here = cs[p] == 'i' && cs.len() - p >= 2 && cs[p + 1] == 'f' && p + 2
                    < last;
                let else_here = cs[p] == 'e' && cs.len() - p >= 4 && cs[p + 1] == 'l' && cs[p + 2]
                    == 's' && cs[p + 3] == 'e' && p + 4 < last;
                if if_here || else_here {
                    proof {
                        if if_here {
                            assert(if_kw_at(cs@, p as int));
                        } else {
                            assert(else_kw_at(cs@, p as int));
                        }
                        assert(cs@[last as int] == '{' && last < cs@.len());
                        assert(is_branch(cs@));
                    }
                    return true;
                }
                proof {
                    assert(!(if_kw_at(cs@, p as int) && p + 2 < last));
                    assert(!(else_kw_at(cs@, p as int) && p + 4 < last));
                }
                p += 1;
            }
            proof {
                assert forall|p2: int, r2: int|
                    #![trigger cs@[r2], cs@[p2]]
                    !(r2 < cs@.len() && cs@[r2] == '{' && ((if_kw_at(cs@, p2) && p2 + 2 < r2) || (
                    else_kw_at(cs@, p2) && p2 + 4 < r2))) by {
                    if r2 < cs@.len() && cs@[r2] == '{' && ((if_kw_at(cs@, p2) && p2 + 2 < r2) || (
                    else_kw_at(cs@, p2) && p2 + 4 < r2)) {
                        assert(r2 <= last);
                        assert(0 <= p2 < cs@.len());
                    }
                }
            }
            false
        },
    }
}

/// Whether the line is a throw with a payload block.
fn check_throw(cs: &Vec<char>) -> (r: bool)
    ensures
        r == is_throw(cs@),
{
    match find_last_char(cs, '{') {
        None => {
            proof {
                assert forall|p: int, r2: int|
                    #![trigger throw_kw_at(cs@, p), cs@[r2]]
                    !(throw_kw_at(cs@, p) && p + 5 < r2 < cs@.len() && cs@[r2] == '{') by {}
            }
            false
        },
        Some(last) => {
            let mut p: usize = 0;
            while p < cs.len()
                invariant
                    p <= cs@.len(),
                    last < cs@.len() && cs@[last as int] == '{',
                    forall|q: int| last < q < cs@.len() ==> cs@[q] != '{',
                    forall|p2: int| 0 <= p2 < p ==> !(throw_kw_at(cs@, p2) && p2 + 5 < last),
                decreases cs@.len() - p,
            {
                if cs[p] == 't' && cs.len() - p >= 5 && cs[p + 1] == 'h' && cs[p + 2] == 'r'
                    && cs[p + 3] == 'o' && cs[p + 4] == 'w' && p + 5 < last {
                    proof {
                        assert(throw_kw_at(cs@, p as int));
                        assert(cs@[last as int] == '{' && last < cs@.len());
                        assert(is_throw(cs@));
                    }
                    return true;
                }
                proof {
                    assert(!(throw_kw_at(cs@, p as int) && p + 5 < last));
                }
                p += 1;
            }
            proof {
                assert forall|p2: int, r2: int|
                    #![trigger throw_kw_at(cs@, p2), cs@[r2]]
                    !(throw_kw_at(cs@, p2) && p2 + 5 < r2 < cs@.len() && cs@[r2] == '{') by {
                    if throw_kw_at(cs@, p2) && p2 + 5 < r2 < cs@.len() && cs@[r2] == '{' {
                        assert(r2 <= last);
                        assert(0 <= p2 < cs@.len());
                    }
                }
            }
            false
        },
    }
}

/// Classifies one line of source text; first match wins, in the fixed order
/// function definition, call statement, assignment, branch, throw.
pub fn classify_line(line: &str) -> (k: LineKind)
    ensures
        k == classify(line@),
{
    let cs = chars_of(line);
    match find_fn_def(&cs) {
        Some((a, b, c, k)) => {
            proof {
                assert(fn_match_at(cs@, a as int));
                assert(is_fn_def(cs@));
            }
            LineKind::FunctionDef
        },
        None => {
            if check_call_stmt(&cs) {
                LineKind::CallStatement
            } else if check_assignment(&cs) {
                LineKind::Assignment
            } else if check_branch(&cs) {
                LineKind::Branch
            } else if check_throw(&cs) {
                LineKind::Throw
            } else {
                LineKind::Plain
            }
        },
    }
}

/// Builds the function-hit call text.
fn fn_instr_string(name: &str, path: &str, line_no: u64) -> (r: String)
    ensures
        r@ == fn_instr(name@, path@, line_no as nat),
{
    String::from_str("rhai_test_coverage_instrument_function(\"").concat(name).concat(
        "\",\"",
    ).concat(path).concat("\",").concat(u64_to_string(line_no).as_str()).concat(" );")
}

/// Builds the statement-hit call text.
fn stmt_instr_string(path: &str, line_no: u64) -> (r: String)
    ensures
        r@ == stmt_instr(path@, line_no as nat),
{
    String::from_str("rhai_test_coverage_instrument_statement(\"").concat(path).concat(
        "\",",
    ).concat(u64_to_string(line_no).as_str()).concat(" );")
}

/// Builds the branch-hit call text.
fn branch_instr_string(path: &str, line_no: u64) -> (r: String)
    ensures
        r@ == branch_instr(path@, line_no as nat),
{
    String::from_str("rhai_test_coverage_instrument_branch(\"").concat(path).concat(
        "\",",
    ).concat(u64_to_string(line_no).as_str()).concat(" );")
}

/// Instruments one line of source text. `i` is the zero-based line index;
/// registered sites carry the one-based line number `i + 1`.
///
/// A function header gets the function-hit call spliced in right after its
/// `{` and registers a function site named after the header; call and
/// assignment statements get the statement-hit call appended and register a
/// statement site; a branch header gets the branch-hit call appended and
/// registers a branch site; a throw gets the statement-hit call prepended —
/// so the hit is recorded even though the throw aborts the line — and
/// registers a statement site; any other line passes through unchanged.
pub fn instrument_line(
    i: usize,
    line: &str,
    path: &str,
    test_coverage_container: &mut TestCoverageContainer,
) -> (result: String)
    requires
        old(test_coverage_container).wf(),
        i + 1 <= i64::MAX,
    ensures
        final(test_coverage_container).wf(),
        classify(line@) == LineKind::FunctionDef ==> exists|a: int, b: int, c: int, k: int|
            {
                &&& #[trigger] fn_def_parts(line@, a, b, c, k)
                &&& final(test_coverage_container)@ == spec_add_function(
                    old(test_coverage_container)@,
                    fn_def_name(line@, a, b),
                    path@,
                    i + 1,
                )
                &&& result@ == fn_def_rewrite(
                    line@,
                    k,
                    fn_instr(fn_def_name(line@, a, b), path@, (i + 1) as nat),
                )
            },
        classify(line@) == LineKind::CallStatement || classify(line@) == LineKind::Assignment
            ==> final(test_coverage_container)@ == spec_add_statement(
            old(test_coverage_container)@,
            path@,
            i + 1,
        ) && result@ == line@ + " "@ + stmt_instr(path@, (i + 1) as nat),
        classify(line@) == LineKind::Branch ==> final(test_coverage_container)@ == spec_add_branch(
            old(test_coverage_container)@,
            path@,
            i + 1,
        ) && result@ == line@ + " "@ + branch_instr(path@, (i + 1) as nat),
        classify(line@) == LineKind::Throw ==> final(test_coverage_container)@
            == spec_add_statement(old(test_coverage_container)@, path@, i + 1) && result@
            == stmt_instr(path@, (i + 1) as nat) + " "@ + line@,
        classify(line@) == LineKind::Plain ==> final(test_coverage_container)@ == old(
            test_coverage_container,
        )@ && result@ == line@,
{
    let cs = chars_of(line);
    let n = cs.len();
    let line_no_i64: i64 = (i as i64) + 1;
    let line_no: u64 = (i as u64) + 1;
    match find_fn_def(&cs) {
        Some((a, b, c, k)) => {
            let name = line.substring_char(a + 3, b);
            let instr = fn_instr_string(name, path, line_no);
            test_coverage_container.add_function(
                String::from_str(name),
                String::from_str(path),
                line_no_i64,
            );
            let prefix = line.substring_char(0, k + 1);
            let suffix = line.substring_char(k + 1, n);
            let result = String::from_str(prefix).concat(" ").concat(instr.as_str()).concat(
                " ",
            ).concat(suffix);
            proof {
                assert(name@ == fn_def_name(line@, a as int, b as int));
                assert(instr@ == fn_instr(fn_def_name(line@, a as int, b as int), path@, (i
                    + 1) as nat));
                assert(prefix@ == line@.subrange(0, k as int + 1));
                assert(suffix@ == line@.subrange(k as int + 1, line@.len() as int));
                assert(result@ == prefix@ + " "@ + instr@ + " "@ + suffix@);
                assert(result@ == fn_def_rewrite(
                    line@,
                    k as int,
                    fn_instr(fn_def_name(line@, a as int, b as int), path@, (i + 1) as nat),
                ));
                assert(fn_match_at(line@, a as int));
                assert(is_fn_def(line@));
            }
            result
        },
        None => {
            if check_call_stmt(&cs) {
                let instr = stmt_instr_string(path, line_no);
                test_coverage_container.add_statement(String::from_str(path), line_no_i64);
                String::from_str(line).concat(" ").concat(instr.as_str())
            } else if check_assignment(&cs) {
                let instr = stmt_instr_string(path, line_no);
                test_coverage_container.add_statement(String::from_str(path), line_no_i64);
                String::from_str(line).concat(" ").concat(instr.as_str())
            } else if check_branch(&cs) {
                let instr = branch_instr_string(path, line_no);
                test_coverage_container.add_branch(String::from_str(path), line_no_i64);
                String::from_str(line).concat(" ").concat(instr.as_str())
            } else if check_throw(&cs) {
                let instr = stmt_instr_string(path, line_no);
                test_coverage_container.add_statement(String::from_str(path), line_no_i64);
                instr.concat(" ").concat(line)
            } else {
                String::from_str(line)
            }
        },
    }
}

} // verus!
