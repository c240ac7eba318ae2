use vstd::prelude::*;
use vstd::string::StringExecFns;

use crate::outcome::{decode_lossy, lossy_text, OutcomeView, ProcessOutcome};
use crate::text::{blank, chars_of, is_blank, lemma_span, span, string_of, trim_range, trimmed};

verus! {

pub open spec fn not_newline() -> spec_fn(char) -> bool {
    |c: char| c != '\n'
}

/// The quote left open after character `c`, with `quote` open before it. Text
/// between single quotes is a string, between double quotes an identifier; a
/// doubled quote inside closes and reopens, which leaves it open as it should.
pub open spec fn quote_after(quote: Option<char>, c: char) -> Option<char> {
    match quote {
        Some(q) => if c == q {
            None
        } else {
            Some(q)
        },
        None => if c == '\'' || c == '"' {
            Some(c)
        } else {
            None
        },
    }
}

/// The number of characters of `t` before its first `;` outside quotes, where
/// `quote` is the quote open at the start of `t`.
pub open spec fn statement_len(t: Seq<char>, quote: Option<char>) -> nat
    decreases t.len(),
{
    if t.len() == 0 || (quote is None && t[0] == ';') {
        0
    } else {
        1 + statement_len(t.drop_first(), quote_after(quote, t[0]))
    }
}

/// A trimmed line that takes part in the script: not empty and not a `--` comment.
pub open spec fn kept_line(l: Seq<char>) -> bool {
    l.len() > 0 && !(l.len() >= 2 && l[0] == '-' && l[1] == '-')
}

/// The script with blank and comment lines removed, each other line trimmed and
/// followed by one space.
pub open spec fn script_text(s: Seq<char>) -> Seq<char>
    decreases s.len(),
{
    if s.len() == 0 {
        seq![]
    } else {
        let n = span(s, not_newline());
        let line = trimmed(s.take(n as int));
        let here = if kept_line(line) {
            line.push(' ')
        } else {
            seq![]
        };
        if n < s.len() {
            here + script_text(s.skip(n + 1 as int))
        } else {
            here
        }
    }
}

/// A trimmed piece that holds a statement: something other than a lone terminator.
pub open spec fn has_body(st: Seq<char>) -> bool {
    st.len() > 0 && st != seq![';']
}

/// The statements of a script text: cut after each `;` that stands outside quotes,
/// trimmed, pieces with no statement in them left out. A last statement need not
/// end with `;`.
pub open spec fn split_statements(t: Seq<char>) -> Seq<Seq<char>>
    decreases t.len(),
{
    if t.len() == 0 {
        seq![]
    } else {
        let n = statement_len(t, None);
        let piece = if n < t.len() {
            t.take(n + 1 as int)
        } else {
            t
        };
        let rest = if n < t.len() {
            t.skip(n + 1 as int)
        } else {
            seq![]
        };
        let st = trimmed(piece);
        let here = if has_body(st) {
            seq![st]
        } else {
            seq![]
        };
        here + split_statements(rest)
    }
}

/// The statements of a source, in order.
pub open spec fn statements_of(s: Seq<char>) -> Seq<Seq<char>> {
    split_statements(script_text(s))
}

pub open spec fn string_views(v: Seq<String>) -> Seq<Seq<char>> {
    v.map_values(|x: String| x@)
}

/// The first index at or after `i` where `v` holds `c`, or the end of `v`.
fn next_index_of(v: &Vec<char>, i: usize, c: char) -> (e: usize)
    requires
        i <= v@.len(),
    ensures
        i <= e <= v@.len(),
        forall|j: int| i <= j < e ==> v@[j] != c,
        e == v@.len() || v@[e as int] == c,
{
    let mut e = i;
    while e < v.len() && v[e] != c
        invariant
            i <= e <= v@.len(),
            forall|j: int| i <= j < e ==> v@[j] != c,
        decreases v@.len() - e,
    {
        e = e + 1;
    }
    e
}

/// Where the statement that starts at `i` ends: at its terminating `;`, or at the
/// end of the text.
fn statement_end(t: &Vec<char>, i: usize) -> (e: usize)
    requires
        i <= t@.len(),
    ensures
        i <= e <= t@.len(),
        e - i == statement_len(t@.skip(i as int), None),
{
    let mut e = i;
    let mut quote: Option<char> = None;
    assert(t@.skip(i as int) == t@.skip(e as int));
    while e < t.len() && !(quote.is_none() && t[e] == ';')
        invariant
            i <= e <= t@.len(),
            statement_len(t@.skip(i as int), None) == (e - i) + statement_len(
                t@.skip(e as int),
                quote,
            ),
        decreases t@.len() - e,
    {
        let c = t[e];
        assert(t@.skip(e as int).drop_first() =~= t@.skip(e + 1));
        quote =
        match quote {
            Some(q) => if c == q {
                None
            } else {
                Some(q)
            },
            None => if c == '\'' || c == '"' {
                Some(c)
            } else {
                None
            },
        };
        e = e + 1;
    }
    e
}

/// The script text of `s`, as in `script_text`.
pub fn script_chars(s: &Vec<char>) -> (t: Vec<char>)
    ensures
        t@ == script_text(s@),
{
    let mut out: Vec<char> = Vec::new();
    let mut i: usize = 0;
    assert(s@.skip(0) == s@);
    assert(out@ + script_text(s@) == script_text(s@));
    while i < s.len()
        invariant
            i <= s@.len(),
            out@ + script_text(s@.skip(i as int)) == script_text(s@),
        decreases s@.len() - i,
    {
        let ghost rest = s@.skip(i as int);
        let e = next_index_of(s, i, '\n');
        proof {
            assert forall|j: int| 0 <= j < e - i implies not_newline()(#[trigger] rest[j]) by {
                assert(rest[j] == s@[i + j]);
            }
            lemma_span(rest, not_newline(), e - i);
            assert(rest.take(e - i) == s@.subrange(i as int, e as int));
        }
        let (a, b) = trim_range(s, i, e);
        let ghost before = out@;
        if b > a && !(b - a >= 2 && s[a] == '-' && s[a + 1] == '-') {
            let mut k = a;
            while k < b
                invariant
                    a <= k <= b <= s@.len(),
                    out@ == before + s@.subrange(a as int, k as int),
                decreases b - k,
            {
                out.push(s[k]);
                assert(s@.subrange(a as int, k + 1) == s@.subrange(a as int, k as int).push(
                    s@[k as int],
                ));
                k = k + 1;
            }
            out.push(' ');
        }
        if e < s.len() {
            assert(rest.skip(e - i + 1) == s@.skip(e + 1));
            i = e + 1;
        } else {
            assert(s@.skip(s@.len() as int) == Seq::<char>::empty());
            i = e;
        }
    }
    assert(s@.skip(i as int) == Seq::<char>::empty());
    out
}

/// The statements of a script text, as in `split_statements`.
pub fn split_text(t: &Vec<char>) -> (r: Vec<String>)
    ensures
        string_views(r@) == split_statements(t@),
{
    let mut out: Vec<String> = Vec::new();
    let mut i: usize = 0;
    assert(t@.skip(0) == t@);
    assert(string_views(out@) == Seq::<Seq<char>>::empty());
    assert(string_views(out@) + split_statements(t@) == split_statements(t@));
    while i < t.len()
        invariant
            i <= t@.len(),
            string_views(out@) + split_statements(t@.skip(i as int)) == split_statements(t@),
        decreases t@.len() - i,
    {
        let ghost rest = t@.skip(i as int);
        let e = statement_end(t, i);
        let end = if e < t.len() {
            e + 1
        } else {
            e
        };
        proof {
            if e < t@.len() {
                assert(rest.take(e - i + 1) == t@.subrange(i as int, end as int));
            } else {
                assert(rest == t@.subrange(i as int, end as int));
            }
        }
        let (a, b) = trim_range(t, i, end);
        let ghost before = out@;
        let keep = b > a && !(b - a == 1 && t[a] == ';');
        proof {
            let st = t@.subrange(a as int, b as int);
            if b - a == 1 {
                if t@[a as int] == ';' {
                    assert(st =~= seq![';']);
                } else {
                    assert(st[0] != ';');
                    assert(st != seq![';']);
                }
            } else {
                assert(st.len() != seq![';'].len());
                assert(st != seq![';']);
            }
            assert(keep == has_body(st));
        }
        if keep {
            out.push(string_of(t, a, b));
        }
        assert(rest.skip(end - i) == t@.skip(end as int));
        if e >= t.len() {
            assert(t@.skip(end as int) == Seq::<char>::empty());
        }
        proof {
            let st = t@.subrange(a as int, b as int);
            let here = if has_body(st) {
                seq![st]
            } else {
                seq![]
            };
            assert(split_statements(rest) == here + split_statements(t@.skip(end as int)));
            assert(string_views(out@) =~= string_views(before) + here);
            assert(string_views(before) + split_statements(rest) == string_views(before) + (here
                + split_statements(t@.skip(end as int))));
            assert(string_views(before) + (here + split_statements(t@.skip(end as int))) == (
            string_views(before) + here) + split_statements(t@.skip(end as int)));
        }
        i = end;
    }
    assert(t@.skip(i as int) == Seq::<char>::empty());
    out
}

/// The statements of a source in the statement-sequence language, in order.
pub fn split_script(source: &str) -> (r: Vec<String>)
    ensures
        string_views(r@) == statements_of(source@),
{
    let s = chars_of(source);
    let t = script_chars(&s);
    split_text(&t)
}

/// A statement whose first word is `SELECT`, in any case.
pub open spec fn is_query(st: Seq<char>) -> bool {
    st.len() >= 6 && (st[0] == 's' || st[0] == 'S') && (st[1] == 'e' || st[1] == 'E') && (st[2]
        == 'l' || st[2] == 'L') && (st[3] == 'e' || st[3] == 'E') && (st[4] == 'c' || st[4]
        == 'C') && (st[5] == 't' || st[5] == 'T')
}

/// The lines that one statement adds to the log. A statement with text on its error
/// stream adds an error note, and the script stops there.
///
/// By choice, a failing statement is reported inside the output, not as an error: a
/// script's result is always its log as it stood when the script stopped, so the
/// statements that succeeded before the failure stay visible beside its note. The
/// other languages report failures as errors.
pub open spec fn entry_lines(st: Seq<char>, o: OutcomeView) -> Seq<Seq<char>> {
    let out = lossy_text(o.stdout);
    if o.stderr.len() > 0 {
        seq!["SQL Error: "@ + lossy_text(o.stderr)]
    } else if is_query(st) && !blank(out) {
        seq!["Query: "@ + st, "Results:"@, out, seq![]]
    } else if !blank(out) {
        seq!["Statement: "@ + st, out, seq![]]
    } else {
        seq!["Statement: "@ + st, "Statement executed successfully."@, seq![]]
    }
}

/// Lines joined by line breaks.
pub open spec fn joined(lines: Seq<Seq<char>>) -> Seq<char>
    decreases lines.len(),
{
    if lines.len() == 0 {
        seq![]
    } else if lines.len() == 1 {
        lines[0]
    } else {
        joined(lines.drop_last()) + "\n"@ + lines.last()
    }
}

fn is_query_exec(st: &String) -> (r: bool)
    ensures
        r == is_query(st@),
{
    let v = chars_of(st.as_str());
    v.len() >= 6 && (v[0] == 's' || v[0] == 'S') && (v[1] == 'e' || v[1] == 'E') && (v[2] == 'l'
        || v[2] == 'L') && (v[3] == 'e' || v[3] == 'E') && (v[4] == 'c' || v[4] == 'C') && (v[5]
        == 't' || v[5] == 'T')
}

fn prefixed(prefix: &str, text: &str) -> (r: String)
    ensures
        r@ == prefix@ + text@,
{
    let mut r = String::from_str(prefix);
    r.append(text);
    r
}

/// The log lines for statement `st`, which ended with `o`.
pub fn entry(st: &String, o: &ProcessOutcome) -> (r: Vec<String>)
    ensures
        string_views(r@) == entry_lines(st@, o@),
{
    let out = decode_lossy(&o.stdout);
    let mut r: Vec<String> = Vec::new();
    if o.stderr.len() > 0 {
        let err = decode_lossy(&o.stderr);
        r.push(prefixed("SQL Error: ", err.as_str()));
    } else {
        let quiet = is_blank(out.as_str());
        if is_query_exec(st) && !quiet {
            r.push(prefixed("Query: ", st.as_str()));
            r.push(String::from_str("Results:"));
            r.push(out);
            r.push(String::new());
        } else if !quiet {
            r.push(prefixed("Statement: ", st.as_str()));
            r.push(out);
            r.push(String::new());
        } else {
            r.push(prefixed("Statement: ", st.as_str()));
            r.push(String::from_str("Statement executed successfully."));
            r.push(String::new());
        }
    }
    assert(string_views(r@) =~= entry_lines(st@, o@));
    r
}

/// The log as one text: its lines joined by line breaks.
pub fn join_lines(lines: &Vec<String>) -> (r: String)
    ensures
        r@ == joined(string_views(lines@)),
{
    let mut r = String::new();
    let mut i: usize = 0;
    while i < lines.len()
        invariant
            i <= lines@.len(),
            r@ == joined(string_views(lines@).take(i as int)),
        decreases lines@.len() - i,
    {
        let ghost v = string_views(lines@);
        if i > 0 {
            r.append("\n");
        }
        r.append(lines[i].as_str());
        proof {
            let w = v.take(i + 1);
            if i > 0 {
                assert(w.drop_last() == v.take(i as int));
            } else {
                assert(w.len() == 1);
            }
        }
        i = i + 1;
    }
    assert(string_views(lines@).take(lines@.len() as int) == string_views(lines@));
    r
}

} // verus!
