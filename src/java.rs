use vstd::prelude::*;
use vstd::string::StringExecFns;

use crate::text::{chars_of, is_ws, is_ws_char, lemma_span, occurs_at, span, string_of};

verus! {

/// Whether `p` occurs in `s` at index `i`.
pub open spec fn found_at(s: Seq<char>, p: Seq<char>, i: int) -> bool {
    0 <= i && i + p.len() <= s.len() && s.subrange(i, i + p.len()) == p
}

/// The first index at or after `i` where `p` occurs in `s`.
pub open spec fn find_from(s: Seq<char>, p: Seq<char>, i: int) -> Option<int>
    decreases s.len() - i,
{
    if i < 0 || i + p.len() > s.len() {
        None
    } else if s.subrange(i, i + p.len()) == p {
        Some(i)
    } else if i < s.len() {
        find_from(s, p, i + 1)
    } else {
        None
    }
}

/// The words that introduce the declaration of the entry class.
pub open spec fn declaration_marker() -> Seq<char> {
    "public class"@
}

/// Characters that may stand in a class name (and so in a file name).
pub open spec fn is_name_char(c: char) -> bool {
    ('a' <= c && c <= 'z') || ('A' <= c && c <= 'Z') || ('0' <= c && c <= '9') || c == '_'
        || c == '$'
}

pub open spec fn is_name(n: Seq<char>) -> bool {
    n.len() > 0 && forall|i: int| 0 <= i < n.len() ==> #[trigger] is_name_char(n[i])
}

pub open spec fn default_class() -> Seq<char> {
    "Main"@
}

pub open spec fn name_char() -> spec_fn(char) -> bool {
    |c: char| is_name_char(c)
}

pub open spec fn space_char() -> spec_fn(char) -> bool {
    |c: char| is_ws(c)
}

/// The entry class that a source declares: after the first `public class` and the
/// whitespace that follows it, the run of name characters there (so `Foo` in
/// `public class Foo extends Bar {` and `Box` in `public class Box<T> {`). Where
/// there is no such declaration, no whitespace after it or no name, the default
/// class `Main`.
pub open spec fn class_name_of(s: Seq<char>) -> Seq<char> {
    match find_from(s, declaration_marker(), 0) {
        None => default_class(),
        Some(i) => {
            let t = s.skip(i + declaration_marker().len());
            let w = span(t, space_char());
            let u = t.skip(w as int);
            let n = u.take(span(u, name_char()) as int);
            if w > 0 && n.len() > 0 {
                n
            } else {
                default_class()
            }
        },
    }
}

fn is_name_char_exec(c: char) -> (r: bool)
    ensures
        r == is_name_char(c),
{
    ('a' <= c && c <= 'z') || ('A' <= c && c <= 'Z') || ('0' <= c && c <= '9') || c == '_'
        || c == '$'
}

/// The class name that a source declares, as a file of that name must be called.
pub fn class_name(source: &str) -> (r: String)
    ensures
        r@ == class_name_of(source@),
        is_name(r@),
{
    proof {
        reveal_strlit("public class");
        reveal_strlit("Main");
        assert(is_name_char(default_class()[0]));
        assert(is_name_char(default_class()[1]));
        assert(is_name_char(default_class()[2]));
        assert(is_name_char(default_class()[3]));
    }
    let s = chars_of(source);
    let m = chars_of("public class");
    let mut i: usize = 0;
    let mut found = false;
    while i < s.len() && !found
        invariant
            s@ == source@,
            m@ == declaration_marker(),
            m@.len() > 0,
            i <= s@.len(),
            !found ==> find_from(s@, m@, 0) == find_from(s@, m@, i as int),
            found ==> find_from(s@, m@, 0) == Some(i as int) && i + m@.len() <= s@.len(),
        decreases s@.len() - i + (if found { 0int } else { 1int }),
    {
        if occurs_at(&s, &m, i) {
            found = true;
        } else {
            i = i + 1;
        }
    }
    if !found {
        return String::from_str("Main");
    }
    let j = i + m.len();
    let ghost t = s@.skip(j as int);
    let mut a = j;
    while a < s.len() && is_ws_char(s[a])
        invariant
            j <= a <= s@.len(),
            forall|x: int| j <= x < a ==> is_ws(#[trigger] s@[x]),
        decreases s@.len() - a,
    {
        a = a + 1;
    }
    proof {
        assert forall|x: int| 0 <= x < a - j implies space_char()(#[trigger] t[x]) by {
            assert(t[x] == s@[j + x]);
        }
        lemma_span(t, space_char(), a - j);
    }
    let ghost u = s@.skip(a as int);
    assert(u == t.skip(a - j));
    let mut b = a;
    while b < s.len() && is_name_char_exec(s[b])
        invariant
            a <= b <= s@.len(),
            forall|x: int| a <= x < b ==> is_name_char(#[trigger] s@[x]),
        decreases s@.len() - b,
    {
        b = b + 1;
    }
    proof {
        assert forall|x: int| 0 <= x < b - a implies name_char()(#[trigger] u[x]) by {
            assert(u[x] == s@[a + x]);
        }
        lemma_span(u, name_char(), b - a);
        assert(u.take(b - a) == s@.subrange(a as int, b as int));
    }
    if a == j || a == b {
        return String::from_str("Main");
    }
    let r = string_of(&s, a, b);
    assert(is_name(r@)) by {
        assert forall|x: int| 0 <= x < r@.len() implies #[trigger] is_name_char(r@[x]) by {
            assert(r@[x] == s@[a + x]);
        }
    }
    r
}

} // verus!
