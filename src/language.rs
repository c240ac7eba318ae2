use vstd::prelude::*;

use crate::text::{chars_of, occurs_at};

verus! {

/// The languages an execution can be asked to run.
#[derive(Clone, Copy, Debug, PartialEq, Eq, Structural)]
pub enum Language {
    Python,
    C,
    Cpp,
    Java,
    Kotlin,
    JavaScript,
    Rust,
    Sql,
    Text,
}

/// The registry: which language a tag names. A tag that names none falls back to Python.
pub open spec fn language_of(tag: Seq<char>) -> Language {
    if tag == "c"@ {
        Language::C
    } else if tag == "cpp"@ {
        Language::Cpp
    } else if tag == "java"@ {
        Language::Java
    } else if tag == "kotlin"@ {
        Language::Kotlin
    } else if tag == "javascript"@ {
        Language::JavaScript
    } else if tag == "rust"@ {
        Language::Rust
    } else if tag == "sql"@ {
        Language::Sql
    } else if tag == "text"@ {
        Language::Text
    } else {
        Language::Python
    }
}

/// Compiled languages run a separate compile step before the program.
pub open spec fn is_compiled(l: Language) -> bool {
    l == Language::C || l == Language::Cpp || l == Language::Java || l == Language::Kotlin
}

fn same_text(v: &Vec<char>, w: &str) -> (r: bool)
    ensures
        r == (v@ == w@),
{
    let wv = chars_of(w);
    if v.len() != wv.len() {
        return false;
    }
    let r = occurs_at(v, &wv, 0);
    assert(v@.subrange(0, v@.len() as int) == v@);
    r
}

impl Language {
    /// The language that `tag` names in the registry.
    pub fn from_tag(tag: &str) -> (r: Language)
        ensures
            r == language_of(tag@),
    {
        let v = chars_of(tag);
        if same_text(&v, "c") {
            Language::C
        } else if same_text(&v, "cpp") {
            Language::Cpp
        } else if same_text(&v, "java") {
            Language::Java
        } else if same_text(&v, "kotlin") {
            Language::Kotlin
        } else if same_text(&v, "javascript") {
            Language::JavaScript
        } else if same_text(&v, "rust") {
            Language::Rust
        } else if same_text(&v, "sql") {
            Language::Sql
        } else if same_text(&v, "text") {
            Language::Text
        } else {
            Language::Python
        }
    }

    pub fn is_compiled(&self) -> (r: bool)
        ensures
            r == is_compiled(*self),
    {
        match self {
            Language::C | Language::Cpp | Language::Java | Language::Kotlin => true,
            _ => false,
        }
    }
}

} // verus!
