//! Hierarchical object-path computation.
//!
//! An entity is published under its explicit path override when that
//! override is a syntactically valid absolute object path; otherwise
//! under the parent path joined with the entity's type name, with the
//! separator inserted only when the parent is not the root path.

use vstd::prelude::*;

verus! {

/// A character an object-path element may contain.
pub open spec fn valid_element_char(c: char) -> bool {
    c == '_' || ('a' <= c && c <= 'z') || ('A' <= c && c <= 'Z') || ('0' <= c && c <= '9')
}

/// A syntactically valid absolute object path: it begins with the
/// separator, its elements are nonempty and drawn from
/// `[A-Za-z0-9_]`, and only the root path ends with the separator.
pub open spec fn valid_object_path(s: Seq<char>) -> bool {
    &&& s.len() >= 1
    &&& s[0] == '/'
    &&& (s.len() == 1 || s[s.len() - 1] != '/')
    &&& forall|i: int|
        1 <= i < s.len() ==> ((#[trigger] s[i]) == '/' || valid_element_char(s[i]))
    &&& forall|i: int| 0 <= i < s.len() - 1 ==> !((#[trigger] s[i]) == '/' && s[i + 1] == '/')
}

/// The parent path joined with a name, with the separator inserted
/// only when the parent is not the root path.
pub open spec fn join_path(parent: Seq<char>, name: Seq<char>) -> Seq<char> {
    if parent == "/"@ {
        parent + name
    } else {
        parent + "/"@ + name
    }
}

/// The view of an optional string.
pub open spec fn opt_str_view(o: Option<String>) -> Option<Seq<char>> {
    match o {
        Some(s) => Some(s@),
        None => None,
    }
}

/// The path an entity resolves to: a valid explicit override is used
/// verbatim; otherwise the parent path is joined with the type name.
pub open spec fn resolved_path(over: Option<Seq<char>>, parent: Seq<char>, name: Seq<char>) -> Seq<
    char,
> {
    match over {
        Some(p) => if valid_object_path(p) {
            p
        } else {
            join_path(parent, name)
        },
        None => join_path(parent, name),
    }
}

/// Checks a string for syntactic validity as an absolute object path.
#[verifier::loop_isolation(false)]
pub fn is_valid_object_path(p: &str) -> (r: bool)
    ensures
        r == valid_object_path(p@),
{
    let n: usize = p.unicode_len();
    if n == 0 {
        return false;
    }
    if p.get_char(0) != '/' {
        return false;
    }
    if n > 1 && p.get_char(n - 1) == '/' {
        return false;
    }
    let mut i: usize = 1;
    while i < n
        invariant
            1 <= i <= n,
            forall|j: int| 1 <= j < i ==> ((#[trigger] p@[j]) == '/' || valid_element_char(p@[j])),
            forall|j: int| 0 <= j < i - 1 ==> !((#[trigger] p@[j]) == '/' && p@[j + 1] == '/'),
        decreases n - i,
    {
        let c = p.get_char(i);
        let ok = c == '_' || ('a' <= c && c <= 'z') || ('A' <= c && c <= 'Z') || ('0' <= c && c
            <= '9') || c == '/';
        if !ok {
            return false;
        }
        if c == '/' && p.get_char(i - 1) == '/' {
            return false;
        }
        i = i + 1;
    }
    true
}

/// Computes the path an entity with the given override and type name
/// is published under, relative to a parent path.
pub fn resolve_path(over: &Option<String>, parent: &str, name: &str) -> (r: String)
    ensures
        r@ == resolved_path(opt_str_view(*over), parent@, name@),
{
    match over {
        Some(p) => {
            if is_valid_object_path(p.as_str()) {
                return p.clone();
            }
        },
        None => {},
    }
    let root = parent.unicode_len() == 1 && parent.get_char(0) == '/';
    proof {
        reveal_strlit("/");
        if root {
            assert(parent@ =~= "/"@);
        }
    }
    let mut r = parent.to_owned();
    if !root {
        r.append("/");
    }
    r.append(name);
    r
}

} // verus!
