//! Telling remote resource identifiers from local paths.
use vstd::prelude::*;
use vstd::string::*;

verus! {

/// A character allowed in a scheme token: ASCII letters, digits and `_`.
pub open spec fn is_scheme_char(c: char) -> bool {
    ('a' <= c && c <= 'z') || ('A' <= c && c <= 'Z') || ('0' <= c && c <= '9') || c == '_'
}

/// `s` holds the separator `://` starting at position `k`.
pub open spec fn separator_at(s: Seq<char>, k: int) -> bool {
    0 <= k && k + 3 <= s.len() && s[k] == ':' && s[k + 1] == '/' && s[k + 2] == '/'
}

/// A reference is remote when it holds `://` and everything before the first
/// such separator is a scheme token (possibly empty).
pub open spec fn is_remote(s: Seq<char>) -> bool {
    exists|k: int|
        #![trigger separator_at(s, k)]
        separator_at(s, k) && (forall|j: int| 0 <= j < k ==> !separator_at(s, j)) && (forall|
            j: int,
        |
            0 <= j < k ==> is_scheme_char(#[trigger] s[j]))
}

/// The text sent for an argument: a remote reference as it stands; a local
/// one in its canonical form when resolution succeeded, else as given.
pub open spec fn resolved(arg: Seq<char>, canonical: Option<Seq<char>>) -> Seq<char> {
    if is_remote(arg) {
        arg
    } else {
        match canonical {
            Some(c) => c,
            None => arg,
        }
    }
}

fn scheme_char(c: char) -> (r: bool)
    ensures
        r == is_scheme_char(c),
{
    ('a' <= c && c <= 'z') || ('A' <= c && c <= 'Z') || ('0' <= c && c <= '9') || c == '_'
}

/// Whether `filename` names a remote resource (`scheme://...`).
pub fn is_url(filename: &str) -> (r: bool)
    ensures
        r == is_remote(filename@),
{
    let n = filename.unicode_len();
    let mut i: usize = 0;
    while i < n
        invariant
            n == filename@.len(),
            i <= n,
            forall|j: int| 0 <= j < i ==> !separator_at(filename@, j),
            forall|j: int| 0 <= j < i ==> is_scheme_char(#[trigger] filename@[j]),
        decreases n - i,
    {
        let c = filename.get_char(i);
        if c == ':' && n - i > 2 && filename.get_char(i + 1) == '/' && filename.get_char(i + 2)
            == '/' {
            assert(separator_at(filename@, i as int));
            return true;
        }
        if !scheme_char(c) {
            assert forall|k: int| separator_at(filename@, k) implies !(forall|j: int|
                0 <= j < k ==> !separator_at(filename@, j)) || !(forall|j: int|
                0 <= j < k ==> is_scheme_char(#[trigger] filename@[j])) by {
                if k > i {
                    assert(!is_scheme_char(filename@[i as int]));
                }
            }
            return false;
        }
        i = i + 1;
    }
    false
}

/// The text to send for one command-line argument, given the outcome of
/// resolving it on the file system (`None` when that failed or was not
/// attempted).
pub fn resolve_reference(arg: &str, canonical: Option<String>) -> (r: String)
    ensures
        r@ == resolved(arg@, match canonical {
            Some(c) => Some(c@),
            None => None,
        }),
{
    if is_url(arg) {
        String::from_str(arg)
    } else {
        match canonical {
            Some(c) => c,
            None => String::from_str(arg),
        }
    }
}

} // verus!
