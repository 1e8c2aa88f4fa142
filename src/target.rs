//! Turning a request URL into the file it asks for.
use vstd::prelude::*;
use crate::text::chars_of;

verus! {

/// What a request URL asks of the hosted directory.
#[derive(Debug, PartialEq, Eq)]
pub enum Target {
    /// The URL names no file: it is empty, is a lone separator, or its
    /// leading character cannot be stripped.
    NotFound,
    /// The path would leave the hosted directory.
    BadRequest,
    /// A path relative to the hosted directory.
    File(String),
}

/// The URL without its leading character, or `None` where that character
/// cannot be cut off on its own: the URL is empty, or its first character
/// takes more than one byte.
pub open spec fn strip_leading(url: Seq<char>) -> Option<Seq<char>> {
    if url.len() == 0 || url[0] as u32 >= 0x80 {
        None
    } else {
        Some(url.drop_first())
    }
}

/// A `..` component starts at index `i` of the `/`-separated path `p`.
pub open spec fn parent_at(p: Seq<char>, i: int) -> bool {
    &&& 0 <= i
    &&& i + 2 <= p.len()
    &&& p[i] == '.'
    &&& p[i + 1] == '.'
    &&& (i == 0 || p[i - 1] == '/')
    &&& (i + 2 == p.len() || p[i + 2] == '/')
}

/// The path has a root marker or a parent reference among its components.
/// Paths are `/`-separated, so no drive or share prefix can occur.
pub open spec fn escapes(p: Seq<char>) -> bool {
    (p.len() > 0 && p[0] == '/') || exists|i: int| parent_at(p, i)
}

/// The target that the URL `url` asks for, as a value of the model:
/// `None` for no file, `Some(None)` for a path that escapes, and
/// `Some(Some(p))` for the relative path `p`.
pub open spec fn target_of(url: Seq<char>) -> Option<Option<Seq<char>>> {
    match strip_leading(url) {
        None => None,
        Some(rel) => if rel.len() == 0 {
            None
        } else if escapes(rel) {
            Some(None)
        } else {
            Some(Some(rel))
        },
    }
}

impl Target {
    /// This target as a value of the model of `target_of`.
    pub open spec fn model(&self) -> Option<Option<Seq<char>>> {
        match self {
            Target::NotFound => None,
            Target::BadRequest => Some(None),
            Target::File(p) => Some(Some(p@)),
        }
    }
}

/// Whether the characters `p` escape the directory they are joined onto.
fn escapes_exec(p: &Vec<char>) -> (r: bool)
    ensures
        r == escapes(p@),
{
    let n = p.len();
    if n > 0 && p[0] == '/' {
        return true;
    }
    let mut i: usize = 0;
    while i < n && n - i >= 2
        invariant
            n == p@.len(),
            i <= n,
            forall|j: int| 0 <= j < i ==> !parent_at(p@, j),
        decreases n - i,
    {
        if p[i] == '.' && p[i + 1] == '.' && (i == 0 || p[i - 1] == '/') && (i + 2 == n || p[i
            + 2] == '/') {
            assert(parent_at(p@, i as int));
            return true;
        }
        i = i + 1;
    }
    assert forall|j: int| !parent_at(p@, j) by {
        if 0 <= j && j >= i {
            assert(j + 2 > n);
        }
    }
    false
}

/// Resolves the URL of a request against the hosted directory: strips the
/// leading separator, answers "not found" where nothing is left, and
/// "bad request" where the rest would leave the directory.
pub fn resolve_target(url: &str) -> (t: Target)
    ensures
        t.model() == target_of(url@),
{
    let n = url.unicode_len();
    if n == 0 {
        return Target::NotFound;
    }
    let first = url.get_char(0);
    if first as u32 >= 0x80 {
        return Target::NotFound;
    }
    let rel = url.substring_char(1, n);
    assert(rel@ == url@.drop_first());
    if n == 1 {
        return Target::NotFound;
    }
    let chars = chars_of(rel);
    if escapes_exec(&chars) {
        Target::BadRequest
    } else {
        Target::File(String::from_str(rel))
    }
}

} // verus!
