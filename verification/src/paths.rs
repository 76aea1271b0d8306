//! Paths as text: joining a name onto a directory, and a directory's parent.
use vstd::prelude::*;
use crate::text::{chars_of, push_str, string_of};

verus! {

/// What `Path::join` gives on Unix: an absolute `part` replaces `base`;
/// otherwise a separator goes between them unless `base` is empty or ends
/// with one.
pub open spec fn joined_path(base: Seq<char>, part: Seq<char>) -> Seq<char> {
    if part.len() > 0 && part[0] == '/' {
        part
    } else if base.len() == 0 || base.last() == '/' {
        base + part
    } else {
        base + "/"@ + part
    }
}

/// `part` joined onto `base`.
pub fn join_path(base: &str, part: &str) -> (r: String)
    ensures
        r@ == joined_path(base@, part@),
{
    let b = chars_of(base);
    let p = chars_of(part);
    if p.len() > 0 && p[0] == '/' {
        return String::from_str(part);
    }
    let mut out: Vec<char> = Vec::new();
    push_str(&mut out, base);
    if !(b.len() == 0 || b[b.len() - 1] == '/') {
        push_str(&mut out, "/");
    }
    push_str(&mut out, part);
    proof {
        if !(b@.len() == 0 || b@.last() == '/') {
            assert(out@ =~= base@ + "/"@ + part@);
        } else {
            assert(out@ =~= base@ + part@);
        }
    }
    string_of(&out)
}

/// The parent of a path as `Path::parent` gives it, a function of the path
/// alone.
pub uninterp spec fn parent_path(p: Seq<char>) -> Option<Seq<char>>;

/// Calls `Path::parent`, converting the parent back to text: the path
/// without its last component, or nothing for a root or an empty path. The
/// result is named `parent_path`.
#[verifier::external_body]
pub(crate) fn path_parent(p: &str) -> (r: Option<String>)
    ensures
        match r {
            Some(s) => parent_path(p@) == Some(s@),
            None => parent_path(p@) is None,
        },
{
    std::path::Path::new(p).parent().map(|q| q.to_string_lossy().to_string())
}

} // verus!
