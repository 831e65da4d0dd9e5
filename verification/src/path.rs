//! Paths of the local library, as text with `/` between the components.

use crate::text::chars_of;
use vstd::prelude::*;
use vstd::string::*;

verus! {

/// The path of `name` below `base`. A name that starts at the root stands
/// for itself, and no second separator follows a base that ends in one.
pub open spec fn joined(base: Seq<char>, name: Seq<char>) -> Seq<char> {
    if name.len() > 0 && name[0] == '/' {
        name
    } else if base.len() == 0 || base.last() == '/' {
        base + name
    } else {
        base + seq!['/'] + name
    }
}

/// `s` without the separators that it starts with.
pub open spec fn without_leading_separators(s: Seq<char>) -> Seq<char>
    decreases s.len(),
{
    if s.len() > 0 && s[0] == '/' {
        without_leading_separators(s.skip(1))
    } else {
        s
    }
}

/// Whether `root` ends where a component of `path` ends, `rest` being what
/// follows `root` in `path`.
pub open spec fn at_boundary(root: Seq<char>, rest: Seq<char>) -> bool {
    ||| rest.len() == 0
    ||| root.len() == 0 && rest[0] != '/'
    ||| root.len() > 0 && (rest[0] == '/' || root.last() == '/')
}

/// The path from `root` to `path`, where `path` lies at or below `root`:
/// `root` opens `path` and ends at the end of one of its components.
pub open spec fn relative_to(path: Seq<char>, root: Seq<char>) -> Option<Seq<char>> {
    if root.is_prefix_of(path) && at_boundary(root, path.skip(root.len() as int)) {
        Some(without_leading_separators(path.skip(root.len() as int)))
    } else {
        None
    }
}

/// The path of `name` below `base`.
pub fn join(base: &str, name: &str) -> (r: String)
    ensures
        r@ == joined(base@, name@),
{
    let b = chars_of(base);
    let n = chars_of(name);
    proof {
        reveal_strlit("/");
    }
    if n.len() > 0 && n[0] == '/' {
        String::from_str(name)
    } else if b.len() == 0 || b[b.len() - 1] == '/' {
        let mut r = String::from_str(base);
        r.append(name);
        r
    } else {
        let mut r = String::from_str(base);
        r.append("/");
        r.append(name);
        r
    }
}

/// The path from `root` to `path`, where `path` lies at or below `root`.
pub fn strip_root(path: &str, root: &str) -> (r: Option<String>)
    ensures
        match r {
            Some(rest) => relative_to(path@, root@) == Some(rest@),
            None => relative_to(path@, root@) is None,
        },
{
    let p = chars_of(path);
    let q = chars_of(root);
    if q.len() > p.len() {
        return None;
    }
    let mut i: usize = 0;
    while i < q.len()
        invariant
            i <= q.len() <= p.len(),
            p@ == path@,
            q@ == root@,
            forall|j: int| 0 <= j < i ==> p@[j] == q@[j],
        decreases q.len() - i,
    {
        if p[i] != q[i] {
            return None;
        }
        i += 1;
    }
    let ghost rest = p@.skip(q@.len() as int);
    let start: usize = q.len();
    let boundary = start == p.len() || (start == 0 && p[start] != '/') || (start > 0 && (p[start]
        == '/' || q[start - 1] == '/'));
    if !boundary {
        return None;
    }
    let mut from: usize = start;
    while from < p.len() && p[from] == '/'
        invariant
            start <= from <= p.len(),
            without_leading_separators(rest) == without_leading_separators(p@.skip(from as int)),
        decreases p.len() - from,
    {
        assert(p@.skip(from as int).skip(1) =~= p@.skip(from + 1));
        from += 1;
    }
    let tail = path.substring_char(from, p.len());
    Some(String::from_str(tail))
}

} // verus!
