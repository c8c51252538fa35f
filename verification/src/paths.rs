//! Destination paths and the project name they denote.
//!
//! A destination path is modelled as a sequence of characters with `/` as
//! the separator. The project name is the path's final component, read the
//! way the platform's path inspection reads it: trailing separators and
//! trailing `.` components are ignored, and a path with no component left,
//! or whose last component is `..`, names no project.

use vstd::prelude::*;
use vstd::string::*;

verus! {

/// Whether the path's last component is exactly `.`: a final `.` standing
/// alone or right after a separator.
pub open spec fn ends_in_dot_component(p: Seq<char>) -> bool {
    p.len() > 0 && p.last() == '.' && (p.len() == 1 || p[p.len() - 2] == '/')
}

/// The path with every trailing separator and every trailing `.` component
/// removed.
pub open spec fn normalize_tail(p: Seq<char>) -> Seq<char>
    decreases p.len(),
{
    if p.len() > 0 && (p.last() == '/' || ends_in_dot_component(p)) {
        normalize_tail(p.drop_last())
    } else {
        p
    }
}

/// The suffix of the path after its last separator (the whole path when it
/// has none).
pub open spec fn after_last_slash(p: Seq<char>) -> Seq<char>
    decreases p.len(),
{
    if p.len() == 0 {
        p
    } else if p.last() == '/' {
        Seq::empty()
    } else {
        after_last_slash(p.drop_last()).push(p.last())
    }
}

/// The project name a destination path denotes, if any.
pub open spec fn project_name_of(p: Seq<char>) -> Option<Seq<char>> {
    let name = after_last_slash(normalize_tail(p));
    if name.len() == 0 || name == seq!['.', '.'] {
        None
    } else {
        Some(name)
    }
}

/// The suffix of `p` after its last separator is exactly the part from
/// `start`, the position after the last separator, to the end.
proof fn lemma_suffix_after_slash(p: Seq<char>, start: int)
    requires
        0 <= start <= p.len(),
        forall|j: int| start <= j < p.len() ==> p[j] != '/',
        start > 0 ==> p[start - 1] == '/',
    ensures
        after_last_slash(p) == p.subrange(start, p.len() as int),
    decreases p.len(),
{
    if p.len() == 0 {
        assert(p.subrange(0, 0) =~= p);
    } else if start == p.len() {
        assert(p.last() == '/');
        assert(p.subrange(start, p.len() as int) =~= Seq::<char>::empty());
    } else {
        assert(p[p.len() - 1] != '/');
        let q = p.drop_last();
        assert(forall|j: int| start <= j < q.len() ==> q[j] != '/');
        lemma_suffix_after_slash(q, start);
        assert(p.subrange(start, p.len() as int) =~= q.subrange(start, q.len() as int).push(
            p.last(),
        ));
    }
}

/// Extracts the project name from a destination path, or `None` when the
/// path names no project.
pub fn compute_project_name(path: &str) -> (r: Option<String>)
    ensures
        r matches Some(name) ==> project_name_of(path@) == Some(name@),
        r is None ==> project_name_of(path@) is None,
{
    let len: usize = path.unicode_len();
    let mut end: usize = len;
    proof {
        assert(path@.subrange(0, len as int) =~= path@);
    }
    while end > 0 && (path.get_char(end - 1) == '/' || (path.get_char(end - 1) == '.' && (end == 1
        || path.get_char(end - 2) == '/')))
        invariant
            end <= len,
            len == path@.len(),
            normalize_tail(path@) == normalize_tail(path@.subrange(0, end as int)),
        decreases end,
    {
        proof {
            let q = path@.subrange(0, end as int);
            assert(q.drop_last() =~= path@.subrange(0, end as int - 1));
            assert(q.last() == '/' || ends_in_dot_component(q));
        }
        end = end - 1;
    }
    proof {
        let q = path@.subrange(0, end as int);
        assert(!(q.len() > 0 && (q.last() == '/' || ends_in_dot_component(q))));
        assert(normalize_tail(path@) == q);
    }
    let ghost t = path@.subrange(0, end as int);
    let mut start: usize = end;
    while start > 0 && path.get_char(start - 1) != '/'
        invariant
            start <= end,
            end <= len,
            len == path@.len(),
            forall|j: int| start <= j < end ==> path@[j] != '/',
        decreases start,
    {
        start = start - 1;
    }
    proof {
        assert(forall|j: int| start <= j < t.len() ==> t[j] != '/');
        lemma_suffix_after_slash(t, start as int);
        assert(t.subrange(start as int, t.len() as int) =~= path@.subrange(
            start as int,
            end as int,
        ));
    }
    if end == start {
        return None;
    }
    let name = path.substring_char(start, end);
    let name_len: usize = end - start;
    if name_len == 2 && path.get_char(start) == '.' && path.get_char(start + 1) == '.' {
        proof {
            assert(name@ =~= seq!['.', '.']);
        }
        return None;
    }
    proof {
        if name@ == seq!['.', '.'] {
            assert(name@[0] == '.' && name@[1] == '.');
            assert(false);
        }
    }
    Some(String::from_str(name))
}

} // verus!
