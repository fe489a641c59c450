//! Paths below the modules directory, as sequences of characters. Paths are
//! joined and cut at `/`; the segments of an entry name are parted by `/` and
//! by `\` alike where a step to the parent directory is looked for.

use vstd::prelude::*;
use vstd::string::*;

verus! {

/// The path of `name` below `dir`: the two joined by one separator.
pub open spec fn joined(dir: Seq<char>, name: Seq<char>) -> Seq<char> {
    dir + seq!['/'] + name
}

/// Joins a directory and an entry name with one separator, whatever the name
/// holds.
pub fn join_path(dir: &str, name: &str) -> (path: String)
    ensures
        path@ == joined(dir@, name@),
{
    let mut path = dir.to_owned();
    proof {
        reveal_strlit("/");
    }
    path.append("/");
    path.append(name);
    assert("/"@ =~= seq!['/']);
    path
}

/// Whether `name` stands for a directory: it ends with the separator.
pub open spec fn names_directory(name: Seq<char>) -> bool {
    name.len() > 0 && name.last() == '/'
}

/// Tells whether an entry name stands for a directory.
pub fn is_directory_name(name: &str) -> (b: bool)
    ensures
        b == names_directory(name@),
{
    let mut last_is_slash = false;
    for c in it: name.chars()
        invariant
            it.seq() == name@,
            last_is_slash == (it.index() > 0 && name@[it.index() - 1] == '/'),
    {
        last_is_slash = c == '/';
    }
    last_is_slash
}

/// Whether `c` parts the segments of an entry name on some platform: the
/// slash, and the backslash with it, so that a name that is harmless here is
/// harmless wherever the archive is extracted.
pub open spec fn parts_segments(c: char) -> bool {
    c == '/' || c == '\\'
}

/// Whether a segment made of two dots, and nothing else, starts at `i`.
pub open spec fn parent_segment_at(name: Seq<char>, i: int) -> bool {
    &&& 0 <= i
    &&& i + 2 <= name.len()
    &&& (i == 0 || parts_segments(name[i - 1]))
    &&& name[i] == '.'
    &&& name[i + 1] == '.'
    &&& (i + 2 == name.len() || parts_segments(name[i + 2]))
}

/// Whether some segment of `name` is `..`, the step to the parent directory.
pub open spec fn has_parent_segment(name: Seq<char>) -> bool {
    exists|i: int| parent_segment_at(name, i)
}

/// Whether a `..` segment starts at `i` and is closed before `k`.
pub open spec fn closed_parent_segment(name: Seq<char>, i: int, k: int) -> bool {
    parent_segment_at(name, i) && i + 2 < k
}

/// Tells whether an entry name holds a `..` segment.
pub fn escapes_root(name: &str) -> (b: bool)
    ensures
        b == has_parent_segment(name@),
{
    // dots: how far the segment being read is a run of dots from its start on
    // (0, 1 or 2), or 3 once it is anything else.
    let mut dots: u8 = 0;
    let mut found = false;
    let ghost mut start: int = 0;
    for c in it: name.chars()
        invariant
            it.seq() == name@,
            0 <= start <= it.index(),
            start == 0 || parts_segments(name@[start - 1]),
            forall|j: int| start <= j < it.index() ==> !parts_segments(name@[j]),
            dots <= 3,
            dots == 0 <==> start == it.index(),
            dots == 1 <==> (start + 1 == it.index() && name@[start] == '.'),
            dots == 2 <==> (start + 2 == it.index() && name@[start] == '.' && name@[start + 1] == '.'),
            found <==> exists|i: int| closed_parent_segment(name@, i, it.index() as int),
    {
        let ghost k = it.index() as int;
        let ghost k1 = k + 1;
        if c == '/' || c == '\\' {
            proof {
                if dots == 2 {
                    assert(closed_parent_segment(name@, start, k1));
                } else if !found {
                    assert forall|i: int| !closed_parent_segment(name@, i, k1) by {
                        if closed_parent_segment(name@, i, k1) {
                            assert(!closed_parent_segment(name@, i, k));
                            assert(i + 2 == k);
                            assert(i >= start) by {
                                if i < start {
                                    assert(parts_segments(name@[start - 1]));
                                }
                            }
                            assert(i == start) by {
                                if i > start {
                                    assert(parts_segments(name@[i - 1]));
                                }
                            }
                        }
                    }
                }
                if found {
                    let i = choose|i: int| closed_parent_segment(name@, i, k);
                    assert(closed_parent_segment(name@, i, k1));
                }
                start = k + 1;
            }
            if dots == 2 {
                found = true;
            }
            dots = 0;
        } else {
            proof {
                if found {
                    let i = choose|i: int| closed_parent_segment(name@, i, k);
                    assert(closed_parent_segment(name@, i, k1));
                } else {
                    assert forall|i: int| !closed_parent_segment(name@, i, k1) by {
                        if closed_parent_segment(name@, i, k1) {
                            assert(!closed_parent_segment(name@, i, k));
                        }
                    }
                }
            }
            if c == '.' && dots < 2 {
                dots = dots + 1;
            } else {
                dots = 3;
            }
        }
    }
    proof {
        let n = name@.len() as int;
        if found {
            let i = choose|i: int| closed_parent_segment(name@, i, n);
            assert(parent_segment_at(name@, i));
        }
        if dots == 2 {
            assert(parent_segment_at(name@, start));
        }
        if !found && dots != 2 {
            assert forall|i: int| !parent_segment_at(name@, i) by {
                if parent_segment_at(name@, i) {
                    assert(!closed_parent_segment(name@, i, n));
                    assert(i + 2 == n);
                    if i < start {
                        assert(parts_segments(name@[start - 1]));
                    }
                    if i > start {
                        assert(parts_segments(name@[i - 1]));
                    }
                }
            }
        }
    }
    found || dots == 2
}

/// Whether the last separator of `path` stands at `p`.
pub open spec fn is_last_slash(path: Seq<char>, p: int) -> bool {
    &&& 0 <= p < path.len()
    &&& path[p] == '/'
    &&& forall|j: int| p < j < path.len() ==> path[j] != '/'
}

/// The directory that holds `path`: what stands before its last separator,
/// unless there is no separator or nothing stands before the last one.
pub open spec fn parent_of(path: Seq<char>) -> Option<Seq<char>> {
    if exists|p: int| 0 < p && is_last_slash(path, p) {
        Some(path.subrange(0, choose|p: int| 0 < p && is_last_slash(path, p)))
    } else {
        None
    }
}

/// Finds the directory that holds `path`.
pub fn parent_dir(path: &str) -> (r: Option<String>)
    ensures
        match r {
            Some(parent) => parent_of(path@) == Some(parent@),
            None => parent_of(path@) is None,
        },
{
    let n: usize = path.unicode_len();
    let mut last: usize = 0;
    let mut i: usize = 0;
    for c in it: path.chars()
        invariant
            it.seq() == path@,
            n == path@.len(),
            i == it.index(),
            last == 0 || last < i,
            last > 0 ==> path@[last as int] == '/',
            forall|j: int| last < j < i ==> path@[j] != '/',
    {
        if c == '/' && i > 0 {
            last = i;
        }
        i = i + 1;
    }
    if last > 0 {
        proof {
            assert(is_last_slash(path@, last as int));
            let p = choose|p: int| 0 < p && is_last_slash(path@, p);
            assert(p == last) by {
                if p < last {
                    assert(path@[last as int] == '/');
                }
                if p > last {
                    assert(path@[p] == '/');
                }
            }
        }
        Some(path.substring_char(0, last).to_owned())
    } else {
        proof {
            assert forall|p: int| !(0 < p && is_last_slash(path@, p)) by {
                if 0 < p && is_last_slash(path@, p) {
                    assert(path@[p] == '/');
                }
            }
        }
        None
    }
}

} // verus!
