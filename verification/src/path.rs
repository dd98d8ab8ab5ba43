//! Paths as plain text. Both `\` and `/` part the components, whatever the
//! machine that runs the library; nothing here asks the file system.

use vstd::prelude::*;
use vstd::string::StringExecFns;
use crate::text::to_chars;

verus! {

/// The characters that part the components of a path.
pub open spec fn is_separator(c: char) -> bool {
    c == '\\' || c == '/'
}

/// The index just behind the last separator of `path`: 0 when it has none.
pub open spec fn name_start(path: Seq<char>) -> int
    decreases path.len(),
{
    if path.len() == 0 {
        0
    } else if is_separator(path.last()) {
        path.len() as int
    } else {
        name_start(path.drop_last())
    }
}

/// The file name: what follows the last separator.
pub open spec fn file_name(path: Seq<char>) -> Seq<char> {
    path.subrange(name_start(path), path.len() as int)
}

/// The folder: what stands before the last separator; empty when there is none.
pub open spec fn parent(path: Seq<char>) -> Seq<char> {
    if name_start(path) == 0 {
        Seq::empty()
    } else {
        path.subrange(0, name_start(path) - 1)
    }
}

/// The index of the last dot of `name`: -1 when it has none.
pub open spec fn last_dot(name: Seq<char>) -> int
    decreases name.len(),
{
    if name.len() == 0 {
        -1
    } else if name.last() == '.' {
        name.len() - 1
    } else {
        last_dot(name.drop_last())
    }
}

/// A file name without its extension: the name up to its last dot, or the
/// whole name where it has no dot or only a leading one.
pub open spec fn stem_of(name: Seq<char>) -> Seq<char> {
    if last_dot(name) > 0 {
        name.subrange(0, last_dot(name))
    } else {
        name
    }
}

/// The stem of the file name of `path`.
pub open spec fn file_stem(path: Seq<char>) -> Seq<char> {
    stem_of(file_name(path))
}

/// `rel` below the folder `base`, parted by one `\` unless `base` is empty
/// or already ends in a separator.
pub open spec fn join(base: Seq<char>, rel: Seq<char>) -> Seq<char> {
    if base.len() == 0 {
        rel
    } else if is_separator(base.last()) {
        base + rel
    } else {
        base + seq!['\\'] + rel
    }
}

/// Where the last separator stands and what follows it.
pub proof fn name_start_bounds(path: Seq<char>)
    ensures
        0 <= name_start(path) <= path.len(),
        name_start(path) > 0 ==> is_separator(path[name_start(path) - 1]),
        forall|j: int| name_start(path) <= j < path.len() ==> !is_separator(path[j]),
    decreases path.len(),
{
    if path.len() > 0 && !is_separator(path.last()) {
        let shorter = path.drop_last();
        name_start_bounds(shorter);
        assert forall|j: int| name_start(path) <= j < path.len() implies !is_separator(
            path[j],
        ) by {
            if j < shorter.len() {
                assert(path[j] == shorter[j]);
            }
        }
    }
}

/// Where the last dot stands and what follows it.
pub proof fn last_dot_bounds(name: Seq<char>)
    ensures
        -1 <= last_dot(name) < name.len(),
        last_dot(name) >= 0 ==> name[last_dot(name)] == '.',
        forall|j: int| last_dot(name) < j < name.len() ==> name[j] != '.',
    decreases name.len(),
{
    if name.len() > 0 && name.last() != '.' {
        let shorter = name.drop_last();
        last_dot_bounds(shorter);
        assert forall|j: int| last_dot(name) < j < name.len() implies name[j] != '.' by {
            if j < shorter.len() {
                assert(name[j] == shorter[j]);
            }
        }
    }
}

/// The index just behind the last separator of `path`.
pub fn find_name_start(path: &Vec<char>) -> (r: usize)
    ensures
        r == name_start(path@),
        r <= path@.len(),
{
    let mut k: usize = path.len();
    assert(path@.take(k as int) =~= path@);
    while k > 0
        invariant
            k <= path@.len(),
            name_start(path@) == name_start(path@.take(k as int)),
        decreases k,
    {
        let c: char = path[k - 1];
        if c == '\\' || c == '/' {
            return k;
        }
        assert(path@.take(k as int).drop_last() =~= path@.take(k - 1));
        k -= 1;
    }
    k
}

/// The half-open range of `path` that holds its file stem.
pub fn find_stem(path: &Vec<char>) -> (r: (usize, usize))
    ensures
        r.0 <= r.1 <= path@.len(),
        path@.subrange(r.0 as int, r.1 as int) == file_stem(path@),
{
    let start: usize = find_name_start(path);
    let ghost name = file_name(path@);
    let mut k: usize = path.len();
    assert(name.take(k - start) =~= name);
    while k > start
        invariant
            start <= k <= path@.len(),
            start == name_start(path@),
            name == path@.subrange(start as int, path@.len() as int),
            last_dot(name) == last_dot(name.take(k - start)),
        decreases k,
    {
        if path[k - 1] == '.' {
            proof {
                last_dot_bounds(name.take(k - start));
                if k - 1 > start {
                    assert(name.subrange(0, k - 1 - start) =~= path@.subrange(
                        start as int,
                        k - 1,
                    ));
                } else {
                    assert(name =~= path@.subrange(start as int, path@.len() as int));
                }
            }
            if k - 1 > start {
                return (start, k - 1);
            } else {
                return (start, path.len());
            }
        }
        assert(name.take(k - start).drop_last() =~= name.take(k - 1 - start));
        k -= 1;
    }
    (start, path.len())
}

/// The characters of `v` from index `from` up to, not including, `to`.
pub fn slice_chars(v: &Vec<char>, from: usize, to: usize) -> (r: Vec<char>)
    requires
        from <= to <= v@.len(),
    ensures
        r@ == v@.subrange(from as int, to as int),
{
    let mut out: Vec<char> = Vec::new();
    let mut k: usize = from;
    while k < to
        invariant
            from <= k <= to <= v@.len(),
            out@ == v@.subrange(from as int, k as int),
        decreases to - k,
    {
        out.push(v[k]);
        k += 1;
        assert(out@ =~= v@.subrange(from as int, k as int));
    }
    out
}

/// The stem of the file name of `path`, as characters.
pub fn stem_chars(path: &str) -> (r: Vec<char>)
    ensures
        r@ == file_stem(path@),
{
    let chars = to_chars(path);
    let (from, to) = find_stem(&chars);
    slice_chars(&chars, from, to)
}

/// The folder of `path`: what stands before its last separator.
pub fn parent_dir(path: &str) -> (r: String)
    ensures
        r@ == parent(path@),
{
    let chars = to_chars(path);
    let start: usize = find_name_start(&chars);
    if start == 0 {
        String::new()
    } else {
        path.substring_char(0, start - 1).to_owned()
    }
}

/// `rel` below the folder `base`.
pub fn join_path(base: &str, rel: &str) -> (r: String)
    ensures
        r@ == join(base@, rel@),
{
    let chars = to_chars(base);
    let n: usize = chars.len();
    if n == 0 {
        return rel.to_owned();
    }
    let mut out: String = base.to_owned();
    let last: char = chars[n - 1];
    if !(last == '\\' || last == '/') {
        proof {
            reveal_strlit("\\");
            assert("\\"@ =~= seq!['\\']);
        }
        out.append("\\");
    }
    out.append(rel);
    out
}

} // verus!
