//! Paths inside a layer, as the bytes that the layer holds: taking them apart
//! at the slashes and putting them together again.

use vstd::prelude::*;

verus! {

/// The byte `/`, which separates the components of a path.
pub const SLASH: u8 = 47;

/// `path` without the slashes at its end.
pub open spec fn trim_slashes(path: Seq<u8>) -> Seq<u8>
    decreases path.len(),
{
    if path.len() > 0 && path.last() == SLASH {
        trim_slashes(path.drop_last())
    } else {
        path
    }
}

/// The index of the last slash in `path`, or -1 where it has none.
pub open spec fn last_slash(path: Seq<u8>) -> int
    decreases path.len(),
{
    if path.len() == 0 {
        -1
    } else if path.last() == SLASH {
        path.len() - 1
    } else {
        last_slash(path.drop_last())
    }
}

/// The last component of `path`: what follows the last slash, slashes at the
/// end of the path not counted. It is empty where the path is empty or made
/// of slashes.
pub open spec fn basename(path: Seq<u8>) -> Seq<u8> {
    let trimmed = trim_slashes(path);
    trimmed.subrange(last_slash(trimmed) + 1, trimmed.len() as int)
}

/// The directory that `path` lies in: what stands before the last slash,
/// slashes at the end of the path not counted. It is empty for a path of one
/// component.
pub open spec fn parent(path: Seq<u8>) -> Seq<u8> {
    let trimmed = trim_slashes(path);
    if last_slash(trimmed) < 0 {
        Seq::empty()
    } else {
        trimmed.subrange(0, last_slash(trimmed))
    }
}

/// The path of `name` in the directory `dir`; in the empty directory, the
/// name itself.
pub open spec fn join(dir: Seq<u8>, name: Seq<u8>) -> Seq<u8> {
    if dir.len() == 0 {
        name
    } else {
        dir + seq![SLASH] + name
    }
}

/// `path` without the slashes at its start: the path as one below the staging
/// root.
pub open spec fn rooted(path: Seq<u8>) -> Seq<u8>
    decreases path.len(),
{
    if path.len() > 0 && path[0] == SLASH {
        rooted(path.drop_first())
    } else {
        path
    }
}

/// `path` as it is kept for the staging tree: without the slashes at its start
/// and at its end, so that a directory is written the same with and without
/// a closing slash.
pub open spec fn staged(path: Seq<u8>) -> Seq<u8> {
    trim_slashes(rooted(path))
}

/// Whether `path` lies below the directory `dir`: it continues `dir` with a
/// slash and a name. Everything lies below the empty directory, the root.
pub open spec fn is_below(path: Seq<u8>, dir: Seq<u8>) -> bool {
    if dir.len() == 0 {
        path.len() > 0
    } else {
        path.len() > dir.len() + 1 && path.subrange(0, dir.len() as int) == dir && path[dir.len() as int]
            == SLASH
    }
}

/// The last slash lies inside the path, where there is one.
pub proof fn lemma_last_slash_bounds(path: Seq<u8>)
    ensures
        -1 <= last_slash(path) < path.len(),
        last_slash(path) >= 0 ==> path[last_slash(path)] == SLASH,
        forall|i: int| last_slash(path) < i < path.len() ==> path[i] != SLASH,
    decreases path.len(),
{
    if path.len() > 0 && path.last() != SLASH {
        let shorter = path.drop_last();
        lemma_last_slash_bounds(shorter);
        assert forall|i: int| last_slash(path) < i < path.len() implies path[i] != SLASH by {
            if i < shorter.len() {
                assert(shorter[i] == path[i]);
            }
        }
    }
}

/// Trimming leaves a prefix that does not end in a slash.
pub proof fn lemma_trim_slashes(path: Seq<u8>)
    ensures
        trim_slashes(path).len() <= path.len(),
        trim_slashes(path) == path.take(trim_slashes(path).len() as int),
        trim_slashes(path).len() > 0 ==> trim_slashes(path).last() != SLASH,
    decreases path.len(),
{
    if path.len() > 0 && path.last() == SLASH {
        lemma_trim_slashes(path.drop_last());
        let n = trim_slashes(path).len() as int;
        assert(path.drop_last().take(n) =~= path.take(n));
    } else {
        assert(path.take(path.len() as int) =~= path);
    }
}

/// The last component holds no slash.
pub proof fn lemma_basename_has_no_slash(path: Seq<u8>)
    ensures
        forall|i: int| 0 <= i < basename(path).len() ==> basename(path)[i] != SLASH,
{
    lemma_last_slash_bounds(trim_slashes(path));
}

/// A rooted path does not begin with a slash, and is the end of the path it
/// was made from.
pub proof fn lemma_rooted(path: Seq<u8>)
    ensures
        rooted(path).len() <= path.len(),
        rooted(path) == path.skip(path.len() - rooted(path).len()),
        rooted(path).len() > 0 ==> rooted(path)[0] != SLASH,
        rooted(rooted(path)) == rooted(path),
    decreases path.len(),
{
    if path.len() > 0 && path[0] == SLASH {
        lemma_rooted(path.drop_first());
        let k = path.len() - rooted(path).len();
        assert(path.drop_first().skip(k - 1) =~= path.skip(k));
    } else {
        assert(path.skip(0) =~= path);
    }
}

/// The bytes of `path` from `from` up to `to`.
pub fn copy_range(path: &[u8], from: usize, to: usize) -> (part: Vec<u8>)
    requires
        from <= to <= path.len(),
    ensures
        part@ == path@.subrange(from as int, to as int),
{
    let mut part: Vec<u8> = Vec::new();
    let mut i: usize = from;
    while i < to
        invariant
            from <= i <= to <= path.len(),
            part@ == path@.subrange(from as int, i as int),
        decreases to - i,
    {
        part.push(path[i]);
        i += 1;
        assert(part@ =~= path@.subrange(from as int, i as int));
    }
    part
}

/// The length of `path` without the slashes at its end.
pub fn trimmed_len(path: &[u8]) -> (n: usize)
    ensures
        n <= path.len(),
        path@.take(n as int) == trim_slashes(path@),
{
    let mut n: usize = path.len();
    assert(path@.take(n as int) =~= path@);
    while n > 0 && path[n - 1] == SLASH
        invariant
            n <= path.len(),
            trim_slashes(path@.take(n as int)) == trim_slashes(path@),
        decreases n,
    {
        assert(path@.take(n as int).drop_last() =~= path@.take(n - 1));
        n -= 1;
    }
    n
}

/// The index of the last slash among the first `end` bytes of `path`.
pub fn last_slash_before(path: &[u8], end: usize) -> (found: Option<usize>)
    requires
        end <= path.len(),
    ensures
        match found {
            Some(i) => i == last_slash(path@.take(end as int)),
            None => last_slash(path@.take(end as int)) == -1,
        },
{
    let mut k: usize = end;
    while k > 0
        invariant
            k <= end <= path.len(),
            last_slash(path@.take(k as int)) == last_slash(path@.take(end as int)),
        decreases k,
    {
        if path[k - 1] == SLASH {
            return Some(k - 1);
        }
        assert(path@.take(k as int).drop_last() =~= path@.take(k - 1));
        k -= 1;
    }
    None
}

/// The last component of `path`.
pub fn basename_of(path: &[u8]) -> (name: Vec<u8>)
    ensures
        name@ == basename(path@),
{
    let end = trimmed_len(path);
    proof {
        lemma_last_slash_bounds(path@.take(end as int));
    }
    let start = match last_slash_before(path, end) {
        Some(i) => i + 1,
        None => 0,
    };
    let name = copy_range(path, start, end);
    assert(name@ =~= basename(path@));
    name
}

/// The directory that `path` lies in.
pub fn parent_of(path: &[u8]) -> (dir: Vec<u8>)
    ensures
        dir@ == parent(path@),
{
    let end = trimmed_len(path);
    proof {
        lemma_last_slash_bounds(path@.take(end as int));
    }
    match last_slash_before(path, end) {
        Some(i) => {
            let dir = copy_range(path, 0, i);
            assert(dir@ =~= parent(path@));
            dir
        },
        None => Vec::new(),
    }
}

/// The path of `name` in the directory `dir`.
pub fn join_paths(dir: &[u8], name: &[u8]) -> (path: Vec<u8>)
    ensures
        path@ == join(dir@, name@),
{
    let mut path: Vec<u8> = copy_range(dir, 0, dir.len());
    assert(path@ =~= dir@);
    if dir.len() > 0 {
        path.push(SLASH);
    }
    let mut i: usize = 0;
    let ghost start = path@;
    while i < name.len()
        invariant
            i <= name.len(),
            path@ == start + name@.take(i as int),
        decreases name.len() - i,
    {
        path.push(name[i]);
        i += 1;
        assert(path@ =~= start + name@.take(i as int));
    }
    assert(name@.take(i as int) =~= name@);
    assert(path@ =~= join(dir@, name@));
    path
}

/// `path` as one below the staging root.
pub fn rooted_of(path: &[u8]) -> (below: Vec<u8>)
    ensures
        below@ == rooted(path@),
{
    let mut n: usize = 0;
    assert(path@.skip(0) =~= path@);
    while n < path.len() && path[n] == SLASH
        invariant
            n <= path.len(),
            rooted(path@.skip(n as int)) == rooted(path@),
        decreases path.len() - n,
    {
        assert(path@.skip(n as int).drop_first() =~= path@.skip(n + 1));
        n += 1;
    }
    let below = copy_range(path, n, path.len());
    assert(below@ =~= path@.skip(n as int));
    below
}

/// `path` as it is kept for the staging tree.
pub fn staged_of(path: &[u8]) -> (kept: Vec<u8>)
    ensures
        kept@ == staged(path@),
{
    let below = rooted_of(path);
    let end = trimmed_len(below.as_slice());
    let kept = copy_range(below.as_slice(), 0, end);
    assert(kept@ =~= below@.take(end as int));
    kept
}

} // verus!
