//! Finding the hugetlbfs mount that holds a cache segment: reading a mount
//! table and choosing the largest candidate file.
use vstd::prelude::*;

verus! {

/// The byte that ends a line.
pub const NEWLINE: u8 = 10;

/// The byte between fields of a mount table line.
pub const SPACE: u8 = 32;

/// The byte between directories of a path.
pub const SLASH: u8 = 47;

/// The file system name of an overlay mount.
pub const OVERLAY: [u8; 7] = [111, 118, 101, 114, 108, 97, 121];

/// The file system type of a huge page mount.
pub const HUGETLBFS: [u8; 9] = [104, 117, 103, 101, 116, 108, 98, 102, 115];

/// "overlay".
pub open spec fn overlay_name() -> Seq<u8> {
    seq![111u8, 118, 101, 114, 108, 97, 121]
}

/// "hugetlbfs".
pub open spec fn hugetlbfs_name() -> Seq<u8> {
    seq![104u8, 117, 103, 101, 116, 108, 98, 102, 115]
}

/// The pieces of `s` between `sep` bytes, in order; `s` with no `sep` is one
/// piece, and two adjacent `sep` bytes have an empty piece between them.
pub open spec fn split_on(s: Seq<u8>, sep: u8) -> Seq<Seq<u8>>
    decreases s.len(),
{
    if s.len() == 0 {
        seq![Seq::empty()]
    } else {
        let f = split_on(s.drop_last(), sep);
        if s.last() == sep {
            f.push(Seq::empty())
        } else {
            f.update(f.len() - 1, f.last().push(s.last()))
        }
    }
}

proof fn lemma_split_nonempty(s: Seq<u8>, sep: u8)
    ensures
        split_on(s, sep).len() >= 1,
    decreases s.len(),
{
    if s.len() > 0 {
        lemma_split_nonempty(s.drop_last(), sep);
    }
}

/// Whether a mount table line is a huge page mount that is not an overlay
/// root: at least four fields, the third `hugetlbfs`.
pub open spec fn is_hugetlb_line(line: Seq<u8>) -> bool {
    let f = split_on(line, SPACE);
    &&& f.len() >= 4
    &&& !(f[0] == overlay_name() && f[1] == seq![SLASH])
    &&& f[2] == hugetlbfs_name()
}

/// The mount points of the huge page mounts among `lines`, in order.
pub open spec fn hugetlb_points(lines: Seq<Seq<u8>>) -> Seq<Seq<u8>>
    decreases lines.len(),
{
    if lines.len() == 0 {
        Seq::empty()
    } else {
        let before = hugetlb_points(lines.drop_last());
        if is_hugetlb_line(lines.last()) {
            before.push(split_on(lines.last(), SPACE)[1])
        } else {
            before
        }
    }
}

/// Splits `s` at every `sep` byte; see [`split_on`].
pub fn split_bytes(s: &[u8], sep: u8) -> (r: Vec<Vec<u8>>)
    ensures
        r.deep_view() == split_on(s@, sep),
{
    let mut out: Vec<Vec<u8>> = Vec::new();
    let mut cur: Vec<u8> = Vec::new();
    let mut i: usize = 0;
    while i < s.len()
        invariant
            i <= s@.len(),
            out.deep_view().push(cur@) == split_on(s@.take(i as int), sep),
        decreases s@.len() - i,
    {
        proof {
            lemma_split_nonempty(s@.take(i as int), sep);
            assert(s@.take(i + 1).drop_last() =~= s@.take(i as int));
        }
        let b = s[i];
        if b == sep {
            let done = cur;
            let ghost prev = out.deep_view();
            assert(done.deep_view() =~= done@);
            out.push(done);
            cur = Vec::new();
            assert(out.deep_view() =~= prev.push(done@));
            assert(out.deep_view().push(cur@) =~= prev.push(done@).push(Seq::<u8>::empty()));
        } else {
            let ghost prev = cur@;
            cur.push(b);
            assert(out.deep_view().push(cur@) =~= out.deep_view().push(prev).update(
                out.deep_view().len() as int,
                prev.push(b),
            ));
        }
        i = i + 1;
    }
    assert(s@.take(s@.len() as int) =~= s@);
    let ghost prev = out.deep_view();
    assert(cur.deep_view() =~= cur@);
    out.push(cur);
    assert(out.deep_view() =~= prev.push(cur@));
    out
}

/// Whether `a` and `b` hold the same bytes.
pub fn bytes_eq(a: &[u8], b: &[u8]) -> (r: bool)
    ensures
        r == (a@ == b@),
{
    if a.len() != b.len() {
        return false;
    }
    let mut i: usize = 0;
    while i < a.len()
        invariant
            a@.len() == b@.len(),
            i <= a@.len(),
            forall|j: int| 0 <= j < i ==> a@[j] == b@[j],
        decreases a@.len() - i,
    {
        if a[i] != b[i] {
            return false;
        }
        i = i + 1;
    }
    assert(a@ =~= b@);
    true
}

/// Whether a mount table line is a huge page mount; see [`is_hugetlb_line`].
pub fn hugetlb_line(line: &[u8]) -> (r: bool)
    ensures
        r == is_hugetlb_line(line@),
{
    let f = split_bytes(line, SPACE);
    if f.len() < 4 {
        return false;
    }
    proof {
        assert(f.deep_view()[0] == f@[0]@);
        assert(f.deep_view()[1] == f@[1]@);
        assert(f.deep_view()[2] == f@[2]@);
    }
    let slash = [SLASH];
    assert(slash@ =~= seq![SLASH]);
    assert(OVERLAY@ =~= overlay_name());
    assert(HUGETLBFS@ =~= hugetlbfs_name());
    if bytes_eq(f[0].as_slice(), OVERLAY.as_slice()) && bytes_eq(f[1].as_slice(), slash.as_slice()) {
        return false;
    }
    bytes_eq(f[2].as_slice(), HUGETLBFS.as_slice())
}

/// The mount points of the huge page mounts in a mount table, in order; see
/// [`hugetlb_points`].
pub fn hugetlb_mounts(table: &[u8]) -> (r: Vec<Vec<u8>>)
    ensures
        r.deep_view() == hugetlb_points(split_on(table@, NEWLINE)),
{
    let lines = split_bytes(table, NEWLINE);
    let ghost all = split_on(table@, NEWLINE);
    let mut out: Vec<Vec<u8>> = Vec::new();
    let mut i: usize = 0;
    while i < lines.len()
        invariant
            lines.deep_view() == all,
            i <= lines@.len(),
            out.deep_view() == hugetlb_points(all.take(i as int)),
        decreases lines@.len() - i,
    {
        proof {
            assert(all.take(i + 1).drop_last() =~= all.take(i as int));
            assert(all.take(i + 1).last() == lines@[i as int]@);
        }
        if hugetlb_line(lines[i].as_slice()) {
            let f = split_bytes(lines[i].as_slice(), SPACE);
            let ghost prev = out.deep_view();
            let point = f[1].clone();
            assert(point@ == f@[1]@);
            assert(f.deep_view()[1] == f@[1]@);
            out.push(point);
            assert(out.deep_view() =~= prev.push(point@));
        }
        i = i + 1;
    }
    assert(all.take(lines@.len() as int) =~= all);
    out
}

/// The path of `file` under the directory `dir`.
pub fn mount_path(dir: &[u8], file: &[u8]) -> (r: Vec<u8>)
    ensures
        r@ == dir@ + seq![SLASH] + file@,
{
    let mut out: Vec<u8> = Vec::new();
    let mut i: usize = 0;
    while i < dir.len()
        invariant
            i <= dir@.len(),
            out@ == dir@.take(i as int),
        decreases dir@.len() - i,
    {
        out.push(dir[i]);
        i = i + 1;
        assert(out@ =~= dir@.take(i as int));
    }
    out.push(SLASH);
    let mut j: usize = 0;
    while j < file.len()
        invariant
            j <= file@.len(),
            out@ == dir@.take(dir@.len() as int) + seq![SLASH] + file@.take(j as int),
        decreases file@.len() - j,
    {
        out.push(file[j]);
        j = j + 1;
        assert(out@ =~= dir@.take(dir@.len() as int) + seq![SLASH] + file@.take(j as int));
    }
    assert(dir@.take(dir@.len() as int) =~= dir@);
    assert(file@.take(file@.len() as int) =~= file@);
    out
}

/// The choice among candidate files of sizes `lens` (`None` for one that
/// cannot be read): the last one that is at least as large as every readable
/// one before it and as the shared-memory file (`shm`, taken as empty when
/// unreadable); `None` when no candidate qualifies.
pub open spec fn largest_of(shm: Option<u64>, lens: Seq<Option<u64>>) -> (Option<int>, u64)
    decreases lens.len(),
{
    if lens.len() == 0 {
        (None, if shm is Some { shm->Some_0 } else { 0 })
    } else {
        let (best, bar) = largest_of(shm, lens.drop_last());
        match lens.last() {
            Some(l) => if l >= bar {
                (Some(lens.len() - 1), l)
            } else {
                (best, bar)
            },
            None => (best, bar),
        }
    }
}

/// Chooses among candidate files by size; see [`largest_of`].
pub fn select_largest(shm: Option<u64>, lens: &[Option<u64>]) -> (r: Option<usize>)
    ensures
        r matches Some(i) ==> largest_of(shm, lens@).0 == Some(i as int),
        r is None ==> largest_of(shm, lens@).0 is None,
{
    let mut bar: u64 = match shm {
        Some(l) => l,
        None => 0,
    };
    let mut best: Option<usize> = None;
    let mut i: usize = 0;
    while i < lens.len()
        invariant
            i <= lens@.len(),
            largest_of(shm, lens@.take(i as int)).1 == bar,
            best matches Some(k) ==> largest_of(shm, lens@.take(i as int)).0 == Some(k as int),
            best is None ==> largest_of(shm, lens@.take(i as int)).0 is None,
        decreases lens@.len() - i,
    {
        assert(lens@.take(i + 1).drop_last() =~= lens@.take(i as int));
        match lens[i] {
            Some(l) => {
                if l >= bar {
                    best = Some(i);
                    bar = l;
                }
            },
            None => {},
        }
        i = i + 1;
    }
    assert(lens@.take(lens@.len() as int) =~= lens@);
    best
}

} // verus!
