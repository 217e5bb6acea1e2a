use vstd::prelude::*;

verus! {

/// A mounted drive: where it is mounted and how many bytes are free on it.
pub struct MountedDisk {
    pub mount_point: String,
    pub available_space: u64,
}

/// Whether `base` is a prefix of `path` made of whole path components.
pub uninterp spec fn path_starts_with(path: Seq<char>, base: Seq<char>) -> bool;

/// Relies on `std::path::Path::starts_with`: whether `base` is a prefix of
/// `path` made of whole components.
#[verifier::external_body]
fn path_has_prefix(path: &str, base: &str) -> (r: bool)
    ensures
        r == path_starts_with(path@, base@),
{
    std::path::Path::new(path).starts_with(base)
}

/// Relies on `sysinfo::Disks::new_with_refreshed_list`, `Disks::list`,
/// `Disk::mount_point` and `Disk::available_space`: the drives mounted now,
/// as the host reports them. Nothing is known of the result in advance.
#[verifier::external_body]
pub(crate) fn mounted_disks() -> (r: Vec<MountedDisk>) {
    sysinfo::Disks::new_with_refreshed_list().list().iter().map(
        |d| MountedDisk {
            mount_point: d.mount_point().to_string_lossy().into_owned(),
            available_space: d.available_space(),
        },
    ).collect()
}

/// Drive `d` holds the directory `dir`, or an ancestor of it.
pub open spec fn mounted_above(d: MountedDisk, dir: Seq<char>) -> bool {
    path_starts_with(dir, d.mount_point@)
}

/// Which of `disks` are mounted above `dir`, one flag each.
pub open spec fn mount_flags(disks: Seq<MountedDisk>, dir: Seq<char>) -> Seq<bool> {
    Seq::new(disks.len(), |j: int| mounted_above(disks[j], dir))
}

/// Among the drives flagged in `above`, `disks[i]` is the one mounted at the
/// deepest point, the first of those listed where several are.
pub open spec fn is_deepest(disks: Seq<MountedDisk>, above: Seq<bool>, i: int) -> bool {
    &&& 0 <= i < disks.len()
    &&& above[i]
    &&& forall|j: int|
        0 <= j < disks.len() && #[trigger] above[j] ==> disks[j].mount_point@.len()
            <= disks[i].mount_point@.len()
    &&& forall|j: int|
        0 <= j < i && #[trigger] above[j] ==> disks[j].mount_point@.len()
            < disks[i].mount_point@.len()
}

/// `disks[i]` is the drive backing `dir`: the deepest one mounted above it.
pub open spec fn is_backing(disks: Seq<MountedDisk>, dir: Seq<char>, i: int) -> bool {
    is_deepest(disks, mount_flags(disks, dir), i)
}

/// The deepest of the drives flagged in `above`, if any is.
pub open spec fn deepest(disks: Seq<MountedDisk>, above: Seq<bool>) -> Option<MountedDisk> {
    if exists|i: int| is_deepest(disks, above, i) {
        Some(disks[choose|i: int| is_deepest(disks, above, i)])
    } else {
        None
    }
}

/// The drive backing `dir`, if any drive is mounted above it.
pub open spec fn backing_disk(disks: Seq<MountedDisk>, dir: Seq<char>) -> Option<MountedDisk> {
    deepest(disks, mount_flags(disks, dir))
}

/// At most one drive is the deepest.
pub proof fn lemma_deepest_is_unique(disks: Seq<MountedDisk>, above: Seq<bool>, i: int, k: int)
    requires
        is_deepest(disks, above, i),
        is_deepest(disks, above, k),
    ensures
        i == k,
{
    if i < k {
        assert(above[i]);
    } else if k < i {
        assert(above[k]);
    }
}

/// The deepest of the drives flagged in `above` (`above[i]` for `disks[i]`).
pub fn pick_deepest(disks: &Vec<MountedDisk>, above: &Vec<bool>) -> (r: Option<usize>)
    requires
        above@.len() == disks@.len(),
    ensures
        match r {
            Some(i) => is_deepest(disks@, above@, i as int) && deepest(disks@, above@) == Some(
                disks@[i as int],
            ),
            None => deepest(disks@, above@) is None && forall|j: int|
                0 <= j < disks@.len() ==> !#[trigger] above@[j],
        },
{
    let mut best: Option<usize> = None;
    let mut best_len: usize = 0;
    let mut i: usize = 0;
    while i < disks.len()
        invariant
            i <= disks@.len(),
            above@.len() == disks@.len(),
            match best {
                Some(b) => {
                    &&& b < i
                    &&& above@[b as int]
                    &&& best_len == disks@[b as int].mount_point@.len()
                    &&& forall|j: int|
                        0 <= j < i && #[trigger] above@[j] ==> disks@[j].mount_point@.len()
                            <= best_len
                    &&& forall|j: int|
                        0 <= j < b && #[trigger] above@[j] ==> disks@[j].mount_point@.len()
                            < best_len
                },
                None => forall|j: int| 0 <= j < i ==> !#[trigger] above@[j],
            },
        decreases disks@.len() - i,
    {
        if above[i] {
            let len = disks[i].mount_point.as_str().unicode_len();
            let better = match best {
                Some(_) => len > best_len,
                None => true,
            };
            if better {
                best = Some(i);
                best_len = len;
            }
        }
        i = i + 1;
    }
    match best {
        Some(b) => {
            proof {
                assert(is_deepest(disks@, above@, b as int));
                let k = choose|k: int| is_deepest(disks@, above@, k);
                lemma_deepest_is_unique(disks@, above@, b as int, k);
            }
        },
        None => {},
    }
    best
}

/// The drive that backs the directory `dir`, if any.
pub fn find_backing_disk(dir: &str, disks: &Vec<MountedDisk>) -> (r: Option<usize>)
    ensures
        match r {
            Some(i) => is_backing(disks@, dir@, i as int) && backing_disk(disks@, dir@) == Some(
                disks@[i as int],
            ),
            None => backing_disk(disks@, dir@) is None,
        },
{
    let mut above: Vec<bool> = Vec::new();
    let mut i: usize = 0;
    while i < disks.len()
        invariant
            i <= disks@.len(),
            above@ == mount_flags(disks@, dir@).subrange(0, i as int),
        decreases disks@.len() - i,
    {
        above.push(path_has_prefix(dir, disks[i].mount_point.as_str()));
        i = i + 1;
        assert(above@ =~= mount_flags(disks@, dir@).subrange(0, i as int));
    }
    assert(above@ =~= mount_flags(disks@, dir@));
    pick_deepest(disks, &above)
}

} // verus!
