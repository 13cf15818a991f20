//! What holds of every handle and every directory, over the contracts of
//! `LockFile::new`, `LockFile::in_dir`, `LockFile::is_locked`,
//! `LockFile::lock` and `LockFile::release`.
use vstd::prelude::*;

use crate::lock_file::{
    acquire_reports, default_lock_dir, entries_after_acquire, entries_after_release, marker_path,
    release_reports, LockFile,
};
use crate::outcome::{AcquireOutcome, ReleaseOutcome};

verus! {

/// Two handles made by `LockFile::new` from one session name have one marker
/// path, so in every directory they see the same lock state.
pub proof fn lemma_same_session_same_marker(
    session: Seq<char>,
    a: LockFile,
    b: LockFile,
    entries: Set<Seq<char>>,
)
    requires
        a@ == marker_path(default_lock_dir(), session),
        b@ == marker_path(default_lock_dir(), session),
    ensures
        a@ == b@,
        entries.contains(a@) == entries.contains(b@),
{
}

/// Unless it failed, acquiring leaves the marker in place, so that
/// `is_locked` then answers true.
pub proof fn lemma_locked_after_acquire(
    entries: Set<Seq<char>>,
    writable: bool,
    path: Seq<char>,
    r: AcquireOutcome,
)
    requires
        acquire_reports(entries, writable, path, r),
        !(r is Failed),
    ensures
        entries_after_acquire(entries, writable, path).contains(path),
{
}

/// Unless it failed, releasing leaves no marker, so that `is_locked` then
/// answers false.
pub proof fn lemma_unlocked_after_release(
    entries: Set<Seq<char>>,
    writable: bool,
    path: Seq<char>,
    r: ReleaseOutcome,
)
    requires
        release_reports(entries, writable, path, r),
        !(r is Failed),
    ensures
        !entries_after_release(entries, writable, path).contains(path),
{
}

/// Acquiring twice: where the marker was absent and the directory writable
/// the first reports `Acquired`; unless the first failed, the second reports
/// `AlreadyHeld` and changes nothing, so one marker exists.
pub proof fn lemma_acquire_twice(
    entries: Set<Seq<char>>,
    writable: bool,
    path: Seq<char>,
    first: AcquireOutcome,
    second: AcquireOutcome,
)
    requires
        acquire_reports(entries, writable, path, first),
        acquire_reports(entries_after_acquire(entries, writable, path), writable, path, second),
    ensures
        !entries.contains(path) && writable ==> first == AcquireOutcome::Acquired,
        !(first is Failed) ==> second == AcquireOutcome::AlreadyHeld,
        !(first is Failed) ==> entries_after_acquire(
            entries_after_acquire(entries, writable, path),
            writable,
            path,
        ) == entries_after_acquire(entries, writable, path),
{
    if writable {
        assert(entries.insert(path).insert(path) =~= entries.insert(path));
    }
}

/// Releasing twice: where the marker existed and the directory is writable
/// the first reports `Released`; unless the first failed, the second reports
/// `NothingToRelease` and changes nothing.
pub proof fn lemma_release_twice(
    entries: Set<Seq<char>>,
    writable: bool,
    path: Seq<char>,
    first: ReleaseOutcome,
    second: ReleaseOutcome,
)
    requires
        release_reports(entries, writable, path, first),
        release_reports(entries_after_release(entries, writable, path), writable, path, second),
    ensures
        entries.contains(path) && writable ==> first == ReleaseOutcome::Released,
        !(first is Failed) ==> second == ReleaseOutcome::NothingToRelease,
        !(first is Failed) ==> entries_after_release(
            entries_after_release(entries, writable, path),
            writable,
            path,
        ) == entries_after_release(entries, writable, path),
{
    if writable {
        assert(entries.remove(path).remove(path) =~= entries.remove(path));
    }
}

/// Acquiring and then releasing an unused marker in a writable directory
/// reports `Acquired`, then `Released`; the marker is seen in between, and
/// afterwards the directory holds exactly what it held before.
pub proof fn lemma_round_trip(
    entries: Set<Seq<char>>,
    path: Seq<char>,
    acquired: AcquireOutcome,
    released: ReleaseOutcome,
)
    requires
        !entries.contains(path),
        acquire_reports(entries, true, path, acquired),
        release_reports(entries_after_acquire(entries, true, path), true, path, released),
    ensures
        acquired == AcquireOutcome::Acquired,
        entries_after_acquire(entries, true, path).contains(path),
        released == ReleaseOutcome::Released,
        !entries_after_release(entries_after_acquire(entries, true, path), true, path).contains(
            path,
        ),
        entries_after_release(entries_after_acquire(entries, true, path), true, path) == entries,
{
    assert(entries.insert(path).remove(path) =~= entries);
}

/// Distinct session names in one directory have distinct marker paths.
pub proof fn lemma_marker_path_distinct(dir: Seq<char>, a: Seq<char>, b: Seq<char>)
    requires
        a != b,
    ensures
        marker_path(dir, a) != marker_path(dir, b),
{
    let pa = marker_path(dir, a);
    let pb = marker_path(dir, b);
    if a.len() == b.len() {
        let i = choose|i: int| 0 <= i < a.len() && a[i] != b[i];
        if !(a =~= b) {
            assert(pa[dir.len() + 1 + i] == a[i]);
            assert(pb[dir.len() + 1 + i] == b[i]);
        }
    } else {
        assert(pa.len() != pb.len());
    }
}

/// Acquiring or releasing the marker of one session neither shows nor
/// changes the marker of another session in the same directory.
pub proof fn lemma_sessions_isolated(
    dir: Seq<char>,
    a: Seq<char>,
    b: Seq<char>,
    entries: Set<Seq<char>>,
    writable: bool,
)
    requires
        a != b,
    ensures
        entries_after_acquire(entries, writable, marker_path(dir, a)).contains(marker_path(dir, b))
            == entries.contains(marker_path(dir, b)),
        entries_after_release(entries, writable, marker_path(dir, a)).contains(marker_path(dir, b))
            == entries.contains(marker_path(dir, b)),
{
    lemma_marker_path_distinct(dir, a, b);
}

} // verus!
