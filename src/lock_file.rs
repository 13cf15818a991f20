use vstd::prelude::*;
use vstd::string::StringExecFns;

use crate::marker_dir::MarkerDir;
use crate::outcome::{
    acquire_step, acquire_written, exclusive_create_outcome, release_removed, release_step,
    AcquireOutcome, AcquireStep, ReleaseOutcome, ReleaseStep,
};

verus! {

/// The directory that `LockFile::new` places markers in.
pub const DEFAULT_LOCK_DIR: &'static str = "/tmp";

/// What a marker file holds. Only the marker's existence is ever read.
pub const MARKER_CONTENTS: &'static str = "Locked";

/// The lock directory that `LockFile::new` uses, as characters.
pub open spec fn default_lock_dir() -> Seq<char> {
    seq!['/', 't', 'm', 'p']
}

/// The marker path of a session: `<dir>/<session>.lock`.
pub open spec fn marker_path(dir: Seq<char>, session: Seq<char>) -> Seq<char> {
    dir + seq!['/'] + session + seq!['.', 'l', 'o', 'c', 'k']
}

/// The entries of a directory after acquiring the marker at `path` in it:
/// the marker exists afterwards unless the directory is not writable.
pub open spec fn entries_after_acquire(entries: Set<Seq<char>>, writable: bool, path: Seq<char>) -> Set<
    Seq<char>,
> {
    if writable {
        entries.insert(path)
    } else {
        entries
    }
}

/// The entries of a directory after releasing the marker at `path` in it:
/// the marker is gone afterwards unless the directory is not writable.
pub open spec fn entries_after_release(entries: Set<Seq<char>>, writable: bool, path: Seq<char>) -> Set<
    Seq<char>,
> {
    if writable {
        entries.remove(path)
    } else {
        entries
    }
}

/// Whether `r` is what acquiring the marker at `path` reports in a directory
/// that holds `entries`.
pub open spec fn acquire_reports(
    entries: Set<Seq<char>>,
    writable: bool,
    path: Seq<char>,
    r: AcquireOutcome,
) -> bool {
    if entries.contains(path) {
        r == AcquireOutcome::AlreadyHeld
    } else if writable {
        r == AcquireOutcome::Acquired
    } else {
        r is Failed
    }
}

/// Whether `r` is what releasing the marker at `path` reports in a directory
/// that holds `entries`.
pub open spec fn release_reports(
    entries: Set<Seq<char>>,
    writable: bool,
    path: Seq<char>,
    r: ReleaseOutcome,
) -> bool {
    if !entries.contains(path) {
        r == ReleaseOutcome::NothingToRelease
    } else if writable {
        r == ReleaseOutcome::Released
    } else {
        r is Failed
    }
}

/// A handle on the lock marker of one session.
///
/// The handle holds no state beyond the marker path, which is derived once
/// from the session name and never changes.
pub struct LockFile {
    lockfile_path: String,
}

impl View for LockFile {
    type V = Seq<char>;

    /// The marker path.
    closed spec fn view(&self) -> Seq<char> {
        self.lockfile_path@
    }
}

impl LockFile {
    /// A handle for `session_name` whose marker lies in the default lock
    /// directory. Nothing on disk is touched.
    pub fn new(session_name: &str) -> (r: LockFile)
        ensures
            r@ == marker_path(default_lock_dir(), session_name@),
    {
        proof {
            reveal_strlit("/tmp");
        }
        LockFile::in_dir(DEFAULT_LOCK_DIR, session_name)
    }

    /// A handle for `session_name` whose marker lies in the directory `dir`.
    /// Neither the directory nor the name is checked.
    pub fn in_dir(dir: &str, session_name: &str) -> (r: LockFile)
        ensures
            r@ == marker_path(dir@, session_name@),
    {
        proof {
            reveal_strlit("/");
            reveal_strlit(".lock");
        }
        let mut p = String::from_str(dir);
        p.append("/");
        p.append(session_name);
        p.append(".lock");
        LockFile { lockfile_path: p }
    }

    /// The marker path.
    pub fn path(&self) -> (r: &str)
        ensures
            r@ == self@,
    {
        self.lockfile_path.as_str()
    }

    /// Whether the marker exists in `dir`. Any entry at the marker path
    /// counts, whatever it holds.
    pub fn is_locked(&self, dir: &MarkerDir) -> (r: bool)
        ensures
            r == dir@.contains(self@),
    {
        dir.contains(self.path())
    }

    /// Creates the marker in `dir` unless it exists. An existing marker is
    /// left untouched and reported as held, whoever made it.
    pub fn lock(&self, dir: &mut MarkerDir) -> (r: AcquireOutcome)
        requires
            old(dir).wf(),
        ensures
            final(dir).wf(),
            final(dir).is_writable() == old(dir).is_writable(),
            final(dir)@ == entries_after_acquire(old(dir)@, old(dir).is_writable(), self@),
            acquire_reports(old(dir)@, old(dir).is_writable(), self@, r),
    {
        match acquire_step(self.is_locked(dir)) {
            AcquireStep::Finish(outcome) => {
                assert(old(dir)@.insert(self@) =~= old(dir)@);
                outcome
            },
            AcquireStep::WriteMarker => acquire_written(dir.create(self.path())),
        }
    }

    /// Acquires as `lock` does, with one create that fails where an entry
    /// exists, so that no other process can act between check and create.
    pub fn lock_exclusive(&self, dir: &mut MarkerDir) -> (r: AcquireOutcome)
        requires
            old(dir).wf(),
        ensures
            final(dir).wf(),
            final(dir).is_writable() == old(dir).is_writable(),
            final(dir)@ == entries_after_acquire(old(dir)@, old(dir).is_writable(), self@),
            acquire_reports(old(dir)@, old(dir).is_writable(), self@, r),
    {
        proof {
            if old(dir)@.contains(self@) {
                assert(old(dir)@.insert(self@) =~= old(dir)@);
            }
        }
        exclusive_create_outcome(dir.create_new(self.path()))
    }

    /// Removes the marker from `dir` if it exists.
    pub fn release(&self, dir: &mut MarkerDir) -> (r: ReleaseOutcome)
        requires
            old(dir).wf(),
        ensures
            final(dir).wf(),
            final(dir).is_writable() == old(dir).is_writable(),
            final(dir)@ == entries_after_release(old(dir)@, old(dir).is_writable(), self@),
            release_reports(old(dir)@, old(dir).is_writable(), self@, r),
    {
        match release_step(self.is_locked(dir)) {
            ReleaseStep::Finish(outcome) => {
                assert(old(dir)@.remove(self@) =~= old(dir)@);
                outcome
            },
            ReleaseStep::RemoveMarker => release_removed(dir.remove(self.path())),
        }
    }
}

} // verus!
