use funclock_fs::marker_dir::{NOT_WRITABLE, NO_ENTRY};
use funclock_fs::outcome::{
    acquire_step, acquire_written, exclusive_create_outcome, release_removed, release_step,
};
use funclock_fs::{
    AcquireOutcome, AcquireStep, CreateResult, LockFile, MarkerDir, ReleaseOutcome, ReleaseStep,
    DEFAULT_LOCK_DIR, MARKER_CONTENTS,
};

#[test]
fn new_places_marker_in_default_dir() {
    let lock = LockFile::new("my_session");
    assert_eq!(lock.path(), "/tmp/my_session.lock");
    assert_eq!(DEFAULT_LOCK_DIR, "/tmp");
    assert_eq!(MARKER_CONTENTS, "Locked");
}

#[test]
fn in_dir_places_marker_in_given_dir() {
    let lock = LockFile::in_dir("/var/locks", "build-42");
    assert_eq!(lock.path(), "/var/locks/build-42.lock");
}

#[test]
fn session_name_is_not_checked() {
    assert_eq!(LockFile::new("").path(), "/tmp/.lock");
    assert_eq!(LockFile::new("a/../b").path(), "/tmp/a/../b.lock");
}

#[test]
fn same_session_same_state() {
    let mut dir = MarkerDir::new();
    let first = LockFile::new("shared");
    let second = LockFile::new("shared");
    assert_eq!(first.path(), second.path());
    assert_eq!(first.lock(&mut dir), AcquireOutcome::Acquired);
    assert!(second.is_locked(&dir));
    assert_eq!(second.lock(&mut dir), AcquireOutcome::AlreadyHeld);
    assert_eq!(second.release(&mut dir), ReleaseOutcome::Released);
    assert!(!first.is_locked(&dir));
}

#[test]
fn locked_after_acquire() {
    let mut dir = MarkerDir::new();
    let lock = LockFile::in_dir("/locks", "s");
    lock.lock(&mut dir);
    assert!(lock.is_locked(&dir));
}

#[test]
fn unlocked_after_release() {
    let mut dir = MarkerDir::new();
    let lock = LockFile::in_dir("/locks", "s");
    lock.lock(&mut dir);
    lock.release(&mut dir);
    assert!(!lock.is_locked(&dir));
}

#[test]
fn acquire_twice_then_release_twice() {
    let mut dir = MarkerDir::new();
    let lock = LockFile::in_dir("/locks", "twice");
    assert_eq!(lock.lock(&mut dir), AcquireOutcome::Acquired);
    assert_eq!(lock.lock(&mut dir), AcquireOutcome::AlreadyHeld);
    assert!(lock.is_locked(&dir));
    assert_eq!(lock.release(&mut dir), ReleaseOutcome::Released);
    assert_eq!(lock.release(&mut dir), ReleaseOutcome::NothingToRelease);
    assert!(!dir.contains(lock.path()));
}

#[test]
fn round_trip_leaves_nothing() {
    let mut dir = MarkerDir::new();
    let lock = LockFile::in_dir("/locks", "fresh");
    assert_eq!(lock.lock(&mut dir), AcquireOutcome::Acquired);
    assert!(lock.is_locked(&dir));
    assert_eq!(lock.release(&mut dir), ReleaseOutcome::Released);
    assert!(!lock.is_locked(&dir));
    assert!(!dir.contains("/locks/fresh.lock"));
}

#[test]
fn sessions_are_isolated() {
    let mut dir = MarkerDir::new();
    let a = LockFile::in_dir("/locks", "a");
    let b = LockFile::in_dir("/locks", "b");
    assert_eq!(a.lock(&mut dir), AcquireOutcome::Acquired);
    assert!(!b.is_locked(&dir));
    assert_eq!(b.lock(&mut dir), AcquireOutcome::Acquired);
    assert_eq!(a.release(&mut dir), ReleaseOutcome::Released);
    assert!(b.is_locked(&dir));
    assert!(!a.is_locked(&dir));
}

#[test]
fn build_42_scenario() {
    let mut dir = MarkerDir::new();
    let lock = LockFile::in_dir("/locks", "build-42");
    assert!(!lock.is_locked(&dir));
    assert_eq!(lock.lock(&mut dir), AcquireOutcome::Acquired);
    assert!(lock.is_locked(&dir));
    assert_eq!(lock.lock(&mut dir), AcquireOutcome::AlreadyHeld);
    assert_eq!(lock.release(&mut dir), ReleaseOutcome::Released);
    assert!(!lock.is_locked(&dir));
    assert_eq!(lock.release(&mut dir), ReleaseOutcome::NothingToRelease);
}

#[test]
fn acquire_in_unwritable_dir_fails() {
    let mut dir = MarkerDir::unwritable();
    let lock = LockFile::in_dir("/missing", "build-42");
    assert_eq!(
        lock.lock(&mut dir),
        AcquireOutcome::Failed(NOT_WRITABLE.to_string())
    );
    assert!(!lock.is_locked(&dir));
    assert_eq!(lock.release(&mut dir), ReleaseOutcome::NothingToRelease);
}

#[test]
fn exclusive_acquire() {
    let mut dir = MarkerDir::new();
    let lock = LockFile::in_dir("/locks", "x");
    assert_eq!(lock.lock_exclusive(&mut dir), AcquireOutcome::Acquired);
    assert!(lock.is_locked(&dir));
    assert_eq!(lock.lock_exclusive(&mut dir), AcquireOutcome::AlreadyHeld);
    assert_eq!(lock.lock(&mut dir), AcquireOutcome::AlreadyHeld);
    let mut ro = MarkerDir::unwritable();
    assert_eq!(
        lock.lock_exclusive(&mut ro),
        AcquireOutcome::Failed(NOT_WRITABLE.to_string())
    );
}

#[test]
fn steps_follow_existence_check() {
    assert_eq!(acquire_step(false), AcquireStep::WriteMarker);
    assert_eq!(
        acquire_step(true),
        AcquireStep::Finish(AcquireOutcome::AlreadyHeld)
    );
    assert_eq!(release_step(true), ReleaseStep::RemoveMarker);
    assert_eq!(
        release_step(false),
        ReleaseStep::Finish(ReleaseOutcome::NothingToRelease)
    );
}

#[test]
fn failed_write_is_reported() {
    assert_eq!(acquire_written(Ok(())), AcquireOutcome::Acquired);
    assert_eq!(
        acquire_written(Err("permission denied".to_string())),
        AcquireOutcome::Failed("permission denied".to_string())
    );
    assert_eq!(release_removed(Ok(())), ReleaseOutcome::Released);
    assert_eq!(
        release_removed(Err("no such file".to_string())),
        ReleaseOutcome::Failed("no such file".to_string())
    );
}

#[test]
fn exclusive_create_results() {
    assert_eq!(
        exclusive_create_outcome(CreateResult::Created),
        AcquireOutcome::Acquired
    );
    assert_eq!(
        exclusive_create_outcome(CreateResult::AlreadyExists),
        AcquireOutcome::AlreadyHeld
    );
    assert_eq!(
        exclusive_create_outcome(CreateResult::Failed("disk full".to_string())),
        AcquireOutcome::Failed("disk full".to_string())
    );
}

#[test]
fn marker_dir_operations() {
    let mut dir = MarkerDir::new();
    assert!(!dir.contains("/a.lock"));
    assert_eq!(dir.create("/a.lock"), Ok(()));
    assert_eq!(dir.create("/a.lock"), Ok(()));
    assert!(dir.contains("/a.lock"));
    assert_eq!(dir.create_new("/a.lock"), CreateResult::AlreadyExists);
    assert_eq!(dir.create_new("/b.lock"), CreateResult::Created);
    assert_eq!(dir.remove("/a.lock"), Ok(()));
    assert!(!dir.contains("/a.lock"));
    assert!(dir.contains("/b.lock"));
    assert_eq!(dir.remove("/a.lock"), Err(NO_ENTRY.to_string()));
    let mut ro = MarkerDir::unwritable();
    assert_eq!(ro.create("/a.lock"), Err(NOT_WRITABLE.to_string()));
    assert_eq!(ro.remove("/a.lock"), Err(NOT_WRITABLE.to_string()));
    assert!(matches!(ro.create_new("/a.lock"), CreateResult::Failed(_)));
}
