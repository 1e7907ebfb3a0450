//! Decisions of the sysfs GPIO interface: which exported files a non-root
//! process may use, and how long to wait for udev to hand an exported pin to
//! the `gpio` group.
//!
//! Exporting a pin creates its directory owned by `root:root`; shortly after,
//! udev changes the group to `gpio`. A process that isn't root checks the
//! permissions of the pin's files up to `EXPORT_ATTEMPTS` times, sleeping
//! `EXPORT_RETRY_MS` milliseconds after each failed round, so it waits at most
//! one second.
use vstd::prelude::*;

verus! {

/// Mode of an exported pin's directory: a directory, `rwxrwx---`.
pub const DIR_MODE: u32 = 0o040_770;

/// Mode of an exported pin's attribute files: a regular file, `rwxrwx---`.
pub const FILE_MODE: u32 = 0o100_770;

/// How many failed rounds of permission checks end the wait.
pub const EXPORT_ATTEMPTS: u32 = 25;

/// Milliseconds slept after a failed round of permission checks.
pub const EXPORT_RETRY_MS: u64 = 40;

/// Whether a file with `mode`, owned by the group `file_gid`, is usable by
/// members of the group `gid`: it has one of the two expected modes and
/// belongs to that group.
pub fn permissions_ok(mode: u32, file_gid: u32, gid: u32) -> (r: bool)
    ensures
        r == ((mode == DIR_MODE || mode == FILE_MODE) && file_gid == gid),
{
    if mode != DIR_MODE && mode != FILE_MODE {
        return false;
    }
    file_gid == gid
}

/// Whether the process runs as root, really or effectively, in which case
/// exporting doesn't wait for permissions. Without a `root` user nobody is
/// root.
pub fn runs_as_root(root_uid: Option<u32>, uid: u32, euid: u32) -> (r: bool)
    ensures
        r == (root_uid matches Some(root) && (uid == root || euid == root)),
{
    match root_uid {
        Some(root) => uid == root || euid == root,
        None => false,
    }
}

/// The group an exported pin's files must belong to: the id of the `gpio`
/// group, or 0 where there is no such group.
pub fn gpio_group(gpio_gid: Option<u32>) -> (r: u32)
    ensures
        r == (match gpio_gid {
            Some(gid) => gid,
            None => 0,
        }),
{
    match gpio_gid {
        Some(gid) => gid,
        None => 0,
    }
}

/// What to do after a round of permission checks.
#[derive(Debug, Copy, Clone, PartialEq, Eq, Structural)]
pub enum ExportStep {
    /// Every file has the expected permissions: the pin is ready.
    Ready,
    /// Sleep `EXPORT_RETRY_MS` milliseconds, then check again.
    SleepAndRecheck,
    /// Sleep `EXPORT_RETRY_MS` milliseconds, then stop waiting: the attempts
    /// are used up and the export counts as done.
    SleepAndStop,
}

/// The wait for an exported pin's permissions: how many rounds have failed.
pub struct ExportWait {
    failed: u32,
}

impl ExportWait {
    /// The number of failed rounds so far.
    pub closed spec fn failed_rounds(self) -> nat {
        self.failed as nat
    }

    /// Whether another round of checks is due.
    pub open spec fn is_waiting(self) -> bool {
        self.failed_rounds() < EXPORT_ATTEMPTS
    }

    /// Milliseconds slept so far.
    pub open spec fn slept_ms(self) -> nat {
        self.failed_rounds() * (EXPORT_RETRY_MS as nat)
    }

    /// A wait with no failed round.
    pub fn new() -> (r: ExportWait)
        ensures
            r.failed_rounds() == 0,
    {
        ExportWait { failed: 0 }
    }

    /// Whether another round of checks is due.
    pub fn waiting(&self) -> (r: bool)
        ensures
            r == self.is_waiting(),
    {
        self.failed < EXPORT_ATTEMPTS
    }

    /// Decides after a round of checks, where `all_ok` says whether every
    /// file of the pin passed. A failed round is counted; the one that uses
    /// up the attempts ends the wait after its sleep.
    pub fn step(&mut self, all_ok: bool) -> (r: ExportStep)
        requires
            old(self).is_waiting(),
        ensures
            all_ok ==> r == ExportStep::Ready && final(self).failed_rounds() == old(
                self,
            ).failed_rounds(),
            !all_ok ==> final(self).failed_rounds() == old(self).failed_rounds() + 1,
            !all_ok ==> (r == ExportStep::SleepAndRecheck <==> final(self).is_waiting()),
            !all_ok ==> (r == ExportStep::SleepAndStop <==> !final(self).is_waiting()),
            final(self).failed_rounds() <= EXPORT_ATTEMPTS,
    {
        if all_ok {
            return ExportStep::Ready;
        }
        self.failed = self.failed + 1;
        if self.failed < EXPORT_ATTEMPTS {
            ExportStep::SleepAndRecheck
        } else {
            ExportStep::SleepAndStop
        }
    }
}

/// However the rounds go, a wait never sleeps more than one second in all.
pub proof fn lemma_wait_at_most_one_second(wait: ExportWait)
    requires
        wait.failed_rounds() <= EXPORT_ATTEMPTS,
    ensures
        wait.slept_ms() <= 1000,
{
    assert(wait.failed_rounds() * 40 <= 25 * 40) by (nonlinear_arith)
        requires
            wait.failed_rounds() <= 25,
    ;
}

} // verus!
