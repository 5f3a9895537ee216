//! The instance lock: a file that at most one invocation holds at a time.
use vstd::prelude::*;

verus! {

/// Where the lock lives when the configuration names no path.
pub const DEFAULT_LOCK_PATH: &'static str = "/tmp/barrette.pid";

/// What an exclusive create ("create if absent, fail if present") of the
/// lock file gave.
#[derive(Debug)]
pub enum CreateOutcome {
    /// The file was absent and has been created.
    Created,
    /// The file was there already.
    AlreadyExists,
    /// The create failed for another reason, given.
    Failed(String),
}

/// Why the lock could not be taken.
#[derive(Debug)]
pub enum LockError {
    /// Another instance holds the lock, or a crashed one left it: the path.
    Busy(String),
    /// The lock file could not be created: the path and the reason.
    Io(String, String),
}

/// The ASCII decimal digits of `n`, most significant first.
pub open spec fn decimal(n: nat) -> Seq<u8>
    decreases n,
{
    if n < 10 {
        seq![(48 + n) as u8]
    } else {
        decimal(n / 10).push((48 + n % 10) as u8)
    }
}

/// The ASCII decimal digits of `n`.
pub fn decimal_bytes(n: u32) -> (r: Vec<u8>)
    ensures
        r@ == decimal(n as nat),
    decreases n,
{
    if n < 10 {
        vec![(48 + n) as u8]
    } else {
        let mut v = decimal_bytes(n / 10);
        v.push((48 + n % 10) as u8);
        v
    }
}

/// The outcome of an exclusive create on a path where the lock file is
/// `present`, when the filesystem raises no other error.
pub open spec fn create_outcome(present: bool) -> CreateOutcome {
    if present {
        CreateOutcome::AlreadyExists
    } else {
        CreateOutcome::Created
    }
}

/// Whether the lock file is on disk after a create that saw `outcome`.
pub open spec fn present_after_create(present: bool, outcome: CreateOutcome) -> bool {
    present || outcome is Created
}

/// Whether a lock holds after an acquisition that saw `outcome`.
pub open spec fn held_after(held: bool, outcome: CreateOutcome) -> bool {
    held || outcome is Created
}

/// Whether the lock file is on disk after a release that did (`removes`)
/// or did not remove it.
pub open spec fn present_after_release(present: bool, removes: bool) -> bool {
    present && !removes
}

/// The instance lock: its path and whether this instance holds it.
pub struct PidLock {
    path: String,
    held: bool,
}

impl PidLock {
    /// The lock file's path.
    pub closed spec fn spec_path(&self) -> Seq<char> {
        self.path@
    }

    /// Whether this instance holds the lock.
    pub closed spec fn spec_held(&self) -> bool {
        self.held
    }

    /// A lock at `path`, not held.
    pub fn new(path: &str) -> (r: Self)
        ensures
            r.spec_path() == path@,
            !r.spec_held(),
    {
        PidLock { path: path.to_owned(), held: false }
    }

    /// Takes the lock, given what the exclusive create of the lock file
    /// gave. On success the lock is held, and the result is what the file is
    /// to hold: `pid` in decimal.
    pub fn acquire(&mut self, outcome: CreateOutcome, pid: u32) -> (r: Result<Vec<u8>, LockError>)
        ensures
            final(self).spec_path() == old(self).spec_path(),
            final(self).spec_held() == held_after(old(self).spec_held(), outcome),
            match outcome {
                CreateOutcome::Created => r matches Ok(b) && b@ == decimal(pid as nat),
                CreateOutcome::AlreadyExists => r matches Err(LockError::Busy(p)) && p@
                    == old(self).spec_path(),
                CreateOutcome::Failed(m) => r matches Err(LockError::Io(p, why)) && p@ == old(
                    self,
                ).spec_path() && why@ == m@,
            },
    {
        match outcome {
            CreateOutcome::Created => {
                self.held = true;
                Ok(decimal_bytes(pid))
            },
            CreateOutcome::AlreadyExists => Err(LockError::Busy(self.path.clone())),
            CreateOutcome::Failed(m) => Err(LockError::Io(self.path.clone(), m)),
        }
    }

    /// Whether this instance holds the lock.
    pub fn acquired(&self) -> (r: bool)
        ensures
            r == self.spec_held(),
    {
        self.held
    }

    /// Lets the lock go. The result says whether the lock file is to be
    /// removed: exactly when this instance held it.
    pub fn release(&mut self) -> (r: bool)
        ensures
            r == old(self).spec_held(),
            !final(self).spec_held(),
            final(self).spec_path() == old(self).spec_path(),
    {
        let was = self.held;
        self.held = false;
        was
    }

    /// The lock file's path.
    pub fn path(&self) -> (r: &str)
        ensures
            r@ == self.spec_path(),
    {
        self.path.as_str()
    }
}

/// Two instances take the lock at one path, the lock file absent at first: the
/// first succeeds, the second fails while the first holds it and its release
/// leaves the file alone, and the first's release removes the file.
pub proof fn lemma_lock_exclusive(first: PidLock, second: PidLock)
    requires
        first.spec_path() == second.spec_path(),
        !first.spec_held(),
        !second.spec_held(),
    ensures
        ({
            let o1 = create_outcome(false);
            let held1 = held_after(first.spec_held(), o1);
            let on_disk = present_after_create(false, o1);
            let o2 = create_outcome(on_disk);
            let held2 = held_after(second.spec_held(), o2);
            &&& o1 is Created && held1
            &&& o2 is AlreadyExists && !held2
            &&& present_after_release(on_disk, held2)
            &&& !present_after_release(on_disk, held1)
        }),
{
}

} // verus!
