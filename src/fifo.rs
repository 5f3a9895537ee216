//! The named pipe through which readings reach the supervised process.
use vstd::prelude::*;

verus! {

/// Where the pipe lives when the configuration names no path.
pub const DEFAULT_FIFO_PATH: &'static str = "/tmp/barrette_fifo";

/// The pipe's permission bits when the configuration names none.
pub const DEFAULT_FIFO_MODE: u32 = 0o600;

/// What a look at the pipe's path found.
#[derive(Debug)]
pub enum PathStatus {
    /// Nothing is there.
    Absent,
    /// Something is there: whether it is a FIFO, and its mode bits.
    Present { is_fifo: bool, mode: u32 },
    /// Something may be there, but its metadata could not be read.
    Unreadable(String),
}

/// Why the object at the pipe's path cannot serve as the pipe.
#[derive(Debug)]
pub enum FifoError {
    /// The object at the path is not a FIFO.
    NotFifo(String),
    /// The FIFO is not readable and writable by its owner.
    NotReadWrite(String),
    /// The path's metadata could not be read: the path and the reason.
    Metadata(String, String),
}

/// What has to be done so that the pipe exists.
#[derive(Debug, Clone, Copy, PartialEq, Eq, Structural)]
pub enum PipeAction {
    /// A valid pipe is there already.
    Keep,
    /// Nothing is there: a FIFO is to be created.
    Create,
}

/// The pipe's path that `proc` is configured with, default filled in.
pub open spec fn fifo_path_of(proc: crate::config::Process) -> Seq<char> {
    match proc.fifo_path {
        Some(s) => s@,
        None => DEFAULT_FIFO_PATH@,
    }
}

/// Whether the owner may read and write under permission bits `mode`.
pub open spec fn owner_rw(mode: u32) -> bool {
    let owner = (mode % 0o1000) / 0o100;
    6 <= owner && owner <= 7
}

/// What `ensure_exists` settles on for a path in state `st`; `None` where it
/// fails.
pub open spec fn ensure_outcome(st: PathStatus) -> Option<PipeAction> {
    match st {
        PathStatus::Absent => Some(PipeAction::Create),
        PathStatus::Present { is_fifo, mode } => if is_fifo && owner_rw(mode) {
            Some(PipeAction::Keep)
        } else {
            None
        },
        PathStatus::Unreadable(_) => None,
    }
}

/// The state of the path once `action` has been carried out, where a FIFO
/// created with `mode` keeps its owner bits.
pub open spec fn status_after(st: PathStatus, action: PipeAction, mode: u32) -> PathStatus {
    match action {
        PipeAction::Keep => st,
        PipeAction::Create => PathStatus::Present { is_fifo: true, mode },
    }
}

/// The error that a path in state `st` is refused with.
pub open spec fn refused_with(path: Seq<char>, st: PathStatus, e: FifoError) -> bool {
    match st {
        PathStatus::Present { is_fifo, mode } => if !is_fifo {
            e matches FifoError::NotFifo(p) && p@ == path
        } else {
            e matches FifoError::NotReadWrite(p) && p@ == path
        },
        PathStatus::Unreadable(msg) => e matches FifoError::Metadata(p, m) && p@ == path && m@
            == msg@,
        PathStatus::Absent => false,
    }
}

/// Whether the owner may read and write under permission bits `mode`.
pub fn is_rw(mode: u32) -> (r: bool)
    ensures
        r == owner_rw(mode),
{
    let owner = (mode % 0o1000) / 0o100;
    6 <= owner && owner <= 7
}

/// A named pipe: its path and the permission bits it is created with.
pub struct Fifo {
    path: String,
    mode: u32,
}

impl Fifo {
    /// The pipe's path.
    pub closed spec fn spec_path(&self) -> Seq<char> {
        self.path@
    }

    /// The permission bits it is created with.
    pub closed spec fn spec_mode(&self) -> u32 {
        self.mode
    }

    pub fn new(path: &str, mode: u32) -> (r: Self)
        ensures
            r.spec_path() == path@,
            r.spec_mode() == mode,
    {
        Fifo { path: path.to_owned(), mode }
    }

    /// The pipe that `proc` is configured with, defaults filled in.
    pub fn from_process(proc: &crate::config::Process) -> (r: Self)
        ensures
            r.spec_path() == fifo_path_of(*proc),
            r.spec_mode() == match proc.fifo_mode {
                Some(m) => m,
                None => DEFAULT_FIFO_MODE,
            },
    {
        let mode = match proc.fifo_mode() {
            Some(m) => *m,
            None => DEFAULT_FIFO_MODE,
        };
        match proc.fifo_path() {
            Some(s) => Fifo::new(s.as_str(), mode),
            None => Fifo::new(DEFAULT_FIFO_PATH, mode),
        }
    }

    /// Whether a valid pipe is at the path in state `st`: false where nothing
    /// is there, an error where something other than an owner-read-write FIFO
    /// is there or the path cannot be inspected.
    pub fn is_present(&self, st: &PathStatus) -> (r: Result<bool, FifoError>)
        ensures
            match *st {
                PathStatus::Absent => r matches Ok(b) && !b,
                PathStatus::Present { is_fifo, mode } => if is_fifo && owner_rw(mode) {
                    r matches Ok(b) && b
                } else {
                    r matches Err(e) && refused_with(self.spec_path(), *st, e)
                },
                PathStatus::Unreadable(_) => r matches Err(e) && refused_with(
                    self.spec_path(),
                    *st,
                    e,
                ),
            },
    {
        match st {
            PathStatus::Absent => Ok(false),
            PathStatus::Present { is_fifo, mode } => {
                if !*is_fifo {
                    Err(FifoError::NotFifo(self.path.clone()))
                } else if !is_rw(*mode) {
                    Err(FifoError::NotReadWrite(self.path.clone()))
                } else {
                    Ok(true)
                }
            },
            PathStatus::Unreadable(msg) => Err(
                FifoError::Metadata(self.path.clone(), msg.clone()),
            ),
        }
    }

    /// What makes the pipe exist, for a path in state `st`: nothing where a
    /// valid pipe is there, a creation where nothing is, and the error of
    /// `is_present` otherwise. An object in the way is never removed.
    pub fn ensure_exists(&self, st: &PathStatus) -> (r: Result<PipeAction, FifoError>)
        ensures
            match ensure_outcome(*st) {
                Some(a) => r matches Ok(b) && b == a,
                None => r matches Err(e) && refused_with(self.spec_path(), *st, e),
            },
    {
        if self.is_present(st)? {
            Ok(PipeAction::Keep)
        } else {
            Ok(PipeAction::Create)
        }
    }

    /// The pipe's path.
    pub fn path(&self) -> (r: &str)
        ensures
            r@ == self.spec_path(),
    {
        self.path.as_str()
    }

    /// The permission bits it is created with.
    pub fn mode(&self) -> (r: u32)
        ensures
            r == self.spec_mode(),
    {
        self.mode
    }
}

/// Ensuring the pipe twice in a row gives the same success: once the first
/// call has succeeded and its action is carried out, the second succeeds
/// with nothing left to do.
pub proof fn lemma_ensure_exists_idempotent(st: PathStatus, mode: u32)
    requires
        ensure_outcome(st) is Some,
        st is Absent ==> owner_rw(mode),
    ensures
        ensure_outcome(status_after(st, ensure_outcome(st)->0, mode)) == Some(PipeAction::Keep),
{
}

} // verus!
