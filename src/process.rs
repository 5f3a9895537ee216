//! Command lines of the supervised process and of measurement commands.
use vstd::prelude::*;
use vstd::utf8::{valid_utf8, decode_utf8};

use crate::fifo::{Fifo, FifoError, PathStatus, PipeAction, ensure_outcome, refused_with};

verus! {

/// The texts of a sequence of strings.
pub open spec fn texts(v: Seq<String>) -> Seq<Seq<char>> {
    v.map_values(|s: String| s@)
}

/// Something that describes a command with its arguments.
pub trait ProcessDesc {
    /// The program to run.
    spec fn spec_command(&self) -> Seq<char>;

    /// Its arguments, in order; empty where none are given.
    spec fn spec_args(&self) -> Seq<Seq<char>>;

    fn command(&self) -> (r: &str)
        ensures
            r@ == self.spec_command(),
    ;

    fn args(&self) -> (r: Option<&Vec<String>>)
        ensures
            match r {
                Some(v) => texts(v@) == self.spec_args(),
                None => self.spec_args() == Seq::<Seq<char>>::empty(),
            },
    ;
}

/// Relies on sysinfo::System::new_with_specifics, refreshing processes: the
/// names of the processes in the table at the time of the call. Nothing is
/// promised of them.
#[verifier::external_body]
fn process_table_names() -> (r: Vec<String>) {
    let refresh = sysinfo::RefreshKind::new().with_processes(
        sysinfo::ProcessRefreshKind::everything(),
    );
    let sys = sysinfo::System::new_with_specifics(refresh);
    sys.processes().values().map(|p| p.name().to_string()).collect()
}

/// Relies on String::from_utf8: it succeeds exactly on valid UTF-8, and then
/// holds the decoded text.
#[verifier::external_body]
fn decode_text(b: Vec<u8>) -> (r: Option<String>)
    ensures
        r is Some <==> valid_utf8(b@),
        r matches Some(s) ==> s@ == decode_utf8(b@),
{
    String::from_utf8(b).ok()
}

/// Whether a process named exactly `name` is among `table`.
pub fn listed(name: &str, table: &Vec<String>) -> (r: bool)
    ensures
        r == exists|i: int| 0 <= i < table.len() && (#[trigger] table[i])@ == name@,
{
    let mut i: usize = 0;
    while i < table.len()
        invariant
            i <= table.len(),
            forall|j: int| 0 <= j < i ==> (#[trigger] table[j])@ != name@,
        decreases table.len() - i,
    {
        if crate::config::same_text(table[i].as_str(), name) {
            return true;
        }
        i = i + 1;
    }
    false
}

/// Why a measurement command gave no text to read.
#[derive(Debug)]
pub enum RunError {
    /// It exited unsuccessfully: its standard error.
    Failed(String),
    /// It exited unsuccessfully and its standard error is not UTF-8.
    StderrNotText,
    /// Its standard output is not UTF-8.
    StdoutNotText,
}

/// The text a finished command gives: its standard output where it
/// succeeded, else an error carrying its standard error.
pub fn command_output(success: bool, stdout: Vec<u8>, stderr: Vec<u8>) -> (r: Result<String, RunError>)
    ensures
        success && valid_utf8(stdout@) ==> (r matches Ok(s) && s@ == decode_utf8(stdout@)),
        success && !valid_utf8(stdout@) ==> r matches Err(RunError::StdoutNotText),
        !success && valid_utf8(stderr@) ==> (r matches Err(RunError::Failed(t)) && t@
            == decode_utf8(stderr@)),
        !success && !valid_utf8(stderr@) ==> r matches Err(RunError::StderrNotText),
{
    if success {
        match decode_text(stdout) {
            Some(s) => Ok(s),
            None => Err(RunError::StdoutNotText),
        }
    } else {
        match decode_text(stderr) {
            Some(t) => Err(RunError::Failed(t)),
            None => Err(RunError::StderrNotText),
        }
    }
}

/// What has to be done so that the supervised process runs.
#[derive(Debug, Clone, Copy, PartialEq, Eq, Structural)]
pub enum StartPlan {
    /// It runs already.
    AlreadyRunning,
    /// The pipe is there: start the process on it.
    Spawn,
    /// Create the pipe, then start the process on it.
    CreatePipeThenSpawn,
}

/// The plan for a process that is (`running`) or is not running, its pipe's
/// path being in state `pipe`; `None` where the pipe's path is refused.
pub open spec fn start_plan(running: bool, pipe: PathStatus) -> Option<StartPlan> {
    if running {
        Some(StartPlan::AlreadyRunning)
    } else {
        match ensure_outcome(pipe) {
            Some(PipeAction::Keep) => Some(StartPlan::Spawn),
            Some(PipeAction::Create) => Some(StartPlan::CreatePipeThenSpawn),
            None => None,
        }
    }
}

/// A program with its arguments, ready to be started.
pub struct Process {
    name: String,
    args: Vec<String>,
}

impl Process {
    /// The program.
    pub closed spec fn spec_name(&self) -> Seq<char> {
        self.name@
    }

    /// Its arguments.
    pub closed spec fn spec_args(&self) -> Seq<Seq<char>> {
        texts(self.args@)
    }

    pub fn new(name: &str, args: &[String]) -> (r: Self)
        ensures
            r.spec_name() == name@,
            r.spec_args() == texts(args@),
    {
        let mut v: Vec<String> = Vec::new();
        let mut i: usize = 0;
        while i < args.len()
            invariant
                i <= args@.len(),
                texts(v@) == texts(args@.subrange(0, i as int)),
            decreases args@.len() - i,
        {
            let a = args[i].clone();
            proof {
                assert(texts(v@.push(a)) =~= texts(v@).push(a@));
                assert(texts(args@.subrange(0, i + 1)) =~= texts(args@.subrange(0, i as int)).push(args@[i as int]@));
            }
            v.push(a);
            i = i + 1;
        }
        assert(args@.subrange(0, args@.len() as int) =~= args@);
        Process { name: name.to_owned(), args: v }
    }

    /// The command line that `desc` describes.
    pub fn from_process_desc<T: ProcessDesc>(desc: &T) -> (r: Self)
        ensures
            r.spec_name() == desc.spec_command(),
            r.spec_args() == desc.spec_args(),
    {
        match desc.args() {
            Some(v) => Process::new(desc.command(), v.as_slice()),
            None => {
                let none: Vec<String> = Vec::new();
                let r = Process::new(desc.command(), none.as_slice());
                assert(texts(none@) =~= Seq::<Seq<char>>::empty());
                r
            },
        }
    }

    /// Whether a process of this name is in the process table now. Best
    /// effort: a table that cannot be read lists nothing.
    pub fn is_running(&self) -> (r: bool) {
        let table = process_table_names();
        listed(self.name.as_str(), &table)
    }

    /// What makes this process run, given whether it runs and the state of
    /// its pipe's path: nothing where it runs; else the pipe is ensured and
    /// the process started, or the pipe's error is returned.
    pub fn ensure_is_running(&self, fifo: &Fifo, running: bool, pipe: &PathStatus) -> (r: Result<
        StartPlan,
        FifoError,
    >)
        ensures
            match start_plan(running, *pipe) {
                Some(p) => r matches Ok(q) && q == p,
                None => r matches Err(e) && refused_with(fifo.spec_path(), *pipe, e),
            },
    {
        if running {
            return Ok(StartPlan::AlreadyRunning);
        }
        match fifo.ensure_exists(pipe)? {
            PipeAction::Keep => Ok(StartPlan::Spawn),
            PipeAction::Create => Ok(StartPlan::CreatePipeThenSpawn),
        }
    }

    /// The program.
    pub fn name(&self) -> (r: &str)
        ensures
            r@ == self.spec_name(),
    {
        self.name.as_str()
    }

    /// Its arguments.
    pub fn args(&self) -> (r: &Vec<String>)
        ensures
            texts(r@) == self.spec_args(),
    {
        &self.args
    }
}

} // verus!
