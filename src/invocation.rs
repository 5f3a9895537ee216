//! One invocation: lock, supervised process, reading, and the line sent.
use vstd::prelude::*;

use crate::config::{Command, Config, pattern_text, unnamed_before};
use crate::extract::{ExtractError, leftmost_match, pattern_compiles, percentage_of, reading_from_output};
use crate::fifo::{Fifo, FifoError, PathStatus, fifo_path_of, refused_with};
use crate::pid_lock::{DEFAULT_LOCK_PATH, decimal, decimal_bytes};
use crate::process::{Process, StartPlan, start_plan};

verus! {

/// Why no reading could be had from a measurement command.
#[derive(Debug)]
pub enum ReadingError {
    /// No command has the name asked for.
    NoSuchCommand(String),
    /// The command's output gave no reading.
    Extract(ExtractError),
}

/// Whether `r` is what command `c`, having printed `out`, gives.
pub open spec fn reading_result(c: Command, out: Seq<char>, r: Result<u32, ReadingError>) -> bool {
    let p = pattern_text(&c);
    if !pattern_compiles(p) {
        r matches Err(ReadingError::Extract(ExtractError::BadPattern(s))) && s@ == p
    } else {
        match leftmost_match(p, out) {
            None => r matches Err(ReadingError::Extract(ExtractError::NoMatch)),
            Some(m) => match percentage_of(m) {
                Some(v) => r matches Ok(x) && x == v,
                None => r matches Err(ReadingError::Extract(ExtractError::NotANumber(t))) && t@
                    == m,
            },
        }
    }
}

/// The lock file's path for `conf`: the configured one, else the default.
pub fn lock_path(conf: &Config) -> (r: &str)
    ensures
        r@ == match conf.process.lock_path {
            Some(s) => s@,
            None => DEFAULT_LOCK_PATH@,
        },
{
    match conf.process().lock_path() {
        Some(s) => s.as_str(),
        None => DEFAULT_LOCK_PATH,
    }
}

/// What makes the configured process run, given whether it runs and the
/// state of its pipe's path.
pub fn ensure_proc_is_running(conf: &Config, running: bool, pipe: &PathStatus) -> (r: Result<
    StartPlan,
    FifoError,
>)
    ensures
        match start_plan(running, *pipe) {
            Some(p) => r matches Ok(q) && q == p,
            None => r matches Err(e) && refused_with(fifo_path_of(conf.process), *pipe, e),
        },
{
    let proc = Process::from_process_desc(conf.process());
    let fifo = Fifo::from_process(conf.process());
    proc.ensure_is_running(&fifo, running, pipe)
}

/// The reading that the first command named `name` gives, having printed
/// `output`.
pub fn get_percentage_from_command(conf: &Config, name: &str, output: &str) -> (r: Result<
    u32,
    ReadingError,
>)
    ensures
        unnamed_before(conf.commands@, name@, conf.commands.len() as int) ==> (r matches Err(
            ReadingError::NoSuchCommand(n),
        ) && n@ == name@),
        forall|i: int|
            0 <= i < conf.commands.len() && (#[trigger] conf.commands[i]).name@ == name@
                && unnamed_before(conf.commands@, name@, i) ==> reading_result(
                conf.commands[i],
                output@,
                r,
            ),
{
    let cmd = match conf.get_command_by_name(name) {
        Some(c) => c,
        None => {
            return Err(ReadingError::NoSuchCommand(name.to_owned()));
        },
    };
    let pattern = match cmd.regex() {
        Ok(p) => p,
        Err(e) => {
            return Err(ReadingError::Extract(e));
        },
    };
    match reading_from_output(output, &pattern) {
        Ok(v) => Ok(v),
        Err(e) => Err(ReadingError::Extract(e)),
    }
}

/// The line that hands `value` to the supervised process: its decimal digits
/// and a newline.
pub fn reading_line(value: u32) -> (r: Vec<u8>)
    ensures
        r@ == decimal(value as nat).push(10u8),
{
    let mut v = decimal_bytes(value);
    v.push(10u8);
    v
}

} // verus!
