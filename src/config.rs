//! The configured supervised process and measurement commands.
use vstd::prelude::*;

use crate::extract::{Pattern, ExtractError, DEFAULT_PATTERN};
use crate::process::{ProcessDesc, texts};

verus! {

/// The supervised process: its command line and where its pipe lives.
pub struct Process {
    pub command: String,
    pub args: Option<Vec<String>>,
    pub fifo_path: Option<String>,
    pub fifo_mode: Option<u32>,
    pub lock_path: Option<String>,
}

/// A named measurement command and the pattern its reading is found by.
pub struct Command {
    pub name: String,
    pub command: String,
    pub args: Option<Vec<String>>,
    pub regex: Option<String>,
}

/// One supervised process and the measurement commands that feed it.
pub struct Config {
    pub process: Process,
    pub commands: Vec<Command>,
}

/// Whether two strings hold the same text.
pub fn same_text(a: &str, b: &str) -> (r: bool)
    ensures
        r == (a@ == b@),
{
    a.to_owned() == b.to_owned()
}

/// The arguments a descriptor stands for: none where they are absent.
pub open spec fn args_view(args: Option<Vec<String>>) -> Seq<Seq<char>> {
    match args {
        Some(v) => texts(v@),
        None => Seq::empty(),
    }
}

impl ProcessDesc for Process {
    open spec fn spec_command(&self) -> Seq<char> {
        self.command@
    }

    open spec fn spec_args(&self) -> Seq<Seq<char>> {
        args_view(self.args)
    }

    fn command(&self) -> (r: &str) {
        self.command.as_str()
    }

    fn args(&self) -> (r: Option<&Vec<String>>) {
        self.args.as_ref()
    }
}

impl Process {
    /// Where the pipe is to be, if configured.
    pub fn fifo_path(&self) -> (r: &Option<String>)
        ensures
            *r == self.fifo_path,
    {
        &self.fifo_path
    }

    /// The pipe's permission bits, if configured.
    pub fn fifo_mode(&self) -> (r: &Option<u32>)
        ensures
            *r == self.fifo_mode,
    {
        &self.fifo_mode
    }

    /// Where the instance lock is to be, if configured.
    pub fn lock_path(&self) -> (r: &Option<String>)
        ensures
            *r == self.lock_path,
    {
        &self.lock_path
    }
}

impl ProcessDesc for Command {
    open spec fn spec_command(&self) -> Seq<char> {
        self.command@
    }

    open spec fn spec_args(&self) -> Seq<Seq<char>> {
        args_view(self.args)
    }

    fn command(&self) -> (r: &str) {
        self.command.as_str()
    }

    fn args(&self) -> (r: Option<&Vec<String>>) {
        self.args.as_ref()
    }
}

/// The pattern text a command's reading is found by.
pub open spec fn pattern_text(c: &Command) -> Seq<char> {
    match c.regex {
        Some(s) => s@,
        None => DEFAULT_PATTERN@,
    }
}

impl Command {
    /// The name the command is looked up by.
    pub fn name(&self) -> (r: &str)
        ensures
            r@ == self.name@,
    {
        self.name.as_str()
    }

    /// The command's pattern, compiled: the configured one, else the default.
    pub fn regex(&self) -> (r: Result<Pattern, ExtractError>)
        ensures
            r is Ok <==> crate::extract::pattern_compiles(pattern_text(self)),
            r matches Ok(p) ==> p.source() == pattern_text(self),
            r matches Err(e) ==> (e matches ExtractError::BadPattern(s) && s@ == pattern_text(self)),
    {
        match &self.regex {
            Some(s) => Pattern::new(s.as_str()),
            None => Pattern::new(DEFAULT_PATTERN),
        }
    }
}

/// Whether no command before index `n` is named `name`.
pub open spec fn unnamed_before(commands: Seq<Command>, name: Seq<char>, n: int) -> bool {
    forall|j: int| 0 <= j < n ==> (#[trigger] commands[j]).name@ != name
}

impl Config {
    /// The supervised process.
    pub fn process(&self) -> (r: &Process)
        ensures
            *r == self.process,
    {
        &self.process
    }

    /// The first command named `name`, if there is one.
    pub fn get_command_by_name(&self, name: &str) -> (r: Option<&Command>)
        ensures
            match r {
                Some(c) => exists|i: int|
                    0 <= i < self.commands.len() && self.commands[i] == *c && c.name@ == name@
                        && unnamed_before(self.commands@, name@, i),
                None => unnamed_before(self.commands@, name@, self.commands.len() as int),
            },
    {
        let mut i: usize = 0;
        while i < self.commands.len()
            invariant
                i <= self.commands.len(),
                unnamed_before(self.commands@, name@, i as int),
            decreases self.commands.len() - i,
        {
            if same_text(self.commands[i].name.as_str(), name) {
                return Some(&self.commands[i]);
            }
            i = i + 1;
        }
        None
    }
}

} // verus!
