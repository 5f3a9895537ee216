use barrette::config::{Command, Config, Process as ProcessConfig};
use barrette::extract::{
    parse_percentage, reading_from_output, ExtractError, Pattern, DEFAULT_PATTERN,
};
use barrette::fifo::{is_rw, Fifo, FifoError, PathStatus, PipeAction, DEFAULT_FIFO_MODE};
use barrette::invocation::{
    ensure_proc_is_running, get_percentage_from_command, lock_path, reading_line, ReadingError,
};
use barrette::pid_lock::{decimal_bytes, CreateOutcome, LockError, PidLock};
use barrette::process::{command_output, listed, Process, RunError, StartPlan};

fn supervised(fifo_path: Option<&str>) -> ProcessConfig {
    ProcessConfig {
        command: "barwatcher".to_string(),
        args: None,
        fifo_path: fifo_path.map(|s| s.to_string()),
        fifo_mode: None,
        lock_path: None,
    }
}

fn battery() -> Command {
    Command {
        name: "battery".to_string(),
        command: "echo".to_string(),
        args: Some(vec!["77%".to_string()]),
        regex: None,
    }
}

#[test]
fn default_pattern_reads_42() {
    let p = Pattern::new(DEFAULT_PATTERN).unwrap();
    assert_eq!(reading_from_output("battery at 42% now", &p).unwrap(), 42);
}

#[test]
fn no_digit_percent_fails() {
    let p = Pattern::new(DEFAULT_PATTERN).unwrap();
    assert!(matches!(
        reading_from_output("battery full", &p),
        Err(ExtractError::NoMatch)
    ));
    assert!(matches!(
        reading_from_output("42 percent", &p),
        Err(ExtractError::NoMatch)
    ));
}

#[test]
fn first_match_wins() {
    let p = Pattern::new(DEFAULT_PATTERN).unwrap();
    assert_eq!(reading_from_output("5% then 60%", &p).unwrap(), 5);
}

#[test]
fn parse_percentage_values() {
    assert_eq!(parse_percentage("77%").unwrap(), 77);
    assert_eq!(parse_percentage("0").unwrap(), 0);
    assert_eq!(parse_percentage("+5%").unwrap(), 5);
    assert_eq!(parse_percentage("4294967295%").unwrap(), u32::MAX);
    assert!(matches!(parse_percentage("4294967296%"), Err(ExtractError::NotANumber(t)) if t == "4294967296%"));
    assert!(matches!(parse_percentage("%"), Err(ExtractError::NotANumber(_))));
    assert!(matches!(parse_percentage(""), Err(ExtractError::NotANumber(_))));
    assert!(matches!(parse_percentage("1a%"), Err(ExtractError::NotANumber(_))));
    assert!(matches!(parse_percentage("-3%"), Err(ExtractError::NotANumber(_))));
}

#[test]
fn bad_pattern_is_refused() {
    assert!(matches!(Pattern::new("foo(bar"), Err(ExtractError::BadPattern(s)) if s == "foo(bar"));
}

#[test]
fn custom_pattern_is_used() {
    let mut c = battery();
    c.regex = Some("[0-9]+".to_string());
    let p = c.regex().unwrap();
    assert_eq!(p.as_str(), "[0-9]+");
    assert_eq!(reading_from_output("load 7 of 9", &p).unwrap(), 7);
    c.regex = Some("v=[0-9]+".to_string());
    let p = c.regex().unwrap();
    assert!(matches!(reading_from_output("v=12", &p), Err(ExtractError::NotANumber(t)) if t == "v=12"));
}

#[test]
fn failing_command_reports_stderr() {
    let r = command_output(false, Vec::new(), b"no battery\n".to_vec());
    assert!(matches!(r, Err(RunError::Failed(t)) if t == "no battery\n"));
    let r = command_output(false, Vec::new(), Vec::new());
    assert!(matches!(r, Err(RunError::Failed(t)) if t.is_empty()));
}

#[test]
fn command_output_cases() {
    assert_eq!(command_output(true, b"77%\n".to_vec(), Vec::new()).unwrap(), "77%\n");
    assert!(matches!(
        command_output(true, vec![0xff, 0xfe], Vec::new()),
        Err(RunError::StdoutNotText)
    ));
    assert!(matches!(
        command_output(false, Vec::new(), vec![0xc3]),
        Err(RunError::StderrNotText)
    ));
}

#[test]
fn unknown_process_is_not_running() {
    let none: Vec<String> = Vec::new();
    let p = Process::new("definitely-not-a-real-process-xyz", &none);
    assert!(!p.is_running());
}

#[test]
fn listed_needs_exact_name() {
    let table = vec!["bash".to_string(), "barwatcher".to_string()];
    assert!(listed("barwatcher", &table));
    assert!(!listed("barwatch", &table));
    assert!(!listed("bash ", &table));
    assert!(!listed("bash", &Vec::new()));
}

#[test]
fn regular_file_is_not_a_fifo() {
    let f = Fifo::new("/tmp/some_file", 0o600);
    let st = PathStatus::Present { is_fifo: false, mode: 0o644 };
    assert!(matches!(f.is_present(&st), Err(FifoError::NotFifo(p)) if p == "/tmp/some_file"));
    assert!(f.ensure_exists(&st).is_err());
}

#[test]
fn fifo_presence_cases() {
    let f = Fifo::new("/tmp/f", 0o600);
    assert_eq!(f.is_present(&PathStatus::Absent).unwrap(), false);
    let ok = PathStatus::Present { is_fifo: true, mode: 0o10644 };
    assert_eq!(f.is_present(&ok).unwrap(), true);
    let ro = PathStatus::Present { is_fifo: true, mode: 0o444 };
    assert!(matches!(f.is_present(&ro), Err(FifoError::NotReadWrite(p)) if p == "/tmp/f"));
    let bad = PathStatus::Unreadable("denied".to_string());
    assert!(matches!(f.is_present(&bad), Err(FifoError::Metadata(p, m)) if p == "/tmp/f" && m == "denied"));
}

#[test]
fn owner_rw_bits() {
    assert!(is_rw(0o600));
    assert!(is_rw(0o700));
    assert!(is_rw(0o1777));
    assert!(!is_rw(0o500));
    assert!(!is_rw(0o400));
    assert!(!is_rw(0o066));
}

#[test]
fn ensure_exists_twice() {
    let f = Fifo::new("/tmp/f", DEFAULT_FIFO_MODE);
    assert_eq!(f.ensure_exists(&PathStatus::Absent).unwrap(), PipeAction::Create);
    let after = PathStatus::Present { is_fifo: true, mode: f.mode() };
    assert_eq!(f.ensure_exists(&after).unwrap(), PipeAction::Keep);
    assert_eq!(f.ensure_exists(&after).unwrap(), PipeAction::Keep);
}

#[test]
fn second_lock_fails_and_first_removes() {
    let mut first = PidLock::new("/tmp/x.pid");
    let mut second = PidLock::new("/tmp/x.pid");
    assert!(!first.acquired());
    assert_eq!(first.acquire(CreateOutcome::Created, 4321).unwrap(), b"4321".to_vec());
    assert!(first.acquired());
    assert!(matches!(
        second.acquire(CreateOutcome::AlreadyExists, 99),
        Err(LockError::Busy(p)) if p == "/tmp/x.pid"
    ));
    assert!(!second.acquired());
    assert!(!second.release());
    assert!(first.release());
    assert!(!first.acquired());
}

#[test]
fn lock_create_failure() {
    let mut l = PidLock::new("/nope/x.pid");
    let r = l.acquire(CreateOutcome::Failed("No such file".to_string()), 1);
    assert!(matches!(r, Err(LockError::Io(p, m)) if p == "/nope/x.pid" && m == "No such file"));
    assert!(!l.acquired());
}

#[test]
fn decimal_text() {
    assert_eq!(decimal_bytes(0), b"0".to_vec());
    assert_eq!(decimal_bytes(10), b"10".to_vec());
    assert_eq!(decimal_bytes(u32::MAX), b"4294967295".to_vec());
    assert_eq!(reading_line(7), b"7\n".to_vec());
}

#[test]
fn descriptor_arguments() {
    let c = battery();
    let p = Process::from_process_desc(&c);
    assert_eq!(p.name(), "echo");
    assert_eq!(p.args(), &vec!["77%".to_string()]);
    let s = supervised(None);
    let p = Process::from_process_desc(&s);
    assert_eq!(p.name(), "barwatcher");
    assert!(p.args().is_empty());
}

#[test]
fn defaults_and_lookup() {
    let conf = Config { process: supervised(None), commands: vec![battery()] };
    let f = Fifo::from_process(conf.process());
    assert_eq!(f.path(), "/tmp/barrette_fifo");
    assert_eq!(f.mode(), 0o600);
    assert_eq!(lock_path(&conf), "/tmp/barrette.pid");
    assert!(conf.get_command_by_name("battery").is_some());
    assert!(conf.get_command_by_name("cpu").is_none());
    assert!(matches!(
        get_percentage_from_command(&conf, "cpu", "1%"),
        Err(ReadingError::NoSuchCommand(n)) if n == "cpu"
    ));
}

#[test]
fn running_process_needs_nothing() {
    let conf = Config { process: supervised(None), commands: Vec::new() };
    let bad = PathStatus::Present { is_fifo: false, mode: 0o600 };
    assert_eq!(ensure_proc_is_running(&conf, true, &bad).unwrap(), StartPlan::AlreadyRunning);
    assert!(ensure_proc_is_running(&conf, false, &bad).is_err());
    let ok = PathStatus::Present { is_fifo: true, mode: 0o600 };
    assert_eq!(ensure_proc_is_running(&conf, false, &ok).unwrap(), StartPlan::Spawn);
}

#[test]
fn end_to_end_barwatcher_battery() {
    let conf = Config { process: supervised(Some("/tmp/test_fifo")), commands: vec![battery()] };
    let plan = ensure_proc_is_running(&conf, false, &PathStatus::Absent).unwrap();
    assert_eq!(plan, StartPlan::CreatePipeThenSpawn);
    let f = Fifo::from_process(conf.process());
    assert_eq!(f.path(), "/tmp/test_fifo");
    assert_eq!(f.mode(), 0o600);
    let p = Process::from_process_desc(conf.process());
    assert_eq!(p.name(), "barwatcher");
    let cmd = conf.get_command_by_name("battery").unwrap();
    let run = Process::from_process_desc(cmd);
    assert_eq!(run.name(), "echo");
    assert_eq!(run.args(), &vec!["77%".to_string()]);
    let out = command_output(true, b"77%\n".to_vec(), Vec::new()).unwrap();
    let value = get_percentage_from_command(&conf, "battery", &out).unwrap();
    assert_eq!(value, 77);
    assert_eq!(reading_line(value), b"77\n".to_vec());
}
