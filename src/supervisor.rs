//! The decisions of the process supervisor: what to run to start a service,
//! what a run record says, which process to signal, and what an exit or a
//! signal means. Running and signalling processes is left to the caller.
use vstd::prelude::*;
use crate::command::{DmgrErr, ErrorKind};
use crate::config::{texts, Runfile};
use crate::paths::{log_path_spec, run_path_spec};
use crate::service::Service;
use crate::text::signed_decimal;

verus! {

/// The words of a command line split by POSIX shell rules, or none when it
/// cannot be split (a quote left open).
pub uninterp spec fn shell_words(s: Seq<char>) -> Option<Seq<Seq<char>>>;

/// Relies on `shlex::split`: it splits a command line into words by POSIX
/// shell rules, honouring quotes and escapes, and gives `None` on an open quote
/// or a trailing backslash.
#[verifier::external_body]
fn shlex_split(s: &str) -> (r: Option<Vec<String>>)
    ensures
        r is Some <==> shell_words(s@) is Some,
        r matches Some(w) ==> texts(w@) == shell_words(s@)->0,
{
    shlex::split(s)
}

/// A program and its arguments.
#[derive(Debug)]
pub struct ProcessCommand {
    pub program: String,
    pub args: Vec<String>,
}

/// How to start a service.
#[derive(Debug)]
pub enum StartPlan {
    /// Run in the foreground with the caller's streams, and wait for it.
    Attached { command: ProcessCommand },
    /// Spawn with its output appended to `log_file`, and record its pid in `run_file`.
    Detached { command: ProcessCommand, log_file: String, run_file: String },
}

impl StartPlan {
    pub open spec fn command_spec(&self) -> ProcessCommand {
        match self {
            StartPlan::Attached { command } => *command,
            StartPlan::Detached { command, .. } => *command,
        }
    }
}

/// The command that the words of a command line give: the first word is the
/// program, the others its arguments. No words, or words that could not be
/// split, give no command.
pub fn command_from_words(words: Option<Vec<String>>) -> (r: Result<ProcessCommand, DmgrErr>)
    ensures
        r is Ok <==> (words matches Some(w) && w@.len() > 0),
        r matches Err(e) ==> e.kind == ErrorKind::CommandParseError,
        r matches Ok(c) ==> {
            let w = words->0@;
            c.program == w[0] && c.args@ == w.drop_first()
        },
{
    match words {
        Some(w) => {
            let mut w = w;
            if w.len() == 0 {
                return Err(DmgrErr::new(ErrorKind::CommandParseError, "the start command is empty"));
            }
            let program = w.remove(0);
            Ok(ProcessCommand { program, args: w })
        },
        None => Err(DmgrErr::new(ErrorKind::CommandParseError, "problem parsing the start command")),
    }
}

/// The command of a start script: its shell words.
pub fn cmd_for(cmd: &Option<String>) -> (r: Result<ProcessCommand, DmgrErr>)
    ensures
        cmd is None ==> (r matches Err(e) && e.kind == ErrorKind::NoStartCommand),
        cmd matches Some(s) ==> {
            &&& r is Ok <==> (shell_words(s@) matches Some(w) && w.len() > 0)
            &&& r matches Err(e) ==> e.kind == ErrorKind::CommandParseError
            &&& r matches Ok(c) ==> c.program@ == shell_words(s@)->0[0] && texts(c.args@)
                == shell_words(s@)->0.drop_first()
        },
{
    match cmd {
        Some(s) => {
            let words = shlex_split(s.as_str());
            let r = command_from_words(words);
            proof {
                if r is Ok {
                    let c = r->Ok_0;
                    let w = words->0@;
                    assert(texts(w)[0] == w[0]@);
                    assert(texts(c.args@) =~= texts(w).drop_first());
                }
            }
            r
        },
        None => Err(DmgrErr::new(ErrorKind::NoStartCommand, "no start_process script found")),
    }
}

/// How to start a service as a process, its files kept under the base
/// directory `base`: attached, or detached with its output in its log file and
/// its pid in its run record.
pub fn start_as_process(svc: &Service, attached: bool, base: &str) -> (r: Result<StartPlan, DmgrErr>)
    ensures
        svc.start_process is None ==> (r matches Err(e) && e.kind == ErrorKind::NoStartCommand),
        svc.start_process matches Some(s) ==> {
            &&& r is Ok <==> (shell_words(s@) matches Some(w) && w.len() > 0)
            &&& r matches Err(e) ==> e.kind == ErrorKind::CommandParseError
            &&& r matches Ok(p) ==> p.command_spec().program@ == shell_words(s@)->0[0] && texts(
                p.command_spec().args@,
            ) == shell_words(s@)->0.drop_first()
        },
        r matches Ok(p) ==> (p is Attached <==> attached),
        r matches Ok(StartPlan::Detached { log_file, run_file, .. }) ==> log_file@ == log_path_spec(
            base@,
            svc.name@,
        ) && run_file@ == run_path_spec(base@, svc.name@),
{
    let command = cmd_for(&svc.start_process)?;
    if attached {
        Ok(StartPlan::Attached { command })
    } else {
        Ok(
            StartPlan::Detached {
                command,
                log_file: svc.log_file(base),
                run_file: svc.run_file(base),
            },
        )
    }
}

/// What a command run in the foreground means: success only on exit code 0; a
/// process ended by a signal has no code.
pub fn attached_outcome(code: Option<i32>) -> (r: Result<(), DmgrErr>)
    ensures
        r is Ok <==> code == Some(0i32),
        r matches Err(e) ==> e.kind == ErrorKind::ProcessExitedWithError,
{
    match code {
        Some(0) => Ok(()),
        _ => Err(DmgrErr::new(ErrorKind::ProcessExitedWithError, "the command exited with an error")),
    }
}

/// The process id to signal for a recorded pid: one that names a single
/// process, from 1 up to the largest `pid_t`.
pub fn signal_target(pid: u32) -> (r: Option<i32>)
    ensures
        r is Some <==> 0 < pid <= i32::MAX,
        r matches Some(t) ==> t == pid,
{
    if 0 < pid && pid <= 0x7fff_ffff {
        Some(pid as i32)
    } else {
        None
    }
}

/// The process to stop, from the run record of the service, if one was read.
pub fn stop_target(record: Option<Runfile>) -> (r: Result<i32, DmgrErr>)
    ensures
        r is Ok <==> (record matches Some(rec) && 0 < rec.pid <= i32::MAX),
        r matches Ok(t) ==> t == record->0.pid,
        r matches Err(e) ==> e.kind == ErrorKind::UnknownProcessState,
{
    match record {
        Some(rec) => match signal_target(rec.pid) {
            Some(t) => Ok(t),
            None => Err(DmgrErr::new(ErrorKind::UnknownProcessState, "the recorded pid names no process")),
        },
        None => Err(DmgrErr::new(ErrorKind::UnknownProcessState, "no run record could be read")),
    }
}

/// What the result of sending a signal means: the call returns 0 on success;
/// otherwise the error carries `errno`, the OS error the call left.
pub fn signal_outcome(name: &str, code: i32, errno: i32) -> (r: Result<(), DmgrErr>)
    ensures
        r is Ok <==> code == 0,
        r matches Err(e) ==> {
            &&& e.kind == ErrorKind::ProcessSignalError
            &&& e.os_error == Some(errno)
            &&& e.msg@ == "unable to stop "@ + name@ + ": os error "@ + signed_decimal(errno as int)
        },
{
    if code == 0 {
        Ok(())
    } else {
        Err(DmgrErr::from_os(ErrorKind::ProcessSignalError, "unable to stop ", name, errno))
    }
}

/// Whether a service has a live recorded process: a record was read, its pid
/// can be signalled, and signal 0 reached it.
pub fn has_active_pid(record: Option<Runfile>, signal_reached: bool) -> (r: bool)
    ensures
        r == (record matches Some(rec) && 0 < rec.pid <= i32::MAX && signal_reached),
{
    match record {
        Some(rec) => signal_target(rec.pid).is_some() && signal_reached,
        None => false,
    }
}

} // verus!
