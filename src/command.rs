//! The errors of this tool.
use vstd::prelude::*;
use crate::text::{signed_decimal, signed_decimal_text};

verus! {

/// What went wrong.
#[derive(Clone, Copy, Debug, PartialEq, Eq, Structural)]
pub enum ErrorKind {
    UnknownService,
    ConfigNotFound,
    ConfigParseError,
    RegistryIOError,
    RegistryParseError,
    NoStartCommand,
    CommandParseError,
    ProcessSpawnError,
    ProcessExitedWithError,
    ProcessSignalError,
    UnknownProcessState,
    InvalidHttpResponse,
}

/// An error: its kind, a message for the user, and the number of the OS
/// error behind it, if there is one.
#[derive(Debug)]
pub struct DmgrErr {
    pub kind: ErrorKind,
    pub msg: String,
    pub os_error: Option<i32>,
}

impl DmgrErr {
    pub fn new(kind: ErrorKind, content: &str) -> (r: DmgrErr)
        ensures
            r.kind == kind,
            r.msg@ == content@,
            r.os_error is None,
    {
        DmgrErr { kind, msg: String::from_str(content), os_error: None }
    }

    /// An error whose message is `<content><subject>`.
    pub fn about(kind: ErrorKind, content: &str, subject: &str) -> (r: DmgrErr)
        ensures
            r.kind == kind,
            r.msg@ == content@ + subject@,
            r.os_error is None,
    {
        let mut msg = String::from_str(content);
        msg.append(subject);
        DmgrErr { kind, msg, os_error: None }
    }

    /// An error caused by OS error `errno`, whose message is
    /// `<content><subject>: os error <errno>`.
    pub fn from_os(kind: ErrorKind, content: &str, subject: &str, errno: i32) -> (r: DmgrErr)
        ensures
            r.kind == kind,
            r.msg@ == content@ + subject@ + ": os error "@ + signed_decimal(errno as int),
            r.os_error == Some(errno),
    {
        let mut msg = String::from_str(content);
        msg.append(subject);
        msg.append(": os error ");
        let n = signed_decimal_text(errno);
        msg.append(n.as_str());
        DmgrErr { kind, msg, os_error: Some(errno) }
    }

    /// The message shown to the user.
    pub fn message(&self) -> (r: &str)
        ensures
            r@ == self.msg@,
    {
        self.msg.as_str()
    }
}

} // verus!
