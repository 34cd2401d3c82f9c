//! The status of a service and the rule that combines two health signals.
use vstd::prelude::*;

verus! {

/// One health signal, or the status of a whole service.
///
/// `Owned` and `Disowned` only say whether the service has a live recorded
/// process; they are folded away before a status is shown.
#[derive(Clone, Copy, Debug, PartialEq, Eq, Structural)]
pub enum Status {
    Stopped,
    Waiting,
    Running,
    Owned,
    Disowned,
    WaitingDisowned,
    RunningDisowned,
}

/// The combination table. Equal signals stay as they are, `Owned` is neutral,
/// and every pairing the table does not name degrades to `Stopped`.
pub open spec fn combine_spec(a: Status, b: Status) -> Status {
    if a == b {
        a
    } else if a == Status::Owned {
        b
    } else if b == Status::Owned {
        a
    } else {
        match (a, b) {
            (Status::Stopped, Status::Running) | (Status::Running, Status::Stopped) => Status::Waiting,
            (Status::Waiting, Status::Stopped) | (Status::Stopped, Status::Waiting) => Status::Waiting,
            (Status::Waiting, Status::Running) | (Status::Running, Status::Waiting) => Status::Waiting,
            (Status::Disowned, Status::Stopped) | (Status::Stopped, Status::Disowned) => Status::Stopped,
            (Status::Disowned, Status::Waiting) | (Status::Waiting, Status::Disowned) => Status::WaitingDisowned,
            (Status::Disowned, Status::Running) | (Status::Running, Status::Disowned) => Status::RunningDisowned,
            _ => Status::Stopped,
        }
    }
}

/// Whether the table names the pairing: equal signals, `Owned` with anything,
/// or one of the listed pairs. Any other pairing falls back to `Stopped`.
pub open spec fn in_table(a: Status, b: Status) -> bool {
    a == b || a == Status::Owned || b == Status::Owned || match (a, b) {
        (Status::Stopped, Status::Running) | (Status::Running, Status::Stopped) => true,
        (Status::Waiting, Status::Stopped) | (Status::Stopped, Status::Waiting) => true,
        (Status::Waiting, Status::Running) | (Status::Running, Status::Waiting) => true,
        (Status::Disowned, Status::Stopped) | (Status::Stopped, Status::Disowned) => true,
        (Status::Disowned, Status::Waiting) | (Status::Waiting, Status::Disowned) => true,
        (Status::Disowned, Status::Running) | (Status::Running, Status::Disowned) => true,
        _ => false,
    }
}

/// A status that may be shown to a user: anything but the two ownership signals.
pub open spec fn is_final(s: Status) -> bool {
    s != Status::Owned && s != Status::Disowned
}

/// What a port probe can yield.
pub open spec fn is_port_signal(s: Status) -> bool {
    s == Status::Stopped || s == Status::Waiting || s == Status::Running
}

/// The text shown for a final status.
pub open spec fn label_spec(s: Status) -> Seq<char> {
    match s {
        Status::Stopped => "-"@,
        Status::Waiting => "waiting"@,
        Status::Running => "running"@,
        Status::WaitingDisowned => "waiting*"@,
        Status::RunningDisowned => "running*"@,
        _ => Seq::empty(),
    }
}

/// Combines two signals by the table of `combine_spec`.
pub fn combine(a: Status, b: Status) -> (r: Status)
    ensures
        r == combine_spec(a, b),
{
    if a == b {
        a
    } else if a == Status::Owned {
        b
    } else if b == Status::Owned {
        a
    } else {
        match (a, b) {
            (Status::Stopped, Status::Running) | (Status::Running, Status::Stopped) => Status::Waiting,
            (Status::Waiting, Status::Stopped) | (Status::Stopped, Status::Waiting) => Status::Waiting,
            (Status::Waiting, Status::Running) | (Status::Running, Status::Waiting) => Status::Waiting,
            (Status::Disowned, Status::Stopped) | (Status::Stopped, Status::Disowned) => Status::Stopped,
            (Status::Disowned, Status::Waiting) | (Status::Waiting, Status::Disowned) => Status::WaitingDisowned,
            (Status::Disowned, Status::Running) | (Status::Running, Status::Disowned) => Status::RunningDisowned,
            _ => Status::Stopped,
        }
    }
}

/// Whether the table names the pairing of `a` and `b`; when it does not,
/// `combine` falls back to `Stopped`.
pub fn is_tabled(a: Status, b: Status) -> (r: bool)
    ensures
        r == in_table(a, b),
        !r ==> combine_spec(a, b) == Status::Stopped,
{
    if a == b || a == Status::Owned || b == Status::Owned {
        true
    } else {
        match (a, b) {
            (Status::Stopped, Status::Running) | (Status::Running, Status::Stopped) => true,
            (Status::Waiting, Status::Stopped) | (Status::Stopped, Status::Waiting) => true,
            (Status::Waiting, Status::Running) | (Status::Running, Status::Waiting) => true,
            (Status::Disowned, Status::Stopped) | (Status::Stopped, Status::Disowned) => true,
            (Status::Disowned, Status::Waiting) | (Status::Waiting, Status::Disowned) => true,
            (Status::Disowned, Status::Running) | (Status::Running, Status::Disowned) => true,
            _ => false,
        }
    }
}

/// `combine` does not depend on the order of its arguments.
pub proof fn lemma_combine_commutative(a: Status, b: Status)
    ensures
        combine_spec(a, b) == combine_spec(b, a),
{
}

/// Combining a signal with itself gives that signal.
pub proof fn lemma_combine_idempotent(a: Status)
    ensures
        combine_spec(a, a) == a,
{
}

/// `Owned` is the identity of `combine`.
pub proof fn lemma_combine_owned_identity(x: Status)
    ensures
        combine_spec(Status::Owned, x) == x,
        combine_spec(x, Status::Owned) == x,
{
}

/// Once a port signal has been folded in, the result is final.
pub proof fn lemma_combine_port_signal_is_final(a: Status, p: Status)
    requires
        is_port_signal(p),
    ensures
        is_final(combine_spec(a, p)),
{
}

impl Status {
    /// The text shown for a final status.
    pub fn label(self) -> (r: String)
        requires
            is_final(self),
        ensures
            r@ == label_spec(self),
    {
        match self {
            Status::Stopped => String::from_str("-"),
            Status::Waiting => String::from_str("waiting"),
            Status::Running => String::from_str("running"),
            Status::WaitingDisowned => String::from_str("waiting*"),
            Status::RunningDisowned => String::from_str("running*"),
            _ => String::new(),
        }
    }
}

} // verus!
