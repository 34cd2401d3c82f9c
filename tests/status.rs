use dmgr::status::{combine, is_tabled, Status};

const ALL: [Status; 7] = [
    Status::Stopped,
    Status::Waiting,
    Status::Running,
    Status::Owned,
    Status::Disowned,
    Status::WaitingDisowned,
    Status::RunningDisowned,
];

#[test]
fn combine_is_commutative() {
    for a in ALL {
        for b in ALL {
            assert_eq!(combine(a, b), combine(b, a));
        }
    }
}

#[test]
fn combine_is_idempotent() {
    for a in ALL {
        assert_eq!(combine(a, a), a);
    }
}

#[test]
fn owned_is_identity() {
    for x in ALL {
        assert_eq!(combine(Status::Owned, x), x);
    }
}

#[test]
fn combine_table() {
    assert_eq!(combine(Status::Stopped, Status::Running), Status::Waiting);
    assert_eq!(combine(Status::Waiting, Status::Stopped), Status::Waiting);
    assert_eq!(combine(Status::Waiting, Status::Running), Status::Waiting);
    assert_eq!(combine(Status::Disowned, Status::Stopped), Status::Stopped);
    assert_eq!(combine(Status::Disowned, Status::Waiting), Status::WaitingDisowned);
    assert_eq!(combine(Status::Disowned, Status::Running), Status::RunningDisowned);
}

#[test]
fn unnamed_pairings_degrade_to_stopped() {
    assert_eq!(combine(Status::WaitingDisowned, Status::Running), Status::Stopped);
    assert_eq!(combine(Status::RunningDisowned, Status::Disowned), Status::Stopped);
    assert_eq!(combine(Status::WaitingDisowned, Status::RunningDisowned), Status::Stopped);
}

#[test]
fn labels() {
    assert_eq!(Status::Stopped.label(), "-");
    assert_eq!(Status::Waiting.label(), "waiting");
    assert_eq!(Status::Running.label(), "running");
    assert_eq!(Status::WaitingDisowned.label(), "waiting*");
    assert_eq!(Status::RunningDisowned.label(), "running*");
}

#[test]
fn fallback_pairings_are_not_tabled() {
    assert!(is_tabled(Status::Disowned, Status::Running));
    assert!(is_tabled(Status::Owned, Status::RunningDisowned));
    assert!(!is_tabled(Status::RunningDisowned, Status::Running));
    assert!(!is_tabled(Status::Disowned, Status::WaitingDisowned));
}
