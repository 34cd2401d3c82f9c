use dmgr::command::ErrorKind;
use dmgr::config::{Runfile, ServiceConfigContent, ServiceRegistry};
use dmgr::input::{parse_args, Subcommand};
use dmgr::service::{HealthProbe, PortProbe, Service};
use dmgr::supervisor::{
    attached_outcome, cmd_for, command_from_words, has_active_pid, signal_outcome, signal_target,
    start_as_process, stop_target, StartPlan,
};

fn cfg(start: Option<&str>) -> ServiceConfigContent {
    ServiceConfigContent {
        aliases: None,
        image_name: None,
        ports: Some(vec![8080]),
        start_container: None,
        start_process: start.map(|s| s.to_string()),
        start_dev_mode: None,
        http_check: Some("/health".to_string()),
        health_checks: None,
        register_by_default: None,
        requires_sudo: None,
    }
}

#[test]
fn command_is_split_by_shell_rules() {
    let c = cmd_for(&Some("python -m 'http server' \"a b\" c\\ d".to_string())).unwrap();
    assert_eq!(c.program, "python");
    assert_eq!(c.args, vec!["-m".to_string(), "http server".to_string(), "a b".to_string(), "c d".to_string()]);
}

#[test]
fn command_errors() {
    assert_eq!(cmd_for(&None).unwrap_err().kind, ErrorKind::NoStartCommand);
    assert_eq!(cmd_for(&Some("run 'open".to_string())).unwrap_err().kind, ErrorKind::CommandParseError);
    assert_eq!(cmd_for(&Some("   ".to_string())).unwrap_err().kind, ErrorKind::CommandParseError);
    assert_eq!(command_from_words(None).unwrap_err().kind, ErrorKind::CommandParseError);
    assert_eq!(command_from_words(Some(vec![])).unwrap_err().kind, ErrorKind::CommandParseError);
    let c = command_from_words(Some(vec!["a".to_string(), "b".to_string()])).unwrap();
    assert_eq!((c.program.as_str(), c.args), ("a", vec!["b".to_string()]));
}

#[test]
fn attached_and_detached_plans() {
    let svc = Service::from_path("/srv/api/.solo/api.json", cfg(Some("python app.py"))).unwrap();
    match start_as_process(&svc, true, "/home/dev/.solo").unwrap() {
        StartPlan::Attached { command } => assert_eq!(command.program, "python"),
        _ => panic!("expected an attached plan"),
    }
    match start_as_process(&svc, false, "/home/dev/.solo").unwrap() {
        StartPlan::Detached { command, log_file, run_file } => {
            assert_eq!(command.args, vec!["app.py".to_string()]);
            assert_eq!(log_file, "/home/dev/.solo/log/api.log");
            assert_eq!(run_file, "/home/dev/.solo/run/api.json");
        }
        _ => panic!("expected a detached plan"),
    }
    let none = Service::from_path("/srv/api/.solo/api.json", cfg(None)).unwrap();
    assert_eq!(start_as_process(&none, false, "/b").unwrap_err().kind, ErrorKind::NoStartCommand);
}

#[test]
fn exit_codes() {
    assert!(attached_outcome(Some(0)).is_ok());
    assert_eq!(attached_outcome(Some(2)).unwrap_err().kind, ErrorKind::ProcessExitedWithError);
    assert_eq!(attached_outcome(None).unwrap_err().kind, ErrorKind::ProcessExitedWithError);
}

#[test]
fn signal_targets() {
    assert_eq!(signal_target(0), None);
    assert_eq!(signal_target(4242), Some(4242));
    assert_eq!(signal_target(2147483647), Some(2147483647));
    assert_eq!(signal_target(2147483648), None);
    assert_eq!(stop_target(None).unwrap_err().kind, ErrorKind::UnknownProcessState);
    assert_eq!(stop_target(Some(Runfile::spawned(0))).unwrap_err().kind, ErrorKind::UnknownProcessState);
    let e = signal_outcome("api", -1, 3).unwrap_err();
    assert_eq!(e.kind, ErrorKind::ProcessSignalError);
    assert_eq!(e.os_error, Some(3));
    assert_eq!(e.msg, "unable to stop api: os error 3");
    assert!(signal_outcome("api", 0, 0).is_ok());
}

#[test]
fn register_start_list_stop_api() {
    let reg = ServiceRegistry::new("/home/dev/.solo/registry.json")
        .add_cfg("/srv/api/.solo/api.json", cfg(Some("python app.py")))
        .unwrap();
    let path = reg.get_service("api").unwrap();
    let svc = Service::from_path(&path, cfg(Some("python app.py"))).unwrap();

    let record = match start_as_process(&svc, false, "/home/dev/.solo").unwrap() {
        StartPlan::Detached { command, .. } => {
            assert_eq!(command.program, "python");
            Runfile::spawned(31337)
        }
        _ => panic!("expected a detached plan"),
    };
    assert_eq!(record, Runfile { pid: 31337, is_container: false });

    let live = has_active_pid(Some(record), true);
    assert!(live);
    let up = HealthProbe {
        active_pid: live,
        ports: vec![PortProbe { port: 8080, open: true, status_line: Some("HTTP/1.1 200 OK".to_string()) }],
    };
    assert_eq!(svc.status(&up), "running");

    let pid = stop_target(Some(record)).unwrap();
    assert_eq!(pid, 31337);
    assert!(signal_outcome("api", 0, 0).is_ok());

    let after = has_active_pid(Some(record), false);
    assert!(!after);
    let down = HealthProbe {
        active_pid: after,
        ports: vec![PortProbe { port: 8080, open: false, status_line: None }],
    };
    assert_eq!(svc.status(&down), "-");
}

#[test]
fn subcommands() {
    let args = |w: &str| vec!["dmgr".to_string(), w.to_string()];
    assert_eq!(parse_args(args("ls")), Ok(Subcommand::List));
    assert_eq!(parse_args(args("h")), Ok(Subcommand::Health));
    assert_eq!(parse_args(args("register")), Ok(Subcommand::Register));
    assert_eq!(parse_args(args("stop")), Ok(Subcommand::Stop));
    assert_eq!(parse_args(args("fly")), Err("not a valid subcommand: fly".to_string()));
    assert_eq!(parse_args(vec!["dmgr".to_string()]), Err("no subcommand given".to_string()));
}
