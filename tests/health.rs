use dmgr::config::ServiceConfigContent;
use dmgr::service::{http_request, http_status_code, status_code_ok, HealthProbe, PortProbe, Service};
use dmgr::status::Status;
use dmgr::command::ErrorKind;

fn content(ports: Vec<u16>, http_check: Option<&str>) -> ServiceConfigContent {
    ServiceConfigContent {
        aliases: None,
        image_name: None,
        ports: Some(ports),
        start_container: None,
        start_process: Some("python app.py".to_string()),
        start_dev_mode: None,
        http_check: http_check.map(|s| s.to_string()),
        health_checks: None,
        register_by_default: None,
        requires_sudo: None,
    }
}

fn service(ports: Vec<u16>, http_check: Option<&str>) -> Service {
    Service::from_path("/home/dev/api/.solo/api.json", content(ports, http_check)).unwrap()
}

fn open(port: u16, line: Option<&str>) -> PortProbe {
    PortProbe { port, open: true, status_line: line.map(|s| s.to_string()) }
}

fn closed(port: u16) -> PortProbe {
    PortProbe { port, open: false, status_line: None }
}

#[test]
fn no_ports_no_pid_is_stopped() {
    let svc = service(vec![], None);
    let probe = HealthProbe { active_pid: false, ports: vec![] };
    assert_eq!(svc.status(&probe), "-");
}

#[test]
fn no_ports_active_pid_is_running() {
    let svc = service(vec![], None);
    let probe = HealthProbe { active_pid: true, ports: vec![] };
    assert_eq!(svc.status(&probe), "running");
}

#[test]
fn owned_port_open_check_200_is_running() {
    let svc = service(vec![8080], Some("/health"));
    let probe = HealthProbe { active_pid: true, ports: vec![open(8080, Some("HTTP/1.1 200 OK"))] };
    assert_eq!(svc.status(&probe), "running");
    assert!(svc.is_ready(&probe));
    assert!(!svc.is_disowned(&probe));
}

#[test]
fn owned_port_open_check_500_is_waiting() {
    let svc = service(vec![8080], Some("/health"));
    let probe = HealthProbe {
        active_pid: true,
        ports: vec![open(8080, Some("HTTP/1.1 500 Internal Server Error"))],
    };
    assert_eq!(svc.status(&probe), "waiting");
    assert!(svc.is_waiting(&probe));
    assert!(svc.has_http_check_defined_and_failing(&probe));
}

#[test]
fn disowned_port_open_check_passing_is_running_star() {
    let svc = service(vec![8080], Some("/health"));
    let probe = HealthProbe { active_pid: false, ports: vec![open(8080, Some("HTTP/1.1 200 OK"))] };
    assert_eq!(svc.status(&probe), "running*");
    assert!(svc.is_disowned(&probe));
    assert!(svc.is_running(&probe));
}

#[test]
fn disowned_check_failing_is_waiting_star() {
    let svc = service(vec![8080], Some("/health"));
    let probe = HealthProbe { active_pid: false, ports: vec![open(8080, None)] };
    assert_eq!(svc.status(&probe), "waiting*");
}

#[test]
fn port_closed_with_pid_is_stopped() {
    let svc = service(vec![8080], None);
    let probe = HealthProbe { active_pid: true, ports: vec![closed(8080)] };
    assert_eq!(svc.health(&probe), Status::Stopped);
    assert!(svc.has_ports_defined_and_all_closed(&probe));
    assert!(svc.is_running(&probe));
    assert!(svc.is_waiting(&probe));
    assert!(!svc.is_ready(&probe));
}

#[test]
fn mixed_ports_are_waiting() {
    let svc = service(vec![8080, 9090], None);
    let probe = HealthProbe { active_pid: true, ports: vec![closed(9090), open(8080, None)] };
    assert_eq!(svc.status(&probe), "waiting");
    assert_eq!(svc.open_ports(&probe), vec![8080]);
    assert!(svc.has_ports_defined_and_open(&probe));
}

#[test]
fn unprobed_port_counts_as_closed() {
    let svc = service(vec![8080], None);
    let probe = HealthProbe { active_pid: false, ports: vec![] };
    assert_eq!(svc.status(&probe), "-");
    assert_eq!(svc.open_ports(&probe), Vec::<u16>::new());
}

#[test]
fn http_check_uses_first_open_port() {
    let svc = service(vec![8080, 9090], Some("/health"));
    let probe = HealthProbe {
        active_pid: true,
        ports: vec![closed(8080), open(9090, Some("HTTP/1.0 204 No Content"))],
    };
    assert!(svc.http_check_passing(&probe));
    let none = HealthProbe { active_pid: true, ports: vec![closed(8080), closed(9090)] };
    assert!(!svc.http_check_passing(&none));
}

#[test]
fn row_shows_name_status_and_ports() {
    let svc = service(vec![8080, 3000], None);
    let probe = HealthProbe { active_pid: true, ports: vec![open(8080, None), open(3000, None)] };
    assert_eq!(svc.row(&probe), vec!["api".to_string(), "running".to_string(), "[8080, 3000]".to_string()]);
    let empty = service(vec![], None);
    let none = HealthProbe { active_pid: false, ports: vec![] };
    assert_eq!(empty.row(&none)[2], "[]");
}

#[test]
fn status_codes() {
    assert_eq!(http_status_code("HTTP/1.1 200 OK").unwrap(), 200);
    assert_eq!(http_status_code("  HTTP/1.1\t404   Not Found").unwrap(), 404);
    assert_eq!(http_status_code("HTTP/1.1 +301").unwrap(), 301);
    assert_eq!(http_status_code("HTTP/1.1 65535").unwrap(), 65535);
    assert_eq!(http_status_code("HTTP/1.1").unwrap_err().kind, ErrorKind::InvalidHttpResponse);
    assert_eq!(http_status_code("").unwrap_err().kind, ErrorKind::InvalidHttpResponse);
    assert_eq!(http_status_code("HTTP/1.1 65536").unwrap_err().kind, ErrorKind::InvalidHttpResponse);
    assert_eq!(http_status_code("HTTP/1.1 2x0").unwrap_err().kind, ErrorKind::InvalidHttpResponse);
    assert_eq!(http_status_code("HTTP/1.1 -1").unwrap_err().kind, ErrorKind::InvalidHttpResponse);
    assert!(status_code_ok(399));
    assert!(!status_code_ok(400));
}

#[test]
fn request_line() {
    assert_eq!(http_request("/health"), "GET /health HTTP/1.1\r\n");
}

#[test]
fn descriptor_fields_and_defaults() {
    let svc = service(vec![8080], Some("/health"));
    assert_eq!(svc.name, "api");
    assert_eq!(svc.repo_path, "/home/dev/api");
    assert_eq!(svc.config_file, "/home/dev/api/.solo/api.json");
    assert_eq!(svc.ports, vec![8080]);
    assert_eq!(svc.http_check.as_deref(), Some("/health"));
    assert!(svc.aliases.is_empty());
    assert!(svc.health_checks.is_empty());
    assert!(!svc.requires_sudo);
    assert!(svc.register_by_default);
    assert!(svc.image_tag.is_none());
}

#[test]
fn descriptor_without_repository_is_not_found() {
    let e = Service::from_path("/api.json", content(vec![], None)).unwrap_err();
    assert_eq!(e.kind, ErrorKind::ConfigNotFound);
    let by_name = Service::from_name("/srv/web/.solo/web.json", content(vec![], None)).unwrap();
    assert_eq!(by_name.name, "web");
    let by_alias = Service::from_alias("/srv/web/.solo/web.json", content(vec![], None)).unwrap();
    assert_eq!(by_alias.repo_path, "/srv/web");
}

#[test]
fn new_descriptor_defaults() {
    let svc = Service::new();
    assert_eq!(svc.name, "");
    assert!(svc.ports.is_empty());
    assert!(svc.register_by_default);
    assert!(!svc.requires_sudo);
}

#[test]
fn two_open_ports_without_pid_fall_back_but_are_disowned() {
    let svc = service(vec![8080, 9090], None);
    let probe = HealthProbe { active_pid: false, ports: vec![open(8080, None), open(9090, None)] };
    assert_eq!(svc.health_report(&probe), (Status::Stopped, true));
    assert_eq!(svc.status(&probe), "-");
    assert!(svc.is_disowned(&probe));
    assert!(svc.is_running(&probe));
    assert!(svc.is_ready(&probe));
    assert!(!svc.is_waiting(&probe));
}

#[test]
fn tabled_fold_reports_no_fallback() {
    let svc = service(vec![8080], Some("/health"));
    let probe = HealthProbe { active_pid: true, ports: vec![open(8080, Some("HTTP/1.1 200 OK"))] };
    assert_eq!(svc.health_report(&probe), (Status::Running, false));
}

#[test]
fn from_name_reads_every_field() {
    let mut c = content(vec![80], Some("/up"));
    c.aliases = Some(vec!["w".to_string()]);
    c.requires_sudo = Some(true);
    c.register_by_default = Some(false);
    let svc = Service::from_name("/srv/web/.solo/web.json", c).unwrap();
    assert_eq!(svc.name, "web");
    assert_eq!(svc.ports, vec![80]);
    assert_eq!(svc.aliases, vec!["w".to_string()]);
    assert_eq!(svc.start_process.as_deref(), Some("python app.py"));
    assert!(svc.requires_sudo);
    assert!(!svc.register_by_default);
}
