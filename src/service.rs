//! A service descriptor and the health of the service it describes.
use vstd::prelude::*;
use crate::command::{DmgrErr, ErrorKind};
use crate::config::ServiceConfigContent;
use crate::paths::{
    file_stem, file_stem_spec, grandparent_spec, log_path, log_path_spec, repo_path_for, run_path,
    run_path_spec,
};
use crate::status::{
    Status, combine, combine_spec, in_table, is_final, is_tabled, label_spec,
    lemma_combine_port_signal_is_final,
};
use crate::text::{list_text, list_text_spec, parse_u16, parse_u16_spec, second_word, second_word_of};

verus! {

/// A service descriptor, loaded from `<repo_path>/.solo/<name>.json`.
#[derive(Debug)]
pub struct Service {
    pub name: String,
    pub repo_path: String,
    pub config_file: String,
    pub start_process: Option<String>,
    pub start_dev_mode: Option<String>,
    pub start_container: Option<String>,
    pub http_check: Option<String>,
    pub health_checks: Vec<String>,
    pub image_name: Option<String>,
    pub image_tag: Option<String>,
    pub aliases: Vec<String>,
    pub ports: Vec<u16>,
    pub requires_sudo: bool,
    pub register_by_default: bool,
}

/// What was observed of one port: whether a TCP connection was made, and the
/// first line of the answer to the HTTP check, if one was asked and read.
#[derive(Debug)]
pub struct PortProbe {
    pub port: u16,
    pub open: bool,
    pub status_line: Option<String>,
}

/// What was observed of a service: whether its recorded process answers a
/// signal, and its ports.
#[derive(Debug)]
pub struct HealthProbe {
    pub active_pid: bool,
    pub ports: Vec<PortProbe>,
}

/// The status code of an HTTP status line: its second word, in decimal.
pub open spec fn status_code_spec(line: Seq<char>) -> Option<u16> {
    match second_word(line) {
        Some(w) => parse_u16_spec(w),
        None => None,
    }
}

/// Whether an HTTP check answered with a code below 400.
pub open spec fn http_ok_spec(line: Option<String>) -> bool {
    match line {
        Some(l) => match status_code_spec(l@) {
            Some(c) => c < 400,
            None => false,
        },
        None => false,
    }
}

/// The first probe of a port.
pub open spec fn find_probe(ps: Seq<PortProbe>, port: u16) -> Option<PortProbe>
    decreases ps.len(),
{
    if ps.len() == 0 {
        None
    } else if ps[0].port == port {
        Some(ps[0])
    } else {
        find_probe(ps.drop_first(), port)
    }
}

/// Whether a port was found open; a port without a probe counts as closed.
pub open spec fn port_open_spec(ps: Seq<PortProbe>, port: u16) -> bool {
    match find_probe(ps, port) {
        Some(p) => p.open,
        None => false,
    }
}

/// The signal of one port: `Stopped` when closed, `Running` when open and
/// without HTTP check or with a passing one, `Waiting` when the check fails.
pub open spec fn port_status_spec(has_check: bool, probe: Option<PortProbe>) -> Status {
    match probe {
        None => Status::Stopped,
        Some(p) => if !p.open {
            Status::Stopped
        } else if !has_check || http_ok_spec(p.status_line) {
            Status::Running
        } else {
            Status::Waiting
        },
    }
}

/// The signal of a recorded process.
pub open spec fn ownership(active_pid: bool) -> Status {
    if active_pid {
        Status::Owned
    } else {
        Status::Disowned
    }
}

/// The signals of the ports folded, left to right, into `start`.
pub open spec fn fold_ports(start: Status, ports: Seq<u16>, has_check: bool, ps: Seq<PortProbe>) -> Status
    decreases ports.len(),
{
    if ports.len() == 0 {
        start
    } else {
        combine_spec(
            fold_ports(start, ports.drop_last(), has_check, ps),
            port_status_spec(has_check, find_probe(ps, ports.last())),
        )
    }
}

/// Whether folding the ports into `start` met a pairing that the table does
/// not name.
pub open spec fn fold_falls_back(start: Status, ports: Seq<u16>, has_check: bool, ps: Seq<PortProbe>) -> bool
    decreases ports.len(),
{
    if ports.len() == 0 {
        false
    } else {
        fold_falls_back(start, ports.drop_last(), has_check, ps) || !in_table(
            fold_ports(start, ports.drop_last(), has_check, ps),
            port_status_spec(has_check, find_probe(ps, ports.last())),
        )
    }
}

/// Whether the status of a service was reached through a fallback of the table.
pub open spec fn falls_back(svc: &Service, probe: &HealthProbe) -> bool {
    svc.ports@.len() > 0 && fold_falls_back(
        ownership(probe.active_pid),
        svc.ports@,
        svc.http_check is Some,
        probe.ports@,
    )
}

/// The status of a service: from its process alone when it declares no port,
/// else its ownership signal combined with the signal of every port.
pub open spec fn status_of(svc: &Service, probe: &HealthProbe) -> Status {
    if svc.ports@.len() == 0 {
        if probe.active_pid {
            Status::Running
        } else {
            Status::Stopped
        }
    } else {
        fold_ports(ownership(probe.active_pid), svc.ports@, svc.http_check is Some, probe.ports@)
    }
}

proof fn lemma_fold_ports_final(start: Status, ports: Seq<u16>, has_check: bool, ps: Seq<PortProbe>)
    requires
        ports.len() > 0,
    ensures
        is_final(fold_ports(start, ports, has_check, ps)),
{
    lemma_combine_port_signal_is_final(
        fold_ports(start, ports.drop_last(), has_check, ps),
        port_status_spec(has_check, find_probe(ps, ports.last())),
    );
}

/// The status of a service is never one of the two ownership signals.
pub proof fn lemma_status_is_final(svc: &Service, probe: &HealthProbe)
    ensures
        is_final(status_of(svc, probe)),
{
    if svc.ports@.len() > 0 {
        lemma_fold_ports_final(ownership(probe.active_pid), svc.ports@, svc.http_check is Some, probe.ports@);
    }
}

/// Reads the status code of an HTTP status line such as `HTTP/1.1 200 OK`.
pub fn http_status_code(line: &str) -> (r: Result<u16, DmgrErr>)
    ensures
        r matches Ok(c) ==> status_code_spec(line@) == Some(c),
        r matches Err(e) ==> status_code_spec(line@) is None && e.kind == ErrorKind::InvalidHttpResponse,
{
    match second_word_of(line) {
        Some(w) => match parse_u16(w) {
            Some(c) => Ok(c),
            None => Err(DmgrErr::about(ErrorKind::InvalidHttpResponse, "invalid HTTP status code: ", w)),
        },
        None => Err(DmgrErr::new(ErrorKind::InvalidHttpResponse, "could not determine HTTP status code")),
    }
}

/// The request line of an HTTP check of `endpoint`.
pub fn http_request(endpoint: &str) -> (r: String)
    ensures
        r@ == "GET "@ + endpoint@ + " HTTP/1.1\r\n"@,
{
    let mut r = String::from_str("GET ");
    r.append(endpoint);
    r.append(" HTTP/1.1\r\n");
    r
}

/// Whether an HTTP status code reports success.
pub fn status_code_ok(code: u16) -> (r: bool)
    ensures
        r == (code < 400),
{
    code < 400
}

/// Whether an HTTP check answered with a code below 400.
pub fn http_ok(line: &Option<String>) -> (r: bool)
    ensures
        r == http_ok_spec(*line),
{
    match line {
        Some(l) => match http_status_code(l.as_str()) {
            Ok(c) => status_code_ok(c),
            Err(_) => false,
        },
        None => false,
    }
}

/// The first probe of a port.
pub fn probe_for(ps: &Vec<PortProbe>, port: u16) -> (r: Option<&PortProbe>)
    ensures
        r matches Some(p) ==> find_probe(ps@, port) == Some(*p),
        r is None ==> find_probe(ps@, port) is None,
{
    let mut i: usize = 0;
    assert(ps@.subrange(0, ps@.len() as int) == ps@);
    while i < ps.len()
        invariant
            i <= ps@.len(),
            find_probe(ps@, port) == find_probe(ps@.subrange(i as int, ps@.len() as int), port),
        decreases ps@.len() - i,
    {
        let ghost rest = ps@.subrange(i as int, ps@.len() as int);
        assert(rest.drop_first() == ps@.subrange(i + 1, ps@.len() as int));
        assert(rest[0] == ps@[i as int]);
        if ps[i].port == port {
            return Some(&ps[i]);
        }
        i = i + 1;
    }
    None
}

/// The signal of one port, from its probe.
pub fn port_status(has_check: bool, probe: Option<&PortProbe>) -> (r: Status)
    ensures
        r == port_status_spec(has_check, match probe { Some(p) => Some(*p), None => None }),
{
    match probe {
        None => Status::Stopped,
        Some(p) => if !p.open {
            Status::Stopped
        } else if !has_check || http_ok(&p.status_line) {
            Status::Running
        } else {
            Status::Waiting
        },
    }
}

/// The ports found open, in the order they are declared.
pub open spec fn open_ports_spec(ports: Seq<u16>, ps: Seq<PortProbe>) -> Seq<u16>
    decreases ports.len(),
{
    if ports.len() == 0 {
        Seq::empty()
    } else if port_open_spec(ps, ports.last()) {
        open_ports_spec(ports.drop_last(), ps).push(ports.last())
    } else {
        open_ports_spec(ports.drop_last(), ps)
    }
}

/// The probe of the first declared port found open: the one an HTTP check reaches.
pub open spec fn first_open_probe(ports: Seq<u16>, ps: Seq<PortProbe>) -> Option<PortProbe>
    decreases ports.len(),
{
    if ports.len() == 0 {
        None
    } else if port_open_spec(ps, ports[0]) {
        find_probe(ps, ports[0])
    } else {
        first_open_probe(ports.drop_first(), ps)
    }
}

/// Whether the HTTP check passes: there is none, or the first open port
/// answered it with a code below 400.
pub open spec fn http_check_passing_spec(svc: &Service, probe: &HealthProbe) -> bool {
    (svc.http_check is None) || match first_open_probe(svc.ports@, probe.ports@) {
        Some(p) => http_ok_spec(p.status_line),
        None => false,
    }
}

/// Ports are declared and one at least was found open.
pub open spec fn ports_open_spec(svc: &Service, probe: &HealthProbe) -> bool {
    svc.ports@.len() > 0 && open_ports_spec(svc.ports@, probe.ports@).len() > 0
}

/// Ports are declared and none was found open.
pub open spec fn ports_all_closed_spec(svc: &Service, probe: &HealthProbe) -> bool {
    svc.ports@.len() > 0 && open_ports_spec(svc.ports@, probe.ports@).len() == 0
}

/// An HTTP check is declared and does not pass.
pub open spec fn check_failing_spec(svc: &Service, probe: &HealthProbe) -> bool {
    svc.http_check is Some && !http_check_passing_spec(svc, probe)
}

/// The recorded process is live, or a declared port is open.
pub open spec fn running_spec(svc: &Service, probe: &HealthProbe) -> bool {
    probe.active_pid || ports_open_spec(svc, probe)
}

/// No recorded process is live, and a declared port is open.
pub open spec fn disowned_spec(svc: &Service, probe: &HealthProbe) -> bool {
    !probe.active_pid && ports_open_spec(svc, probe)
}

/// Running, with a failing HTTP check or all declared ports closed.
pub open spec fn waiting_spec(svc: &Service, probe: &HealthProbe) -> bool {
    running_spec(svc, probe) && (check_failing_spec(svc, probe) || ports_all_closed_spec(svc, probe))
}

/// Running and not waiting.
pub open spec fn ready_spec(svc: &Service, probe: &HealthProbe) -> bool {
    running_spec(svc, probe) && !waiting_spec(svc, probe)
}

/// `svc` is the descriptor read from the file at `path`, whose fields are
/// `content`: named by the file's stem (`UNKNOWN` when it has none), in the
/// repository two levels above the file, with defaults for absent fields.
pub open spec fn loaded_from(svc: Service, path: Seq<char>, content: ServiceConfigContent) -> bool {
    &&& svc.name@ == match file_stem_spec(path) {
        Some(s) => s,
        None => "UNKNOWN"@,
    }
    &&& grandparent_spec(path) == Some(svc.repo_path@)
    &&& svc.config_file@ == path
    &&& svc.start_process == content.start_process
    &&& svc.start_dev_mode == content.start_dev_mode
    &&& svc.start_container == content.start_container
    &&& svc.http_check == content.http_check
    &&& svc.image_name == content.image_name
    &&& svc.image_tag is None
    &&& svc.health_checks@ == match content.health_checks {
        Some(v) => v@,
        None => Seq::empty(),
    }
    &&& svc.aliases@ == match content.aliases {
        Some(v) => v@,
        None => Seq::empty(),
    }
    &&& svc.ports@ == match content.ports {
        Some(v) => v@,
        None => Seq::empty(),
    }
    &&& svc.requires_sudo == match content.requires_sudo {
        Some(b) => b,
        None => false,
    }
    &&& svc.register_by_default == match content.register_by_default {
        Some(b) => b,
        None => true,
    }
}

impl Service {
    /// A descriptor with every field empty or at its default.
    pub fn new() -> (r: Service)
        ensures
            r.name@.len() == 0,
            r.repo_path@.len() == 0,
            r.config_file@.len() == 0,
            r.start_process is None,
            r.start_dev_mode is None,
            r.start_container is None,
            r.http_check is None,
            r.health_checks@.len() == 0,
            r.image_name is None,
            r.image_tag is None,
            r.aliases@.len() == 0,
            r.ports@.len() == 0,
            !r.requires_sudo,
            r.register_by_default,
    {
        Service {
            name: String::new(),
            repo_path: String::new(),
            config_file: String::new(),
            start_process: None,
            start_dev_mode: None,
            start_container: None,
            http_check: None,
            health_checks: Vec::new(),
            image_name: None,
            image_tag: None,
            aliases: Vec::new(),
            ports: Vec::new(),
            requires_sudo: false,
            register_by_default: true,
        }
    }

    /// The descriptor read from the file at the canonical path `path`, whose
    /// fields are `content`. Its name is the file's stem (`UNKNOWN` when it has
    /// none) and its repository the directory two levels above the file.
    pub fn from_path(path: &str, content: ServiceConfigContent) -> (r: Result<Service, DmgrErr>)
        ensures
            r is Err <==> grandparent_spec(path@) is None,
            r matches Err(e) ==> e.kind == ErrorKind::ConfigNotFound,
            r matches Ok(svc) ==> loaded_from(svc, path@, content),
    {
        let repo_path = match repo_path_for(path) {
            Some(p) => p,
            None => {
                return Err(DmgrErr::about(ErrorKind::ConfigNotFound, "unable to find service config ", path));
            },
        };
        let name = match file_stem(path) {
            Some(s) => s,
            None => String::from_str("UNKNOWN"),
        };
        Ok(Service {
            name,
            repo_path,
            config_file: String::from_str(path),
            start_process: content.start_process,
            start_dev_mode: content.start_dev_mode,
            start_container: content.start_container,
            http_check: content.http_check,
            health_checks: match content.health_checks {
                Some(v) => v,
                None => Vec::new(),
            },
            image_name: content.image_name,
            image_tag: None,
            aliases: match content.aliases {
                Some(v) => v,
                None => Vec::new(),
            },
            ports: match content.ports {
                Some(v) => v,
                None => Vec::new(),
            },
            requires_sudo: match content.requires_sudo {
                Some(b) => b,
                None => false,
            },
            register_by_default: match content.register_by_default {
                Some(b) => b,
                None => true,
            },
        })
    }

    /// The descriptor of a service named on the command line, by the path of its file.
    pub fn from_name(s: &str, content: ServiceConfigContent) -> (r: Result<Service, DmgrErr>)
        ensures
            r is Err <==> grandparent_spec(s@) is None,
            r matches Err(e) ==> e.kind == ErrorKind::ConfigNotFound,
            r matches Ok(svc) ==> loaded_from(svc, s@, content),
    {
        Self::from_path(s, content)
    }

    /// The descriptor of a service named by an alias, by the path of its file.
    pub fn from_alias(s: &str, content: ServiceConfigContent) -> (r: Result<Service, DmgrErr>)
        ensures
            r is Err <==> grandparent_spec(s@) is None,
            r matches Err(e) ==> e.kind == ErrorKind::ConfigNotFound,
            r matches Ok(svc) ==> loaded_from(svc, s@, content),
    {
        Self::from_path(s, content)
    }

    /// Where the output of the service is appended, under the base directory `base`.
    pub fn log_file(&self, base: &str) -> (r: String)
        ensures
            r@ == log_path_spec(base@, self.name@),
    {
        log_path(base, self.name.as_str())
    }

    /// Where the run record of the service is kept, under the base directory `base`.
    pub fn run_file(&self, base: &str) -> (r: String)
        ensures
            r@ == run_path_spec(base@, self.name@),
    {
        run_path(base, self.name.as_str())
    }

    /// The status of the service, as `status_of` folds it from the probe, and
    /// whether a pairing that the table does not name was met on the way.
    pub fn health_report(&self, probe: &HealthProbe) -> (r: (Status, bool))
        ensures
            r.0 == status_of(self, probe),
            is_final(r.0),
            r.1 == falls_back(self, probe),
    {
        proof {
            lemma_status_is_final(self, probe);
        }
        if self.ports.len() == 0 {
            return if probe.active_pid {
                (Status::Running, false)
            } else {
                (Status::Stopped, false)
            };
        }
        let has_check = self.http_check.is_some();
        let ghost start = ownership(probe.active_pid);
        let mut acc = if probe.active_pid {
            Status::Owned
        } else {
            Status::Disowned
        };
        let mut fell_back = false;
        let mut i: usize = 0;
        while i < self.ports.len()
            invariant
                i <= self.ports@.len(),
                has_check == (self.http_check is Some),
                acc == fold_ports(start, self.ports@.subrange(0, i as int), has_check, probe.ports@),
                fell_back == fold_falls_back(start, self.ports@.subrange(0, i as int), has_check, probe.ports@),
            decreases self.ports@.len() - i,
        {
            assert(self.ports@.subrange(0, i + 1).drop_last() == self.ports@.subrange(0, i as int));
            let p = probe_for(&probe.ports, self.ports[i]);
            let s = port_status(has_check, p);
            fell_back = fell_back || !is_tabled(acc, s);
            acc = combine(acc, s);
            i = i + 1;
        }
        assert(self.ports@.subrange(0, self.ports@.len() as int) == self.ports@);
        (acc, fell_back)
    }

    /// The status of the service, as `status_of` folds it from the probe.
    pub fn health(&self, probe: &HealthProbe) -> (r: Status)
        ensures
            r == status_of(self, probe),
            is_final(r),
    {
        self.health_report(probe).0
    }

    /// The status as shown: `-`, `waiting`, `running`, `waiting*` or `running*`.
    pub fn status(&self, probe: &HealthProbe) -> (r: String)
        ensures
            r@ == label_spec(status_of(self, probe)),
    {
        self.health(probe).label()
    }

    /// A line of the service table: name, status and declared ports.
    pub fn row(self, probe: &HealthProbe) -> (r: Vec<String>)
        ensures
            r@.len() == 3,
            r@[0]@ == self.name@,
            r@[1]@ == label_spec(status_of(&self, probe)),
            r@[2]@ == list_text_spec(self.ports@),
    {
        let status = self.status(probe);
        let ports = list_text(&self.ports);
        vec![self.name, status, ports]
    }

    /// Whether the service may be running, owned or not: its recorded process
    /// is live, or one of its declared ports is open.
    pub fn is_running(&self, probe: &HealthProbe) -> (r: bool)
        ensures
            r == running_spec(self, probe),
    {
        probe.active_pid || self.has_ports_defined_and_open(probe)
    }

    /// Whether the service runs without a live recorded process: none is live
    /// and one of its declared ports is open.
    pub fn is_disowned(&self, probe: &HealthProbe) -> (r: bool)
        ensures
            r == disowned_spec(self, probe),
    {
        !probe.active_pid && self.has_ports_defined_and_open(probe)
    }

    /// Whether the service is running and not waiting.
    pub fn is_ready(&self, probe: &HealthProbe) -> (r: bool)
        ensures
            r == ready_spec(self, probe),
    {
        self.is_running(probe) && !self.is_waiting(probe)
    }

    /// Whether the service is running but its HTTP check fails or all its
    /// declared ports are closed.
    pub fn is_waiting(&self, probe: &HealthProbe) -> (r: bool)
        ensures
            r == waiting_spec(self, probe),
    {
        self.is_running(probe) && (self.has_http_check_defined_and_failing(probe)
            || self.has_ports_defined_and_all_closed(probe))
    }

    /// The declared ports that were found open, in declared order.
    pub fn open_ports(&self, probe: &HealthProbe) -> (r: Vec<u16>)
        ensures
            r@ == open_ports_spec(self.ports@, probe.ports@),
    {
        let mut r: Vec<u16> = Vec::new();
        let mut i: usize = 0;
        while i < self.ports.len()
            invariant
                i <= self.ports@.len(),
                r@ == open_ports_spec(self.ports@.subrange(0, i as int), probe.ports@),
            decreases self.ports@.len() - i,
        {
            assert(self.ports@.subrange(0, i + 1).drop_last() == self.ports@.subrange(0, i as int));
            let port = self.ports[i];
            match probe_for(&probe.ports, port) {
                Some(p) => if p.open {
                    r.push(port);
                },
                None => {},
            }
            i = i + 1;
        }
        assert(self.ports@.subrange(0, self.ports@.len() as int) == self.ports@);
        r
    }

    /// Whether the HTTP check passes: there is none, or the first declared port
    /// found open answered it with a code below 400.
    pub fn http_check_passing(&self, probe: &HealthProbe) -> (r: bool)
        ensures
            r == http_check_passing_spec(self, probe),
    {
        if self.http_check.is_none() {
            return true;
        }
        let mut i: usize = 0;
        assert(self.ports@.subrange(0, self.ports@.len() as int) == self.ports@);
        while i < self.ports.len()
            invariant
                i <= self.ports@.len(),
                self.http_check is Some,
                first_open_probe(self.ports@, probe.ports@) == first_open_probe(
                    self.ports@.subrange(i as int, self.ports@.len() as int),
                    probe.ports@,
                ),
            decreases self.ports@.len() - i,
        {
            let ghost rest = self.ports@.subrange(i as int, self.ports@.len() as int);
            assert(rest.drop_first() == self.ports@.subrange(i + 1, self.ports@.len() as int));
            assert(rest[0] == self.ports@[i as int]);
            match probe_for(&probe.ports, self.ports[i]) {
                Some(p) => if p.open {
                    assert(port_open_spec(probe.ports@, rest[0]));
                    assert(first_open_probe(rest, probe.ports@) == Some(*p));
                    return http_ok(&p.status_line);
                },
                None => {},
            }
            i = i + 1;
        }
        false
    }

    /// Whether an HTTP check is declared and does not pass.
    pub fn has_http_check_defined_and_failing(&self, probe: &HealthProbe) -> (r: bool)
        ensures
            r == (self.http_check is Some && !http_check_passing_spec(self, probe)),
    {
        self.http_check.is_some() && !self.http_check_passing(probe)
    }

    /// Whether ports are declared and none was found open.
    pub fn has_ports_defined_and_all_closed(&self, probe: &HealthProbe) -> (r: bool)
        ensures
            r == (self.ports@.len() > 0 && open_ports_spec(self.ports@, probe.ports@).len() == 0),
    {
        self.ports.len() > 0 && self.open_ports(probe).len() == 0
    }

    /// Whether ports are declared and one at least was found open.
    pub fn has_ports_defined_and_open(&self, probe: &HealthProbe) -> (r: bool)
        ensures
            r == (self.ports@.len() > 0 && open_ports_spec(self.ports@, probe.ports@).len() > 0),
    {
        self.ports.len() > 0 && self.open_ports(probe).len() > 0
    }
}

} // verus!
