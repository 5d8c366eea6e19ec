use bubblewarp::command::Output;
use bubblewarp::down;
use bubblewarp::effect::{Event, Helper, Layer, Next, Processes, Request, Rule, Step};
use bubblewarp::error::{Desync, Error, Shape};
use bubblewarp::namespace::{
    mount_point, status, MountEntry, Mounts, Probe, Process, Status, Type, TypeSet,
};
use bubblewarp::up;

const BASE: &str = "/data/bubblewarp";

/// A host in miniature: it holds what the workflows ask about, changes as
/// the steps say, and can be told to refuse one step.
#[derive(Debug, Clone, PartialEq)]
struct Host {
    self_bound: bool,
    resolves: bool,
    mounted: Vec<Type>,
    init: Option<u32>,
    child_shows_after: Option<u32>,
    looks: u32,
    helper_alive: bool,
    helper_tasks: usize,
    extra_children: Vec<u32>,
    init_survives: bool,
    overlay: bool,
    host_link: bool,
    container_link: bool,
    container_route: bool,
    rules: [u32; 3],
    vpn: bool,
    proxy: bool,
    worker: bool,
    route_listing: Vec<u8>,
    refused: Option<Step>,
    failing: Option<Step>,
    done: Vec<Step>,
}

fn fresh() -> Host {
    Host {
        self_bound: false,
        resolves: true,
        mounted: vec![],
        init: None,
        child_shows_after: Some(2),
        looks: 0,
        helper_alive: true,
        helper_tasks: 1,
        extra_children: vec![],
        init_survives: true,
        overlay: false,
        host_link: false,
        container_link: false,
        container_route: false,
        rules: [0, 0, 0],
        vpn: false,
        proxy: false,
        worker: false,
        route_listing: b"default via 192.168.1.1 dev eth0 proto dhcp metric 100 \n".to_vec(),
        refused: None,
        failing: None,
        done: vec![],
    }
}

fn index(rule: Rule) -> usize {
    match rule {
        Rule::Masquerade => 0,
        Rule::ForwardIn => 1,
        Rule::ForwardOut => 2,
    }
}

fn exit(code: i32, stdout: &[u8]) -> Event {
    Event::Output(Output { code: Some(code), stdout: stdout.to_vec(), stderr: vec![] })
}

fn running(pid: u32, argv0: &str, inside: bool) -> Process {
    Process {
        pid,
        cmdline: Some(vec![argv0.to_string()]),
        pid_ns: Some(if inside { 11 } else { 10 }),
        net_ns: Some(if inside { 21 } else { 20 }),
    }
}

impl Host {
    fn mounts(&self) -> Mounts {
        let probe = |k: Type| Probe {
            exists: self.mounted.contains(&k),
            canonical: Some(mount_point(BASE, k)),
        };
        let mut table = vec![];
        if self.self_bound {
            table.push(MountEntry {
                fs_type: "ext4".into(),
                source: Some("/dev/sda1".into()),
                root: Some(BASE.into()),
                target: Some(BASE.into()),
            });
        }
        for k in &self.mounted {
            table.push(MountEntry {
                fs_type: "nsfs".into(),
                source: Some("nsfs".into()),
                root: None,
                target: Some(mount_point(BASE, *k)),
            });
        }
        Mounts {
            base: Probe { exists: true, canonical: if self.resolves { Some(BASE.into()) } else { None } },
            user: probe(Type::User),
            pid: probe(Type::Pid),
            mount: probe(Type::Mount),
            net: probe(Type::Net),
            table,
        }
    }

    fn processes(&self) -> Processes {
        let mut list = vec![running(1, "/sbin/init", false)];
        if let Some(init) = self.init {
            list.push(running(init, "tini", true));
        }
        if self.vpn {
            list.push(running(600, "/usr/bin/warp-svc", true));
        }
        if self.proxy {
            list.push(running(700, "/usr/sbin/danted", true));
        }
        if self.worker {
            list.push(running(701, "danted: io-chil", true));
        }
        Processes { pid_ns_id: Some(11), list }
    }

    fn answer(&mut self, step: Step) -> Event {
        self.done.push(step);
        if self.refused == Some(step) {
            return Event::Failed(format!("refused {:?}", step));
        }
        if self.failing == Some(step) {
            return exit(1, b"it failed");
        }
        match step {
            Step::ReadMounts => Event::Mounts(self.mounts()),
            Step::ReadProcesses => Event::Processes(self.processes()),
            Step::ListInterfaces => {
                let mut names = vec!["lo".to_string(), "eth0".to_string()];
                if self.host_link {
                    names.push("veth-warp".to_string());
                }
                Event::Interfaces(names)
            }
            Step::InspectHelper(_) => {
                self.looks += 1;
                let mut children = self.extra_children.clone();
                if let Some(after) = self.child_shows_after {
                    if self.looks > after {
                        children.push(self.init.unwrap());
                    }
                }
                Event::Helper(Helper { alive: self.helper_alive, tasks: self.helper_tasks, children })
            }
            Step::CheckAlive(pid) => Event::Alive(self.init_survives && self.init == Some(pid)),
            Step::CollectHelper(_) => exit(1, b"unshare: failed"),
            Step::ListMountsInside(_) => exit(
                0,
                if self.overlay {
                    b"proc on /proc type proc (rw)\noverlay on /etc type overlay (rw,relatime)\n"
                } else {
                    b"proc on /proc type proc (rw)\n"
                },
            ),
            Step::QueryContainerRoute => exit(
                0,
                if self.container_route { b"default via 10.200.0.1 dev veth-warp-ns \n" } else { b"" },
            ),
            Step::QueryHostRoute => exit(0, &self.route_listing.clone()),
            Step::BindBase => {
                self.self_bound = true;
                Event::Done
            }
            Step::UnmountBase => {
                self.self_bound = false;
                Event::Done
            }
            Step::StartHelper => {
                self.mounted = Type::all();
                self.init = Some(4712);
                Event::Spawned(4711)
            }
            Step::UnmountNamespace(k) => {
                self.mounted.retain(|m| *m != k);
                Event::Done
            }
            Step::MountOverlay(_) => {
                self.overlay = true;
                exit(0, b"")
            }
            Step::UnmountEtcInside => {
                self.overlay = false;
                exit(0, b"")
            }
            Step::CreateLinkPair => {
                self.host_link = true;
                self.container_link = true;
                exit(0, b"")
            }
            Step::DeleteContainerLink => {
                self.container_link = false;
                exit(0, b"")
            }
            Step::DeleteHostLink => {
                self.host_link = false;
                self.container_link = false;
                exit(0, b"")
            }
            Step::AddRule(rule) => {
                self.rules[index(rule)] += 1;
                exit(0, b"")
            }
            Step::DeleteRule(rule) => {
                if self.rules[index(rule)] > 0 {
                    self.rules[index(rule)] -= 1;
                    exit(0, b"")
                } else {
                    exit(1, b"")
                }
            }
            Step::AddDefaultRoute => {
                self.container_route = true;
                exit(0, b"")
            }
            Step::StartVpn(_) => {
                self.vpn = true;
                Event::Spawned(600)
            }
            Step::StartProxy(_) => {
                self.proxy = true;
                self.worker = true;
                Event::Spawned(700)
            }
            Step::Terminate(pid) => {
                match pid {
                    600 => self.vpn = false,
                    700 => self.proxy = false,
                    701 => self.worker = false,
                    _ => {}
                }
                Event::Done
            }
            Step::UnmountProcInside
            | Step::AssignHostAddress
            | Step::RaiseHostLink
            | Step::AssignContainerAddress
            | Step::RaiseContainerLink => exit(0, b""),
            Step::CreateBaseDir
            | Step::MakeBasePrivate
            | Step::CreateMountPoint(_)
            | Step::CreateLayer(_)
            | Step::WriteResolvConf
            | Step::WriteProxyConf
            | Step::Sleep(_) => Event::Done,
        }
    }

    fn state(&self) -> Host {
        Host { looks: 0, done: vec![], ..self.clone() }
    }
}

fn bring_up(host: &mut Host) -> Result<(), Error> {
    host.done.clear();
    let (mut state, mut next) = up::start(BASE.to_string());
    for _ in 0..1000 {
        match next {
            Next::Done(result) => return result,
            Next::Do(step) => {
                assert_eq!(state.pending, step);
                let event = host.answer(step);
                (state, next) = up::up(state, event);
            }
        }
    }
    panic!("bring-up does not end");
}

fn tear_down(host: &mut Host) -> Result<(), Error> {
    host.done.clear();
    let (mut state, mut next) = down::start(BASE.to_string());
    for _ in 0..1000 {
        match next {
            Next::Done(result) => return result,
            Next::Do(step) => {
                assert_eq!(state.pending, step);
                let event = host.answer(step);
                (state, next) = down::down(state, event);
            }
        }
    }
    panic!("tear-down does not end");
}

fn is_up(host: &Host) -> bool {
    host.self_bound
        && host.mounted == Type::all()
        && host.init.is_some()
        && host.overlay
        && host.host_link
        && host.container_route
        && host.vpn
        && host.proxy
}

fn is_down(host: &Host) -> bool {
    !host.self_bound
        && host.mounted.is_empty()
        && !host.host_link
        && !host.container_link
        && host.rules == [0, 0, 0]
}

#[test]
fn bring_up_of_a_fresh_host_does_every_step_in_order() {
    let mut host = fresh();
    assert!(bring_up(&mut host).is_ok());
    assert!(is_up(&host));
    assert_eq!(host.rules, [1, 1, 1]);
    assert_eq!(
        host.done,
        vec![
            Step::CreateBaseDir,
            Step::ReadMounts,
            Step::BindBase,
            Step::MakeBasePrivate,
            Step::ReadMounts,
            Step::CreateMountPoint(Type::User),
            Step::CreateMountPoint(Type::Pid),
            Step::CreateMountPoint(Type::Mount),
            Step::CreateMountPoint(Type::Net),
            Step::StartHelper,
            Step::Sleep(25),
            Step::InspectHelper(4711),
            Step::Sleep(25),
            Step::InspectHelper(4711),
            Step::Sleep(25),
            Step::InspectHelper(4711),
            Step::CheckAlive(4712),
            Step::ListMountsInside(4712),
            Step::CreateLayer(Layer::ExtraLower),
            Step::CreateLayer(Layer::Upper),
            Step::CreateLayer(Layer::Work),
            Step::WriteResolvConf,
            Step::WriteProxyConf,
            Step::MountOverlay(4712),
            Step::ListInterfaces,
            Step::CreateLinkPair,
            Step::AssignHostAddress,
            Step::RaiseHostLink,
            Step::AssignContainerAddress,
            Step::RaiseContainerLink,
            Step::QueryContainerRoute,
            Step::QueryHostRoute,
            Step::AddRule(Rule::Masquerade),
            Step::AddRule(Rule::ForwardIn),
            Step::AddRule(Rule::ForwardOut),
            Step::AddDefaultRoute,
            Step::ReadProcesses,
            Step::StartVpn(4712),
            Step::Sleep(1000),
            Step::ReadProcesses,
            Step::StartProxy(4712),
        ]
    );
}

#[test]
fn bring_up_twice_changes_nothing_the_second_time() {
    let mut host = fresh();
    assert!(bring_up(&mut host).is_ok());
    let between = host.state();
    assert!(bring_up(&mut host).is_ok());
    assert_eq!(host.state(), between);
    assert_eq!(
        host.done,
        vec![
            Step::CreateBaseDir,
            Step::ReadMounts,
            Step::ReadMounts,
            Step::ReadProcesses,
            Step::ListMountsInside(4712),
            Step::ListInterfaces,
            Step::QueryContainerRoute,
            Step::ReadProcesses,
            Step::Sleep(1000),
            Step::ReadProcesses,
        ]
    );
}

#[test]
fn bring_up_then_tear_down_leaves_nothing() {
    let mut host = fresh();
    assert!(bring_up(&mut host).is_ok());
    assert!(tear_down(&mut host).is_ok());
    assert!(is_down(&host));
    assert!(!host.vpn && !host.proxy && !host.worker && !host.overlay);
    assert_eq!(status(BASE, &host.mounts()), Status::Unmounted);
    assert_eq!(
        host.done,
        vec![
            Step::ReadProcesses,
            Step::Terminate(600),
            Step::Terminate(700),
            Step::Terminate(701),
            Step::ReadMounts,
            Step::UnmountProcInside,
            Step::UnmountEtcInside,
            Step::DeleteContainerLink,
            Step::QueryHostRoute,
            Step::DeleteRule(Rule::Masquerade),
            Step::DeleteRule(Rule::Masquerade),
            Step::DeleteRule(Rule::ForwardIn),
            Step::DeleteRule(Rule::ForwardIn),
            Step::DeleteRule(Rule::ForwardOut),
            Step::DeleteRule(Rule::ForwardOut),
            Step::ListInterfaces,
            Step::DeleteHostLink,
            Step::ReadMounts,
            Step::UnmountNamespace(Type::User),
            Step::UnmountNamespace(Type::Pid),
            Step::UnmountNamespace(Type::Mount),
            Step::UnmountNamespace(Type::Net),
            Step::UnmountBase,
        ]
    );
}

#[test]
fn tear_down_of_nothing_unmounts_no_namespace() {
    let mut host = fresh();
    assert!(tear_down(&mut host).is_ok());
    assert_eq!(
        host.done,
        vec![
            Step::ReadProcesses,
            Step::ReadMounts,
            Step::ListInterfaces,
            Step::ReadMounts,
            Step::UnmountBase,
        ]
    );
    assert!(host.done.iter().all(|s| !matches!(s, Step::UnmountNamespace(_))));
}

#[test]
fn tear_down_deletes_every_instance_of_a_rule() {
    let mut host = fresh();
    assert!(bring_up(&mut host).is_ok());
    host.rules = [2, 1, 3];
    assert!(tear_down(&mut host).is_ok());
    assert_eq!(host.rules, [0, 0, 0]);
    let deletions = |rule: Rule| host.done.iter().filter(|s| **s == Step::DeleteRule(rule)).count();
    assert_eq!(deletions(Rule::Masquerade), 3);
    assert_eq!(deletions(Rule::ForwardIn), 2);
    assert_eq!(deletions(Rule::ForwardOut), 4);
}

#[test]
fn bring_up_refuses_a_partial_set() {
    let mut host = fresh();
    host.mounted = vec![Type::User, Type::Mount];
    let expected = TypeSet::empty().insert(Type::User).insert(Type::Mount);
    match bring_up(&mut host) {
        Err(Error::Desync(Desync::Partial(set))) => assert_eq!(set, expected),
        other => panic!("unexpected {:?}", other),
    }
    assert_eq!(host.mounted, vec![Type::User, Type::Mount]);
    assert!(!host.done.contains(&Step::StartHelper));
}

#[test]
fn bring_up_refuses_mounted_namespaces_without_init() {
    let mut host = fresh();
    host.mounted = Type::all();
    assert!(matches!(bring_up(&mut host), Err(Error::Desync(Desync::InitMissing))));
    assert_eq!(*host.done.last().unwrap(), Step::ReadProcesses);
}

#[test]
fn bring_up_finds_the_init_of_mounted_namespaces() {
    let mut host = fresh();
    host.mounted = Type::all();
    host.init = Some(900);
    assert!(bring_up(&mut host).is_ok());
    assert!(host.done.contains(&Step::MountOverlay(900)));
    assert!(host.done.contains(&Step::StartVpn(900)));
    assert!(!host.done.contains(&Step::StartHelper));
}

#[test]
fn namespace_creation_times_out_after_a_second() {
    let mut host = fresh();
    host.child_shows_after = None;
    assert!(matches!(bring_up(&mut host), Err(Error::Timeout)));
    let looks = host.done.iter().filter(|s| matches!(s, Step::InspectHelper(_))).count();
    let naps = host.done.iter().filter(|s| **s == Step::Sleep(25)).count();
    assert_eq!(looks, 41);
    assert_eq!(naps, 41);
    assert_eq!(*host.done.last().unwrap(), Step::InspectHelper(4711));
    assert!(host.done.iter().all(|s| !matches!(s, Step::CheckAlive(_) | Step::ListMountsInside(_))));
}

#[test]
fn namespace_creation_finds_a_child_at_the_last_look() {
    let mut host = fresh();
    host.child_shows_after = Some(40);
    assert!(bring_up(&mut host).is_ok());
    let looks = host.done.iter().filter(|s| matches!(s, Step::InspectHelper(_))).count();
    assert_eq!(looks, 41);
}

#[test]
fn a_dead_helper_is_collected_and_reported() {
    let mut host = fresh();
    host.helper_alive = false;
    match bring_up(&mut host) {
        Err(Error::ExecutionFailed { program, output }) => {
            assert_eq!(program, "unshare");
            assert_eq!(output.code, Some(1));
            assert_eq!(output.stdout, b"unshare: failed");
        }
        other => panic!("unexpected {:?}", other),
    }
    assert_eq!(*host.done.last().unwrap(), Step::CollectHelper(4711));
}

#[test]
fn a_helper_with_two_tasks_is_an_oddity() {
    let mut host = fresh();
    host.helper_tasks = 2;
    assert!(matches!(bring_up(&mut host), Err(Error::Parse(Shape::Tasks(2)))));
    let mut host = fresh();
    host.helper_tasks = 0;
    assert!(matches!(bring_up(&mut host), Err(Error::Parse(Shape::Tasks(0)))));
}

#[test]
fn a_helper_with_two_children_is_an_oddity() {
    let mut host = fresh();
    host.extra_children = vec![5000, 5001];
    assert!(matches!(bring_up(&mut host), Err(Error::Parse(Shape::Children(2)))));
    let mut host = fresh();
    host.extra_children = vec![5000];
    host.child_shows_after = Some(0);
    assert!(matches!(bring_up(&mut host), Err(Error::Parse(Shape::Children(2)))));
}

#[test]
fn an_init_process_that_died_is_reported() {
    let mut host = fresh();
    host.init_survives = false;
    assert!(matches!(bring_up(&mut host), Err(Error::Desync(Desync::InitDied))));
    assert_eq!(*host.done.last().unwrap(), Step::CheckAlive(4712));
}

#[test]
fn a_bind_mount_that_cannot_be_made_private_is_taken_back() {
    let mut host = fresh();
    host.refused = Some(Step::MakeBasePrivate);
    match bring_up(&mut host) {
        Err(Error::Io(reason)) => assert_eq!(reason, "refused MakeBasePrivate"),
        other => panic!("unexpected {:?}", other),
    }
    assert_eq!(
        host.done,
        vec![
            Step::CreateBaseDir,
            Step::ReadMounts,
            Step::BindBase,
            Step::MakeBasePrivate,
            Step::UnmountBase,
        ]
    );
    assert!(!host.self_bound);
}

#[test]
fn a_base_directory_that_does_not_resolve_stops_bring_up() {
    let mut host = fresh();
    host.resolves = false;
    match bring_up(&mut host) {
        Err(Error::Io(reason)) => assert_eq!(reason, "the base directory does not resolve"),
        other => panic!("unexpected {:?}", other),
    }
    assert_eq!(host.done, vec![Step::CreateBaseDir, Step::ReadMounts]);
}

#[test]
fn a_refused_step_stops_bring_up() {
    for step in [
        Step::CreateBaseDir,
        Step::ReadMounts,
        Step::BindBase,
        Step::CreateMountPoint(Type::Mount),
        Step::StartHelper,
        Step::Sleep(25),
        Step::InspectHelper(4711),
        Step::CheckAlive(4712),
        Step::ListMountsInside(4712),
        Step::CreateLayer(Layer::Upper),
        Step::WriteProxyConf,
        Step::MountOverlay(4712),
        Step::ListInterfaces,
        Step::RaiseHostLink,
        Step::QueryContainerRoute,
        Step::QueryHostRoute,
        Step::AddRule(Rule::ForwardIn),
        Step::AddDefaultRoute,
        Step::ReadProcesses,
        Step::StartVpn(4712),
        Step::Sleep(1000),
        Step::StartProxy(4712),
    ] {
        let mut host = fresh();
        host.refused = Some(step);
        match bring_up(&mut host) {
            Err(Error::Io(reason)) => assert_eq!(reason, format!("refused {:?}", step)),
            other => panic!("unexpected {:?} for {:?}", other, step),
        }
        assert_eq!(*host.done.last().unwrap(), step);
    }
}

#[test]
fn a_failed_command_stops_bring_up() {
    for (step, name) in [
        (Step::MountOverlay(4712), "mount"),
        (Step::CreateLinkPair, "ip"),
        (Step::AssignContainerAddress, "ip"),
        (Step::QueryContainerRoute, "ip"),
        (Step::QueryHostRoute, "ip"),
        (Step::AddRule(Rule::Masquerade), "/usr/sbin/iptables"),
        (Step::AddDefaultRoute, "ip"),
    ] {
        let mut host = fresh();
        host.failing = Some(step);
        match bring_up(&mut host) {
            Err(Error::ExecutionFailed { program, output }) => {
                assert_eq!(program, name);
                assert_eq!(output.code, Some(1));
                assert_eq!(output.stdout, b"it failed");
            }
            other => panic!("unexpected {:?} for {:?}", other, step),
        }
        assert_eq!(*host.done.last().unwrap(), step);
    }
}

#[test]
fn a_host_without_default_route_stops_bring_up() {
    let mut host = fresh();
    host.route_listing = b"".to_vec();
    assert!(matches!(bring_up(&mut host), Err(Error::Parse(Shape::NoDefault))));
    let mut host = fresh();
    host.route_listing = b"default via 10.0.0.1".to_vec();
    assert!(matches!(bring_up(&mut host), Err(Error::Parse(Shape::NoDevice))));
    let mut host = fresh();
    host.route_listing = vec![0xc0];
    assert!(matches!(bring_up(&mut host), Err(Error::Parse(Shape::NotUtf8))));
}

#[test]
fn a_service_that_runs_on_the_host_is_not_started_again() {
    let (state, next) = up::start(BASE.to_string());
    assert!(matches!(next, Next::Do(Step::CreateBaseDir)));
    let state = up::Up { phase: up::Phase::VpnScan { init: 5 }, pending: Step::ReadProcesses, ..state };
    let list = vec![running(1, "/sbin/init", false), running(300, "/usr/bin/warp-svc", false)];
    let (state, next) = up::up(state, Event::Processes(Processes { pid_ns_id: None, list }));
    assert!(matches!(next, Next::Do(Step::Sleep(1000))));
    assert_eq!(state.phase, up::Phase::Settle { init: 5 });
}

#[test]
fn the_interface_is_kept_for_the_firewall_rules() {
    let (state, _) = up::start(BASE.to_string());
    let state = up::Up { phase: up::Phase::HostRoute { init: 5 }, pending: Step::QueryHostRoute, ..state };
    let (state, next) = up::up(state, exit(0, b"default via 10.0.0.1 dev enp3s0 proto static"));
    assert!(matches!(next, Next::Do(Step::AddRule(Rule::Masquerade))));
    assert_eq!(state.iface, "enp3s0");
    assert_eq!(state.script, vec![Step::AddRule(Rule::ForwardIn), Step::AddRule(Rule::ForwardOut), Step::AddDefaultRoute]);
    match state.request(Step::AddRule(Rule::ForwardIn)) {
        Request::Run { cmd, .. } => assert_eq!(cmd.args, vec!["-A", "FORWARD", "-i", "enp3s0", "-o", "veth-warp", "-j", "ACCEPT"]),
        other => panic!("unexpected {:?}", other),
    }
}

#[test]
fn an_answer_of_the_wrong_kind_is_a_mismatch() {
    let (state, _) = up::start(BASE.to_string());
    let (state, next) = up::up(state, Event::Alive(true));
    assert!(matches!(next, Next::Done(Err(Error::Parse(Shape::Mismatch)))));
    assert_eq!(state.phase, up::Phase::Finished);
    let (_, next) = up::up(state, Event::Done);
    assert!(matches!(next, Next::Done(Err(Error::Parse(Shape::Mismatch)))));
    let (state, _) = up::start(BASE.to_string());
    let (_, next) = up::up(state, exit(0, b""));
    assert!(matches!(next, Next::Done(Err(Error::Parse(Shape::Mismatch)))));
    let (state, _) = down::start(BASE.to_string());
    let state = down::Down { phase: down::Phase::MountProbe, pending: Step::ReadMounts, ..state };
    let (_, next) = down::down(state, Event::Done);
    assert!(matches!(next, Next::Done(Err(Error::Parse(Shape::Mismatch)))));
}

#[test]
fn tear_down_goes_on_after_cleaning_steps_fail() {
    for step in [
        Step::ReadProcesses,
        Step::Terminate(600),
        Step::Terminate(701),
        Step::UnmountProcInside,
        Step::UnmountEtcInside,
        Step::DeleteContainerLink,
        Step::QueryHostRoute,
        Step::UnmountNamespace(Type::Pid),
        Step::UnmountBase,
    ] {
        let mut host = fresh();
        assert!(bring_up(&mut host).is_ok());
        host.refused = Some(step);
        assert!(tear_down(&mut host).is_ok(), "{:?}", step);
        assert_eq!(*host.done.last().unwrap(), Step::UnmountBase);
        assert!(host.done.contains(&Step::DeleteHostLink));
        assert!(host.done.contains(&Step::UnmountNamespace(Type::Net)));
    }
}

#[test]
fn tear_down_skips_the_rules_without_a_default_interface() {
    let mut host = fresh();
    assert!(bring_up(&mut host).is_ok());
    host.route_listing = b"".to_vec();
    assert!(tear_down(&mut host).is_ok());
    assert_eq!(host.rules, [1, 1, 1]);
    assert!(host.done.iter().all(|s| !matches!(s, Step::DeleteRule(_))));
    assert!(host.mounted.is_empty());
    assert!(!host.host_link);
}

#[test]
fn tear_down_stops_when_the_host_link_cannot_be_deleted() {
    let mut host = fresh();
    assert!(bring_up(&mut host).is_ok());
    host.failing = Some(Step::DeleteHostLink);
    match tear_down(&mut host) {
        Err(Error::ExecutionFailed { program, output }) => {
            assert_eq!(program, "ip");
            assert_eq!(output.code, Some(1));
            assert_eq!(output.stdout, b"it failed");
        }
        other => panic!("unexpected {:?}", other),
    }
    assert_eq!(*host.done.last().unwrap(), Step::DeleteHostLink);
    assert_eq!(host.mounted, Type::all());
    let mut host = fresh();
    assert!(bring_up(&mut host).is_ok());
    host.refused = Some(Step::DeleteHostLink);
    assert!(matches!(tear_down(&mut host), Err(Error::Io(_))));
}

#[test]
fn tear_down_stops_when_the_host_cannot_be_read() {
    let mut host = fresh();
    assert!(bring_up(&mut host).is_ok());
    host.refused = Some(Step::ReadMounts);
    assert!(matches!(tear_down(&mut host), Err(Error::Io(_))));
    assert_eq!(*host.done.last().unwrap(), Step::ReadMounts);
    let mut host = fresh();
    assert!(bring_up(&mut host).is_ok());
    host.refused = Some(Step::ListInterfaces);
    assert!(matches!(tear_down(&mut host), Err(Error::Io(_))));
    assert_eq!(*host.done.last().unwrap(), Step::ListInterfaces);
}

#[test]
fn tear_down_cleans_only_what_is_mounted() {
    let mut host = fresh();
    host.mounted = vec![Type::Mount];
    host.host_link = true;
    assert!(tear_down(&mut host).is_ok());
    assert_eq!(
        host.done,
        vec![
            Step::ReadProcesses,
            Step::ReadMounts,
            Step::UnmountProcInside,
            Step::UnmountEtcInside,
            Step::ListInterfaces,
            Step::DeleteHostLink,
            Step::ReadMounts,
            Step::UnmountNamespace(Type::Mount),
            Step::UnmountBase,
        ]
    );
    let mut host = fresh();
    host.mounted = vec![Type::Net];
    assert!(tear_down(&mut host).is_ok());
    assert_eq!(
        host.done,
        vec![
            Step::ReadProcesses,
            Step::ReadMounts,
            Step::DeleteContainerLink,
            Step::QueryHostRoute,
            Step::DeleteRule(Rule::Masquerade),
            Step::DeleteRule(Rule::ForwardIn),
            Step::DeleteRule(Rule::ForwardOut),
            Step::ListInterfaces,
            Step::ReadMounts,
            Step::UnmountNamespace(Type::Net),
            Step::UnmountBase,
        ]
    );
}

#[test]
fn rules_are_deleted_until_a_deletion_fails() {
    let (state, _) = down::start(BASE.to_string());
    let state = down::Down { phase: down::Phase::HostRoute, pending: Step::QueryHostRoute, ..state };
    let (state, next) = down::cleanup_external_networking(state, exit(0, b"default via 10.0.0.1 dev eth1"));
    assert!(matches!(next, Next::Do(Step::DeleteRule(Rule::Masquerade))));
    assert_eq!(state.iface, "eth1");
    let (state, next) = down::cleanup_external_networking(state, exit(0, b""));
    assert!(matches!(next, Next::Do(Step::DeleteRule(Rule::Masquerade))));
    let (state, next) = down::cleanup_external_networking(state, exit(1, b""));
    assert!(matches!(next, Next::Do(Step::DeleteRule(Rule::ForwardIn))));
    let (state, next) = down::cleanup_external_networking(state, Event::Failed("no iptables".into()));
    assert!(matches!(next, Next::Do(Step::DeleteRule(Rule::ForwardOut))));
    let (state, next) = down::cleanup_external_networking(state, Event::Done);
    assert!(matches!(next, Next::Do(Step::ListInterfaces)));
    assert_eq!(state.phase, down::Phase::Interfaces);
    match state.request(Step::DeleteRule(Rule::ForwardOut)) {
        Request::Run { cmd, .. } => assert_eq!(cmd.args, vec!["-D", "FORWARD", "-o", "eth1", "-i", "veth-warp", "-j", "ACCEPT"]),
        other => panic!("unexpected {:?}", other),
    }
}

#[test]
fn services_on_the_host_are_not_ended() {
    let list = vec![
        running(1, "/sbin/init", false),
        running(300, "warp-svc", false),
        running(301, "danted", false),
        running(302, "danted: io-chil", false),
    ];
    assert_eq!(down::kill_processes(&list), vec![]);
    assert_eq!(down::kill_process("warp-svc", &list), None);
    let list = vec![
        running(1, "/sbin/init", false),
        running(300, "warp-svc", false),
        running(600, "warp-svc", true),
        running(701, "danted: io-chil", true),
    ];
    assert_eq!(down::kill_processes(&list), vec![Step::Terminate(600), Step::Terminate(701)]);
    assert_eq!(down::kill_process("warp-svc", &list), Some(Step::Terminate(600)));
}

#[test]
fn namespaces_are_unmounted_in_creation_order() {
    let set = TypeSet { user: true, pid: false, mount: true, net: true };
    assert_eq!(
        down::unmount_namespaces(set),
        vec![
            Step::UnmountNamespace(Type::User),
            Step::UnmountNamespace(Type::Mount),
            Step::UnmountNamespace(Type::Net),
        ]
    );
    assert_eq!(down::unmount_namespaces(TypeSet::empty()), vec![]);
    assert_eq!(down::clean_mount_namespace(), vec![Step::UnmountProcInside, Step::UnmountEtcInside]);
    assert_eq!(down::next_rule(Rule::ForwardIn), Some(Rule::ForwardOut));
    assert_eq!(down::next_rule(Rule::Masquerade), Some(Rule::ForwardIn));
    assert_eq!(down::next_rule(Rule::ForwardOut), None);
    assert_eq!(down::cleanup_private_networking(&vec!["veth-warp".to_string()]), Some(Step::DeleteHostLink));
    assert_eq!(down::cleanup_private_networking(&vec!["eth0".to_string()]), None);
}
