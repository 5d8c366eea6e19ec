use bubblewarp::command::{Cmd, Output};
use bubblewarp::effect::{Event, Helper, Layer, Next, Processes, Step};
use bubblewarp::up;
use bubblewarp::error::{judge, Desync, Error, Shape};
use bubblewarp::namespace::{MountEntry, Mounts, Probe, Process, Type, TypeSet};
use bubblewarp::privilege::{ensure_root, Privilege};
use bubblewarp::up::{
    base_dir_has_private_self_bind_mount, create_etc_overlay_inside, create_mount_points,
    find_pid_ns_init_process, is_running, poll, private_self_bind_mount_base_dir, refuse,
    settle, spawn_process_inside, Poll,
};

fn helper(alive: bool, tasks: usize, children: &[u32]) -> Helper {
    Helper { alive, tasks, children: children.to_vec() }
}

#[test]
fn poll_decides_in_order() {
    assert_eq!(poll(&helper(false, 1, &[7]), 0), Poll::Exited);
    assert_eq!(poll(&helper(false, 3, &[7, 8]), 5000), Poll::Exited);
    assert_eq!(poll(&helper(true, 0, &[7]), 0), Poll::Odd(Shape::Tasks(0)));
    assert_eq!(poll(&helper(true, 2, &[]), 0), Poll::Odd(Shape::Tasks(2)));
    assert_eq!(poll(&helper(true, 1, &[7, 8, 9]), 0), Poll::Odd(Shape::Children(3)));
    assert_eq!(poll(&helper(true, 1, &[7]), 0), Poll::Found(7));
    assert_eq!(poll(&helper(true, 1, &[7]), 1000), Poll::Found(7));
    assert_eq!(poll(&helper(true, 1, &[]), 0), Poll::Wait);
    assert_eq!(poll(&helper(true, 1, &[]), 975), Poll::Wait);
    assert_eq!(poll(&helper(true, 1, &[]), 999), Poll::Wait);
    assert_eq!(poll(&helper(true, 1, &[]), 1000), Poll::TimedOut);
    assert_eq!(poll(&helper(true, 1, &[]), u64::MAX), Poll::TimedOut);
}

fn entry(root: Option<&str>, target: Option<&str>) -> MountEntry {
    MountEntry {
        fs_type: "ext4".into(),
        source: Some("/dev/sda1".into()),
        root: root.map(|s| s.to_string()),
        target: target.map(|s| s.to_string()),
    }
}

fn mounts(base: Option<&str>, table: Vec<MountEntry>) -> Mounts {
    let none = || Probe { exists: false, canonical: None };
    Mounts {
        base: Probe { exists: true, canonical: base.map(|s| s.to_string()) },
        user: none(),
        pid: none(),
        mount: none(),
        net: none(),
        table,
    }
}

#[test]
fn self_bind_needs_root_and_target_at_the_base_directory() {
    let base = "/data/bubblewarp";
    let bound = mounts(Some(base), vec![entry(Some("/"), Some("/")), entry(Some(base), Some(base))]);
    assert!(base_dir_has_private_self_bind_mount(&bound).unwrap());
    let only_target = mounts(Some(base), vec![entry(Some("/"), Some(base))]);
    assert!(!base_dir_has_private_self_bind_mount(&only_target).unwrap());
    let only_root = mounts(Some(base), vec![entry(Some(base), Some("/mnt"))]);
    assert!(!base_dir_has_private_self_bind_mount(&only_root).unwrap());
    let unresolved = mounts(Some(base), vec![entry(None, Some(base)), entry(Some(base), None)]);
    assert!(!base_dir_has_private_self_bind_mount(&unresolved).unwrap());
    assert!(!base_dir_has_private_self_bind_mount(&mounts(Some(base), vec![])).unwrap());
}

#[test]
fn self_bind_needs_a_base_directory_that_resolves() {
    let base = "/data/bubblewarp";
    let lost = mounts(None, vec![entry(Some(base), Some(base))]);
    assert!(matches!(base_dir_has_private_self_bind_mount(&lost), Err(Error::Io(_))));
}

#[test]
fn the_base_directory_is_bound_then_made_private() {
    let (state, _) = up::start("/data/bubblewarp".to_string());
    let state = up::Up { phase: up::Phase::Binding, pending: Step::BindBase, ..state };
    let (state, next) = private_self_bind_mount_base_dir(state, Event::Done);
    assert!(matches!(next, Next::Do(Step::MakeBasePrivate)));
    assert_eq!(state.phase, up::Phase::Privatizing);
    let (state, next) = private_self_bind_mount_base_dir(state, Event::Done);
    assert!(matches!(next, Next::Do(Step::ReadMounts)));
    assert_eq!(state.phase, up::Phase::StatusProbe);
}

#[test]
fn a_failed_bind_mount_is_not_taken_back() {
    let (state, _) = up::start("/data/bubblewarp".to_string());
    let state = up::Up { phase: up::Phase::Binding, pending: Step::BindBase, ..state };
    let (_, next) = private_self_bind_mount_base_dir(state, Event::Failed("busy".into()));
    match next {
        Next::Done(Err(Error::Io(reason))) => assert_eq!(reason, "busy"),
        other => panic!("unexpected {:?}", other),
    }
}

#[test]
fn the_rollback_ends_with_the_first_failure() {
    let (state, _) = up::start("/data/bubblewarp".to_string());
    let state = up::Up { phase: up::Phase::Privatizing, pending: Step::MakeBasePrivate, ..state };
    let (state, next) = private_self_bind_mount_base_dir(state, Event::Failed("not allowed".into()));
    assert!(matches!(next, Next::Do(Step::UnmountBase)));
    assert_eq!(state.phase, up::Phase::RollingBack);
    assert_eq!(state.reason, "not allowed");
    let (state, next) = private_self_bind_mount_base_dir(state, Event::Failed("not mounted".into()));
    match next {
        Next::Done(Err(Error::Io(reason))) => assert_eq!(reason, "not allowed"),
        other => panic!("unexpected {:?}", other),
    }
    assert_eq!(state.phase, up::Phase::Finished);
}

#[test]
fn mount_points_are_created_in_order() {
    assert_eq!(
        create_mount_points(),
        vec![
            Step::CreateMountPoint(Type::User),
            Step::CreateMountPoint(Type::Pid),
            Step::CreateMountPoint(Type::Mount),
            Step::CreateMountPoint(Type::Net),
        ]
    );
}

#[test]
fn overlay_is_made_unless_the_listing_shows_it() {
    let shown = b"tmpfs on /run type tmpfs (rw)\noverlay on /etc type overlay (rw,lowerdir=x)\n".to_vec();
    assert_eq!(create_etc_overlay_inside(&shown, 5), vec![]);
    let other = b"overlay on /var type overlay (rw)\n".to_vec();
    assert_eq!(
        create_etc_overlay_inside(&other, 5),
        vec![
            Step::CreateLayer(Layer::ExtraLower),
            Step::CreateLayer(Layer::Upper),
            Step::CreateLayer(Layer::Work),
            Step::WriteResolvConf,
            Step::WriteProxyConf,
            Step::MountOverlay(5),
        ]
    );
    assert_eq!(create_etc_overlay_inside(&vec![], 6).last(), Some(&Step::MountOverlay(6)));
}

fn process(pid: u32, argv: Option<&[&str]>, pid_ns: Option<u64>) -> Process {
    Process {
        pid,
        cmdline: argv.map(|a| a.iter().map(|s| s.to_string()).collect()),
        pid_ns,
        net_ns: Some(21),
    }
}

#[test]
fn init_is_the_first_tini_of_the_pid_namespace() {
    let list = vec![
        process(1, Some(&["/sbin/init"]), Some(10)),
        process(40, Some(&["tini"]), Some(10)),
        process(41, Some(&["sleep", "infinity"]), Some(11)),
        process(42, Some(&[]), Some(11)),
        process(43, Some(&["tini", "--", "sleep"]), Some(11)),
        process(44, Some(&["tini"]), Some(11)),
    ];
    let found = find_pid_ns_init_process(&Processes { pid_ns_id: Some(11), list: list.clone() });
    assert_eq!(found.unwrap(), Some(43));
    let found = find_pid_ns_init_process(&Processes { pid_ns_id: Some(10), list: list.clone() });
    assert_eq!(found.unwrap(), Some(40));
    let found = find_pid_ns_init_process(&Processes { pid_ns_id: Some(12), list });
    assert_eq!(found.unwrap(), None);
}

#[test]
fn init_has_to_be_named_exactly() {
    let list = vec![process(43, Some(&["/usr/bin/tini"]), Some(11)), process(44, Some(&["tini2"]), Some(11))];
    let found = find_pid_ns_init_process(&Processes { pid_ns_id: Some(11), list });
    assert_eq!(found.unwrap(), None);
}

#[test]
fn init_search_fails_on_what_cannot_be_read() {
    let list = vec![process(43, Some(&["tini"]), Some(11))];
    let found = find_pid_ns_init_process(&Processes { pid_ns_id: None, list });
    assert!(matches!(found, Err(Error::Io(_))));
    let list = vec![
        process(41, None, Some(10)),
        process(42, None, Some(11)),
        process(43, Some(&["tini"]), Some(11)),
    ];
    let found = find_pid_ns_init_process(&Processes { pid_ns_id: Some(11), list });
    assert!(matches!(found, Err(Error::Io(_))));
    let list = vec![process(43, Some(&["tini"]), Some(11)), process(44, None, Some(11))];
    let found = find_pid_ns_init_process(&Processes { pid_ns_id: Some(11), list });
    assert_eq!(found.unwrap(), Some(43));
}

#[test]
fn a_service_runs_when_any_process_ends_with_its_name() {
    let list = vec![
        process(1, Some(&["/sbin/init"]), Some(10)),
        process(2, None, None),
        process(3, Some(&[]), None),
        process(4, Some(&["/opt/bin/warp-svc", "--flag"]), Some(10)),
    ];
    assert!(is_running("warp-svc", &list));
    assert!(!is_running("/usr/sbin/danted", &list));
    assert_eq!(spawn_process_inside("warp-svc", Step::StartVpn(9), &list), None);
    assert_eq!(
        spawn_process_inside("/usr/sbin/danted", Step::StartProxy(9), &list),
        Some(Step::StartProxy(9))
    );
    assert_eq!(spawn_process_inside("warp-svc", Step::StartVpn(9), &vec![]), Some(Step::StartVpn(9)));
}

fn output(code: Option<i32>) -> Output {
    Output { code, stdout: b"out".to_vec(), stderr: b"err".to_vec() }
}

#[test]
fn judge_passes_success_and_carries_failure() {
    let ok = judge("ip", output(Some(0))).unwrap();
    assert_eq!((ok.code, ok.stdout, ok.stderr), (Some(0), b"out".to_vec(), b"err".to_vec()));
    for code in [Some(1), Some(-1), Some(255), None] {
        match judge("mount", output(code)) {
            Err(Error::ExecutionFailed { program, output }) => {
                assert_eq!(program, "mount");
                assert_eq!(output.code, code);
                assert_eq!(output.stdout, b"out");
                assert_eq!(output.stderr, b"err");
            }
            other => panic!("unexpected {:?}", other),
        }
    }
    assert!(output(Some(0)).success());
    assert!(!output(Some(3)).success());
    assert!(!output(None).success());
}

#[test]
fn settle_wants_the_answer_that_fits_the_step() {
    assert!(settle(Step::CreateBaseDir, Event::Done).is_ok());
    assert!(settle(Step::CreateLinkPair, Event::Output(output(Some(0)))).is_ok());
    assert!(matches!(settle(Step::CreateLinkPair, Event::Done), Err(Error::Parse(Shape::Mismatch))));
    assert!(matches!(
        settle(Step::CreateBaseDir, Event::Output(output(Some(0)))),
        Err(Error::Parse(Shape::Mismatch))
    ));
    assert!(matches!(settle(Step::CreateBaseDir, Event::Spawned(3)), Err(Error::Parse(Shape::Mismatch))));
    match settle(Step::AddRule(bubblewarp::effect::Rule::ForwardIn), Event::Output(output(Some(4)))) {
        Err(Error::ExecutionFailed { program, output }) => {
            assert_eq!(program, "/usr/sbin/iptables");
            assert_eq!(output.code, Some(4));
        }
        other => panic!("unexpected {:?}", other),
    }
    match settle(Step::CreateBaseDir, Event::Failed("no space".into())) {
        Err(Error::Io(reason)) => assert_eq!(reason, "no space"),
        other => panic!("unexpected {:?}", other),
    }
    assert!(matches!(refuse(Event::Alive(false)), Error::Parse(Shape::Mismatch)));
}

#[test]
fn only_effective_root_may_go_on() {
    assert_eq!(ensure_root(true, true).unwrap(), Privilege::Root);
    assert_eq!(ensure_root(true, false).unwrap(), Privilege::Elevate);
    assert!(matches!(ensure_root(false, false), Err(Error::Privilege)));
    assert!(matches!(ensure_root(false, true), Err(Error::Privilege)));
}

#[test]
fn errors_read_as_one_line() {
    assert_eq!(Error::Configuration.message(), "Failed to get the path of our data directory");
    assert_eq!(Error::Privilege.message(), "We are not running as root!");
    assert_eq!(
        Error::Desync(Desync::InitMissing).message(),
        "Namespaces already mounted, but init process is dead. Try calling the down command first"
    );
    assert_eq!(
        Error::Desync(Desync::Partial(TypeSet::empty().insert(Type::Net))).message(),
        "Namespaces partially mounted! Try calling the down command first"
    );
    assert_eq!(Error::Desync(Desync::InitDied).message(), "namespace init process died!");
    assert_eq!(
        Error::ExecutionFailed { program: "ip".into(), output: output(Some(2)) }.message(),
        "Failed to run command ip, returned exit status: 2"
    );
    assert_eq!(
        Error::ExecutionFailed { program: "ip".into(), output: output(Some(-7)) }.message(),
        "Failed to run command ip, returned exit status: -7"
    );
    assert_eq!(
        Error::ExecutionFailed { program: "mount".into(), output: output(None) }.message(),
        "Failed to run command mount, returned a signal"
    );
    assert_eq!(Error::Parse(Shape::Tasks(3)).message(), "Unshare process has 3 tasks, expected 1!");
    assert_eq!(Error::Parse(Shape::Children(12)).message(), "Unshare process has 12 children, expected 1!");
    assert_eq!(Error::Parse(Shape::NoDefault).message(), "Unexpected output from ip route show default");
    assert_eq!(Error::Parse(Shape::NoDevice).message(), "Unexpected output from ip route show default");
    assert_eq!(Error::Parse(Shape::NotUtf8).message(), "Unexpected output from ip route show default");
    assert_eq!(Error::Parse(Shape::Mismatch).message(), "Unexpected answer to a step");
    assert_eq!(Error::Timeout.message(), "Timed out waiting for namespace creation");
    assert_eq!(Error::Io("disk on fire".into()).message(), "disk on fire");
}

#[test]
fn commands_are_built_word_by_word() {
    let cmd = Cmd::new("ip").arg("link").args(vec!["set", "lo"]).arg("up");
    assert_eq!(cmd.program, "ip");
    assert_eq!(cmd.args, vec!["link", "set", "lo", "up"]);
    assert_eq!(cmd.cwd, None);
    let cmd = Cmd::with("ls", vec![]).current_dir("/tmp");
    assert!(cmd.args.is_empty());
    assert_eq!(cmd.cwd, Some("/tmp".to_string()));
}
