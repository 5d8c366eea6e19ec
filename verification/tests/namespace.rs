use bubblewarp::command::Cmd;
use bubblewarp::error::Error;
use bubblewarp::namespace::{
    all_ns_processes, find_exactly_in_namespace, find_process_in_namespace, is_mounted,
    mount_point, resolve_base_dir, run_inside_namespace, spawn_inside_all_namespaces, status,
    wrap_cmd, MountEntry, Mounts, Probe, Process, Status, Type, TypeSet,
};

fn missing() -> Probe {
    Probe { exists: false, canonical: None }
}

fn present(path: &str) -> Probe {
    Probe { exists: true, canonical: Some(path.to_string()) }
}

fn namespace_file(target: &str) -> MountEntry {
    MountEntry {
        fs_type: "nsfs".to_string(),
        source: Some("nsfs".to_string()),
        root: None,
        target: Some(target.to_string()),
    }
}

fn snapshot(kinds: &[Type]) -> Mounts {
    let base = "/data/bubblewarp";
    let probe = |k: Type| {
        if kinds.contains(&k) {
            present(&mount_point(base, k))
        } else {
            missing()
        }
    };
    let mut table = vec![MountEntry {
        fs_type: "ext4".to_string(),
        source: Some("/dev/sda1".to_string()),
        root: Some("/".to_string()),
        target: Some("/".to_string()),
    }];
    for k in kinds {
        table.push(namespace_file(&mount_point(base, *k)));
    }
    Mounts {
        base: present(base),
        user: probe(Type::User),
        pid: probe(Type::Pid),
        mount: probe(Type::Mount),
        net: probe(Type::Net),
        table,
    }
}

#[test]
fn kinds_have_their_fixed_names() {
    assert_eq!(Type::User.to_string(), "user");
    assert_eq!(Type::Pid.to_string(), "pid");
    assert_eq!(Type::Mount.to_string(), "mount");
    assert_eq!(Type::Net.to_string(), "net");
    assert_eq!(Type::Net.as_str(), "net");
}

#[test]
fn kinds_come_in_creation_order() {
    assert_eq!(Type::all(), vec![Type::User, Type::Pid, Type::Mount, Type::Net]);
}

#[test]
fn mount_point_is_base_dir_and_name() {
    assert_eq!(mount_point("/data/bubblewarp", Type::User), "/data/bubblewarp/user");
    assert_eq!(mount_point("/data/bubblewarp", Type::Pid), "/data/bubblewarp/pid");
    assert_eq!(mount_point("/data/bubblewarp", Type::Mount), "/data/bubblewarp/mount");
    assert_eq!(mount_point("/data/bubblewarp/", Type::Net), "/data/bubblewarp/net");
}

#[test]
fn type_set_counts_its_kinds() {
    let empty = TypeSet::empty();
    assert!(empty.is_empty());
    assert_eq!(empty.len(), 0);
    let one = empty.insert(Type::Pid);
    assert!(!one.is_empty());
    assert_eq!(one.len(), 1);
    assert!(one.contains(Type::Pid));
    assert!(!one.contains(Type::User));
    assert_eq!(one.insert(Type::Pid), one);
    let all = one.insert(Type::User).insert(Type::Mount).insert(Type::Net);
    assert_eq!(all.len(), 4);
    assert_eq!(all, TypeSet { user: true, pid: true, mount: true, net: true });
}

#[test]
fn nothing_is_mounted_in_a_fresh_base_directory() {
    let mounts = snapshot(&[]);
    for k in Type::all() {
        assert!(!is_mounted("/data/bubblewarp", k, &mounts));
    }
    assert_eq!(status("/data/bubblewarp", &mounts), Status::Unmounted);
}

#[test]
fn all_kinds_are_mounted_after_creation() {
    let mounts = snapshot(&Type::all());
    for k in Type::all() {
        assert!(is_mounted("/data/bubblewarp", k, &mounts));
    }
    assert_eq!(status("/data/bubblewarp", &mounts), Status::Ready);
}

#[test]
fn partial_status_names_the_mounted_kinds() {
    let mounts = snapshot(&[Type::User, Type::Net]);
    assert!(is_mounted("/data/bubblewarp", Type::User, &mounts));
    assert!(!is_mounted("/data/bubblewarp", Type::Pid, &mounts));
    let expected = TypeSet::empty().insert(Type::User).insert(Type::Net);
    assert_eq!(status("/data/bubblewarp", &mounts), Status::Partial(expected));
}

#[test]
fn partial_status_has_one_to_three_kinds() {
    let kinds = Type::all();
    for mask in 0u8..16 {
        let chosen: Vec<Type> =
            (0..4).filter(|i| mask & (1 << i) != 0).map(|i| kinds[i]).collect();
        match status("/data/bubblewarp", &snapshot(&chosen)) {
            Status::Unmounted => assert_eq!(chosen.len(), 0),
            Status::Ready => assert_eq!(chosen.len(), 4),
            Status::Partial(set) => {
                assert!(1 <= set.len() && set.len() <= 3);
                assert_eq!(set.len(), chosen.len());
                for k in kinds.iter() {
                    assert_eq!(set.contains(*k), chosen.contains(k));
                }
            }
        }
    }
}

#[test]
fn a_mount_point_that_does_not_exist_is_not_mounted() {
    let mut mounts = snapshot(&[Type::Net]);
    mounts.net = missing();
    assert!(!is_mounted("/data/bubblewarp", Type::Net, &mounts));
}

#[test]
fn only_namespace_files_count() {
    let mut mounts = snapshot(&[Type::Net]);
    mounts.table[1].fs_type = "tmpfs".to_string();
    assert!(!is_mounted("/data/bubblewarp", Type::Net, &mounts));
    let mut mounts = snapshot(&[Type::Net]);
    mounts.table[1].source = Some("tmpfs".to_string());
    assert!(!is_mounted("/data/bubblewarp", Type::Net, &mounts));
    let mut mounts = snapshot(&[Type::Net]);
    mounts.table[1].source = None;
    assert!(!is_mounted("/data/bubblewarp", Type::Net, &mounts));
}

#[test]
fn entries_that_do_not_resolve_are_passed_over() {
    let mut mounts = snapshot(&[Type::Net]);
    mounts.table[1].target = None;
    assert!(!is_mounted("/data/bubblewarp", Type::Net, &mounts));
    mounts.table.push(namespace_file("/data/bubblewarp/net"));
    assert!(is_mounted("/data/bubblewarp", Type::Net, &mounts));
}

#[test]
fn the_resolved_mount_point_is_compared() {
    let mut mounts = snapshot(&[Type::Net]);
    mounts.net = present("/mnt/real/net");
    assert!(!is_mounted("/data/bubblewarp", Type::Net, &mounts));
    mounts.table[1].target = Some("/mnt/real/net".to_string());
    assert!(is_mounted("/data/bubblewarp", Type::Net, &mounts));
}

#[test]
fn an_unresolved_mount_point_is_compared_as_it_is() {
    let mut mounts = snapshot(&[Type::Net]);
    mounts.net = Probe { exists: true, canonical: None };
    assert!(is_mounted("/data/bubblewarp", Type::Net, &mounts));
    assert!(!is_mounted("/elsewhere", Type::Net, &mounts));
}

#[test]
fn wrapping_appends_program_and_arguments() {
    let mut wrapper = Cmd::new("nsenter").arg("-a");
    let inner = Cmd::with("ip", vec!["route", "show"]);
    wrap_cmd(&mut wrapper, &inner);
    assert_eq!(wrapper.program, "nsenter");
    assert_eq!(wrapper.args, vec!["-a", "ip", "route", "show"]);
    assert_eq!(wrapper.cwd, None);
}

#[test]
fn wrapping_takes_over_the_working_directory() {
    let mut wrapper = Cmd::new("nsenter").current_dir("/tmp");
    wrap_cmd(&mut wrapper, &Cmd::new("ls"));
    assert_eq!(wrapper.cwd, Some("/tmp".to_string()));
    wrap_cmd(&mut wrapper, &Cmd::new("ls").current_dir("/srv"));
    assert_eq!(wrapper.cwd, Some("/srv".to_string()));
    assert_eq!(wrapper.args, vec!["ls", "ls"]);
}

#[test]
fn one_namespace_is_entered_through_its_mount_point() {
    let inner = Cmd::with("ip", vec!["route", "show", "default"]);
    let cmd = run_inside_namespace("/data/bubblewarp", Type::Net, &inner);
    assert_eq!(cmd.program, "nsenter");
    assert_eq!(cmd.args, vec!["--net=/data/bubblewarp/net", "ip", "route", "show", "default"]);
    assert_eq!(cmd.cwd, None);
    let cmd = run_inside_namespace("/data/bubblewarp", Type::Mount, &Cmd::new("umount").arg("/etc"));
    assert_eq!(cmd.args, vec!["--mount=/data/bubblewarp/mount", "umount", "/etc"]);
}

#[test]
fn all_namespaces_are_entered_through_a_process() {
    let cmd = spawn_inside_all_namespaces(&Cmd::new("warp-svc"), 4711);
    assert_eq!(cmd.program, "nsenter");
    assert_eq!(cmd.args, vec!["-a", "-t", "4711", "warp-svc"]);
    let cmd = spawn_inside_all_namespaces(&Cmd::new("mount").current_dir("/x"), 1);
    assert_eq!(cmd.args, vec!["-a", "-t", "1", "mount"]);
    assert_eq!(cmd.cwd, Some("/x".to_string()));
}

fn process(pid: u32, argv: &[&str], pid_ns: u64, net_ns: u64) -> Process {
    Process {
        pid,
        cmdline: Some(argv.iter().map(|s| s.to_string()).collect()),
        pid_ns: Some(pid_ns),
        net_ns: Some(net_ns),
    }
}

fn table() -> Vec<Process> {
    vec![
        process(1, &["/sbin/init"], 10, 20),
        process(300, &["/usr/bin/warp-svc"], 10, 20),
        process(500, &["tini", "--", "sleep", "infinity"], 11, 21),
        process(501, &["sleep", "infinity"], 11, 21),
        process(600, &["warp-svc"], 11, 21),
        process(601, &["/usr/bin/warp-svc"], 11, 21),
        process(700, &["/usr/sbin/danted"], 11, 21),
        process(701, &["danted: io-chil"], 11, 21),
    ]
}

#[test]
fn a_process_is_found_outside_the_root_network_namespace() {
    assert_eq!(find_process_in_namespace("warp-svc", &table()), Some(600));
    assert_eq!(find_process_in_namespace("danted", &table()), Some(700));
    assert_eq!(find_process_in_namespace("sleep", &table()), Some(501));
}

#[test]
fn a_process_in_the_root_network_namespace_is_not_found() {
    assert_eq!(find_process_in_namespace("init", &table()), None);
    let host_only = vec![process(1, &["/sbin/init"], 10, 20), process(300, &["warp-svc"], 10, 20)];
    assert_eq!(find_process_in_namespace("warp-svc", &host_only), None);
}

#[test]
fn a_process_without_readable_namespace_is_not_found() {
    let mut list = table();
    list[4].net_ns = None;
    assert_eq!(find_process_in_namespace("warp-svc", &list), Some(601));
    let mut list = table();
    list[4].cmdline = None;
    assert_eq!(find_process_in_namespace("warp-svc", &list), Some(601));
    let mut list = table();
    list[4].cmdline = Some(vec![]);
    assert_eq!(find_process_in_namespace("warp-svc", &list), Some(601));
}

#[test]
fn a_worker_is_found_by_its_exact_title() {
    assert_eq!(find_exactly_in_namespace("danted: io-chil", &table()), Some(701));
    assert_eq!(find_exactly_in_namespace("io-chil", &table()), None);
    assert_eq!(find_exactly_in_namespace("warp-svc", &table()), Some(600));
    assert_eq!(find_process_in_namespace("io-chil", &table()), Some(701));
}

#[test]
fn processes_of_the_pid_namespace_are_kept_in_order() {
    let inside = all_ns_processes(11, &table());
    let pids: Vec<u32> = inside.iter().map(|p| p.pid).collect();
    assert_eq!(pids, vec![500, 501, 600, 601, 700, 701]);
    assert_eq!(inside[0].cmdline, Some(vec!["tini".into(), "--".into(), "sleep".into(), "infinity".into()]));
    assert_eq!(inside[0].net_ns, Some(21));
    let mut list = table();
    list[3].pid_ns = None;
    let pids: Vec<u32> = all_ns_processes(11, &list).iter().map(|p| p.pid).collect();
    assert_eq!(pids, vec![500, 600, 601, 700, 701]);
    assert!(all_ns_processes(12, &table()).is_empty());
}

#[test]
fn base_dir_is_the_data_directory() {
    assert_eq!(resolve_base_dir(Some("/home/u/.local/share/bubblewarp".to_string())).unwrap(), "/home/u/.local/share/bubblewarp");
    assert!(matches!(resolve_base_dir(None), Err(Error::Configuration)));
}

#[test]
fn base_dir_ends_with_the_name_of_the_tool() {
    match bubblewarp::namespace::base_dir() {
        Ok(dir) => assert!(dir.ends_with("bubblewarp")),
        Err(e) => assert!(matches!(e, Error::Configuration)),
    }
}
