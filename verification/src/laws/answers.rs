//! The host of the model can be run against: it has an answer to every
//! step, and with its answers bring-up can end well.

use crate::command::OutputModel;
use crate::down::DownModel;
use crate::effect::{EventModel, HelperModel, NextModel, ProcessesModel, Step};
use crate::error::{ErrorModel, Shape};
use crate::fixed::{HOST_LINK, INIT, OVERLAY_MARK, PROXY, VPN};
use crate::host::{down_from, down_honest, up_from, up_honest, up_run, Host, Run};
use crate::laws::bring_up::{lemma_up_step, up_inv};
use crate::namespace::{
    in_pid_ns, mount_point_of, status_of, MountEntryModel, MountsModel, ProbeModel, ProcessModel,
    Status, Type, TypeSet,
};
use crate::net::{iface_in, parsed_iface_name};
use crate::text::{fields, lemma_first_index_is, lemma_first_where_is, occurs_at};
use crate::up::{init_process, running, Phase, UpModel};
use vstd::prelude::*;
use vstd::string::StringSliceAdditionalSpecFns;
use vstd::utf8::{decode_utf8, encode_utf8};

verus! {

/// The namespaces appear together. On a host without mounted namespaces
/// every reading of the mounts shows none of the four kinds mounted; once the
/// helper has made the namespaces, every reading shows all four.
pub proof fn law_namespaces_appear_together(
    base_dir: Seq<char>,
    host: Host,
    before: EventModel,
    after: EventModel,
)
    requires
        host.mounted == TypeSet::none(),
        host.answers(base_dir, Step::ReadMounts, before),
        host.after(Step::StartHelper).answers(base_dir, Step::ReadMounts, after),
    ensures
        forall|k: Type| !(before->Mounts_0).mounted(base_dir, k),
        forall|k: Type| (after->Mounts_0).mounted(base_dir, k),
        status_of((before->Mounts_0).mounted_set(base_dir)) == Status::Unmounted,
        status_of((after->Mounts_0).mounted_set(base_dir)) == Status::Ready,
{
    let b = (before->Mounts_0).mounted_set(base_dir);
    let a = (after->Mounts_0).mounted_set(base_dir);
    assert forall|k: Type| !(before->Mounts_0).mounted(base_dir, k) by {
        assert(b.has(k) == (before->Mounts_0).mounted(base_dir, k));
    }
    assert forall|k: Type| (after->Mounts_0).mounted(base_dir, k) by {
        assert(a.has(k) == (after->Mounts_0).mounted(base_dir, k));
    }
}

/// The mount-table entry of a mounted namespace file, or nothing.
spec fn namespace_entry(mounted: bool, path: Seq<char>) -> Seq<MountEntryModel> {
    if mounted {
        seq![
            MountEntryModel {
                fs_type: "nsfs"@,
                source: Some("nsfs"@),
                root: None,
                target: Some(path),
            },
        ]
    } else {
        seq![]
    }
}

/// A reading of the mounts that shows what the host holds.
spec fn mounts_shown(h: Host, base_dir: Seq<char>) -> MountsModel {
    let bind = if h.self_bound {
        seq![
            MountEntryModel {
                fs_type: seq![],
                source: None,
                root: Some(base_dir),
                target: Some(base_dir),
            },
        ]
    } else {
        seq![]
    };
    MountsModel {
        base: ProbeModel { exists: true, canonical: Some(base_dir) },
        user: ProbeModel { exists: h.mounted.user, canonical: None },
        pid: ProbeModel { exists: h.mounted.pid, canonical: None },
        mount: ProbeModel { exists: h.mounted.mount, canonical: None },
        net: ProbeModel { exists: h.mounted.net, canonical: None },
        table: bind + namespace_entry(h.mounted.user, mount_point_of(base_dir, Type::User))
            + namespace_entry(h.mounted.pid, mount_point_of(base_dir, Type::Pid))
            + namespace_entry(h.mounted.mount, mount_point_of(base_dir, Type::Mount))
            + namespace_entry(h.mounted.net, mount_point_of(base_dir, Type::Net)),
    }
}

proof fn lemma_mounts_shown(h: Host, base_dir: Seq<char>)
    ensures
        h.answers(base_dir, Step::ReadMounts, EventModel::Mounts(mounts_shown(h, base_dir))),
{
    reveal_strlit("nsfs");
    let m = mounts_shown(h, base_dir);
    let bind: Seq<MountEntryModel> = if h.self_bound {
        seq![
            MountEntryModel {
                fs_type: seq![],
                source: None,
                root: Some(base_dir),
                target: Some(base_dir),
            },
        ]
    } else {
        seq![]
    };
    let u = namespace_entry(h.mounted.user, mount_point_of(base_dir, Type::User));
    let p = namespace_entry(h.mounted.pid, mount_point_of(base_dir, Type::Pid));
    let mt = namespace_entry(h.mounted.mount, mount_point_of(base_dir, Type::Mount));
    let n = namespace_entry(h.mounted.net, mount_point_of(base_dir, Type::Net));
    assert(m.table == bind + u + p + mt + n);
    assert forall|k: Type| m.mounted(base_dir, k) == h.mounted.has(k) by {
        if h.mounted.has(k) {
            let at: int = match k {
                Type::User => bind.len() as int,
                Type::Pid => (bind.len() + u.len()) as int,
                Type::Mount => (bind.len() + u.len() + p.len()) as int,
                Type::Net => (bind.len() + u.len() + p.len() + mt.len()) as int,
            };
            assert(m.table[at].is_namespace_at(mount_point_of(base_dir, k)));
        }
    }
    assert(m.mounted_set(base_dir) == h.mounted);
    if h.self_bound {
        assert(m.table[0].is_self_bind_of(base_dir));
    } else {
        assert forall|i: int| 0 <= i < m.table.len() implies !(
        #[trigger] m.table[i]).is_self_bind_of(base_dir) by {
            assert(m.table[i].root is None);
        }
    }
}

/// The process of a service, or nothing.
spec fn service(runs: bool, name: Seq<char>) -> Seq<ProcessModel> {
    if runs {
        seq![ProcessModel { pid: 0, cmdline: Some(seq![name]), pid_ns: None, net_ns: None }]
    } else {
        seq![]
    }
}

/// A process table that shows what the host holds.
spec fn processes_shown(h: Host) -> ProcessesModel {
    ProcessesModel {
        pid_ns_id: Some(0u64),
        list: init_shown(h.init) + service(h.vpn, VPN@) + service(h.proxy, PROXY@),
    }
}

/// The init process as the process table shows it, or nothing.
spec fn init_shown(init: Option<u32>) -> Seq<ProcessModel> {
    match init {
        Some(pid) => seq![
            ProcessModel { pid, cmdline: Some(seq![INIT@]), pid_ns: Some(0u64), net_ns: None },
        ],
        None => seq![],
    }
}

proof fn lemma_names()
    ensures
        !VPN@.is_suffix_of(INIT@),
        !VPN@.is_suffix_of(PROXY@),
        !PROXY@.is_suffix_of(INIT@),
        !PROXY@.is_suffix_of(VPN@),
        VPN@.is_suffix_of(VPN@),
        PROXY@.is_suffix_of(PROXY@),
{
    reveal_strlit("tini");
    reveal_strlit("warp-svc");
    reveal_strlit("/usr/sbin/danted");
    assert(PROXY@[15] == 'd');
    assert(VPN@[7] == 'c');
    assert(PROXY@.subrange(8, 16)[7] == 'd');
    assert(VPN@ =~= VPN@.subrange(0, 8));
    assert(PROXY@ =~= PROXY@.subrange(0, 16));
}

proof fn lemma_service_shown(
    before: Seq<ProcessModel>,
    runs: bool,
    name: Seq<char>,
    after: Seq<ProcessModel>,
)
    requires
        name.is_suffix_of(name),
        forall|i: int| 0 <= i < before.len() ==> !(#[trigger] before[i]).runs(name),
        forall|i: int| 0 <= i < after.len() ==> !(#[trigger] after[i]).runs(name),
    ensures
        running(name, before + service(runs, name) + after) == runs,
{
    let list = before + service(runs, name) + after;
    if runs {
        assert(list[before.len() as int].runs(name));
    } else {
        assert forall|i: int| 0 <= i < list.len() implies !(#[trigger] list[i]).runs(name) by {
            if i < before.len() {
                assert(list[i] == before[i]);
            } else {
                assert(list[i] == after[i - before.len()]);
            }
        }
    }
}

proof fn lemma_filter_keeps_all<T>(s: Seq<T>, keep: spec_fn(T) -> bool)
    requires
        forall|i: int| 0 <= i < s.len() ==> keep(#[trigger] s[i]),
    ensures
        s.filter(keep) == s,
    decreases s.len(),
{
    reveal(Seq::filter);
    if s.len() > 0 {
        let front = s.drop_last();
        assert forall|i: int| 0 <= i < front.len() implies keep(#[trigger] front[i]) by {
            assert(front[i] == s[i]);
        }
        lemma_filter_keeps_all(front, keep);
        assert(front.push(s.last()) =~= s);
    }
}

proof fn lemma_inside_shown(init: Option<u32>, vpn: bool, proxy: bool)
    ensures
        in_pid_ns(init_shown(init) + service(vpn, VPN@) + service(proxy, PROXY@), 0)
            == init_shown(init),
{
    let first = init_shown(init);
    let second = service(vpn, VPN@);
    let third = service(proxy, PROXY@);
    let keep = |p: ProcessModel| p.pid_ns == Some(0u64);
    Seq::filter_distributes_over_add(first + second, third, keep);
    Seq::filter_distributes_over_add(first, second, keep);
    second.lemma_all_neg_filter_empty(keep);
    third.lemma_all_neg_filter_empty(keep);
    lemma_filter_keeps_all(first, keep);
    assert(first + Seq::<ProcessModel>::empty() + Seq::<ProcessModel>::empty() =~= first);
}

proof fn lemma_init_shown(init: Option<u32>, vpn: bool, proxy: bool)
    ensures
        init_process(
            ProcessesModel {
                pid_ns_id: Some(0u64),
                list: init_shown(init) + service(vpn, VPN@) + service(proxy, PROXY@),
            },
        ) == Ok::<Option<u32>, ErrorModel>(init),
{
    lemma_inside_shown(init, vpn, proxy);
    let inside = init_shown(init);
    let found = |p: ProcessModel| p.cmdline is None || p.is(INIT@);
    if init is Some {
        assert(inside[0].argv0() == Some(INIT@));
        assert(found(inside[0]));
    }
    lemma_first_where_is(inside, found, 0);
}

proof fn lemma_processes_shown(h: Host, base_dir: Seq<char>)
    ensures
        h.answers(base_dir, Step::ReadProcesses, EventModel::Processes(processes_shown(h))),
{
    lemma_names();
    let init = init_shown(h.init);
    let vpn = service(h.vpn, VPN@);
    let proxy = service(h.proxy, PROXY@);
    assert(processes_shown(h).list == init + vpn + proxy);
    assert forall|i: int| 0 <= i < init.len() implies !(#[trigger] init[i]).runs(VPN@) && !init[i].runs(
        PROXY@,
    ) by {
        assert(init[i].argv0() == Some(INIT@));
    }
    assert forall|i: int| 0 <= i < proxy.len() implies !(#[trigger] proxy[i]).runs(VPN@) by {
        assert(proxy[i].argv0() == Some(PROXY@));
    }
    assert forall|i: int| 0 <= i < (init + vpn).len() implies !(#[trigger] (init + vpn)[i]).runs(
        PROXY@,
    ) by {
        if i < init.len() {
            assert((init + vpn)[i] == init[i]);
        } else {
            assert((init + vpn)[i].argv0() == Some(VPN@));
        }
    }
    lemma_service_shown(init, h.vpn, VPN@, proxy);
    lemma_service_shown(init + vpn, h.proxy, PROXY@, seq![]);
    assert(init + vpn + proxy + Seq::<ProcessModel>::empty() =~= init + vpn + proxy);
    lemma_init_shown(h.init, h.vpn, h.proxy);
}

/// A route listing that names `iface`.
spec fn listing(iface: Seq<char>) -> Seq<char> {
    "default"@ + seq![' '] + ("dev"@ + seq![' '] + iface)
}

proof fn lemma_listing(iface: Seq<char>)
    requires
        !iface.contains(' '),
    ensures
        iface_in(listing(iface)) == Ok::<Seq<char>, Shape>(iface),
{
    reveal_strlit("default");
    reveal_strlit("dev");
    let text = listing(iface);
    let rest = "dev"@ + seq![' '] + iface;
    lemma_first_index_is(text, ' ', 7);
    assert(text.take(7) =~= "default"@);
    assert(text.skip(8) =~= rest);
    lemma_first_index_is(rest, ' ', 3);
    assert(rest.take(3) =~= "dev"@);
    assert(rest.skip(4) =~= iface);
    assert forall|j: int| 0 <= j < iface.len() implies iface[j] != ' ' by {
        if iface[j] == ' ' {
            assert(iface.contains(' '));
        }
    }
    lemma_first_index_is(iface, ' ', iface.len() as int);
    assert(fields(iface, ' ') == seq![iface]);
    assert(fields(rest, ' ') == seq!["dev"@] + fields(iface, ' '));
    assert(fields(text, ' ') == seq!["default"@] + fields(rest, ' '));
    let parts = fields(text, ' ');
    assert(parts =~= seq!["default"@, "dev"@, iface]);
    assert("default"@ != "dev"@);
    lemma_first_index_is(parts, "dev"@, 1);
}

/// A finished command with this exit code and output.
spec fn finished(code: i32, stdout: Seq<u8>) -> EventModel {
    EventModel::Output(OutputModel { code: Some(code), stdout, stderr: seq![] })
}

/// One answer of the host to `step`. The helper is shown with its child
/// wherever the host lets the child show.
spec fn shown(host: Host, base_dir: Seq<char>, step: Step) -> EventModel {
    match step {
        Step::ReadMounts => EventModel::Mounts(mounts_shown(host, base_dir)),
        Step::ReadProcesses => EventModel::Processes(processes_shown(host)),
        Step::ListInterfaces => EventModel::Interfaces(
            if host.host_link {
                seq![HOST_LINK@]
            } else {
                seq![]
            },
        ),
        Step::InspectHelper(_) => EventModel::Helper(
            HelperModel {
                alive: true,
                tasks: 1,
                children: if host.child_shows && host.init is Some {
                    seq![host.init->0]
                } else {
                    seq![]
                },
            },
        ),
        Step::CheckAlive(pid) => EventModel::Alive(host.init == Some(pid)),
        Step::ListMountsInside(_) => if host.overlay {
            finished(0, OVERLAY_MARK.spec_bytes())
        } else {
            finished(0, seq![])
        },
        Step::QueryContainerRoute => if host.container_route {
            finished(0, seq![0u8])
        } else {
            finished(0, seq![])
        },
        Step::QueryHostRoute => finished(0, encode_utf8(listing(host.iface))),
        Step::DeleteRule(rule) => if host.rules(rule) > 0 {
            finished(0, seq![])
        } else {
            finished(1, seq![])
        },
        Step::StartHelper | Step::StartVpn(_) | Step::StartProxy(_) => EventModel::Spawned(0),
        _ => if step.is_command() {
            finished(0, seq![])
        } else {
            EventModel::Done
        },
    }
}

proof fn lemma_shown(host: Host, base_dir: Seq<char>, step: Step)
    requires
        !host.iface.contains(' '),
    ensures
        host.answers(base_dir, step, shown(host, base_dir, step)),
{
    match step {
        Step::ReadMounts => {
            lemma_mounts_shown(host, base_dir);
        },
        Step::ReadProcesses => {
            lemma_processes_shown(host, base_dir);
        },
        Step::ListInterfaces => {
            if host.host_link {
                assert(seq![HOST_LINK@][0] == HOST_LINK@);
            }
        },
        Step::ListMountsInside(_) => {
            let mark = OVERLAY_MARK.spec_bytes();
            reveal_strlit("overlay on /etc type overlay");
            encode_utf8_decode_utf8_of(OVERLAY_MARK@);
            assert(mark.len() > 0);
            if host.overlay {
                assert(mark.subrange(0, mark.len() as int) =~= mark);
                assert(occurs_at(mark, mark, 0));
            } else {
                assert forall|i: int| !occurs_at(Seq::<u8>::empty(), mark, i) by {}
            }
        },
        Step::QueryHostRoute => {
            lemma_listing(host.iface);
            let text = listing(host.iface);
            vstd::utf8::encode_utf8_valid_utf8(text);
            vstd::utf8::encode_utf8_decode_utf8(text);
            assert(parsed_iface_name(encode_utf8(text)) == Ok::<Seq<char>, ErrorModel>(
                host.iface,
            ));
        },
        _ => {},
    }
}

/// The host has an answer to every step, given that the name of its default
/// interface holds no space.
pub proof fn law_host_answers_every_step(host: Host, base_dir: Seq<char>, step: Step)
    requires
        !host.iface.contains(' '),
    ensures
        exists|event: EventModel| host.answers(base_dir, step, event),
{
    lemma_shown(host, base_dir, step);
}

/// The bytes of a text decode to the text, so a text that is not empty has
/// bytes.
proof fn encode_utf8_decode_utf8_of(text: Seq<char>)
    ensures
        text.len() > 0 ==> encode_utf8(text).len() > 0,
{
    vstd::utf8::encode_utf8_decode_utf8(text);
    if encode_utf8(text).len() == 0 {
        assert(decode_utf8(encode_utf8(text)).len() == 0);
    }
}

/// Answers of the host to the first `n` steps of a run of bring-up.
spec fn up_answers(r: Run<UpModel>, n: nat) -> Seq<EventModel>
    decreases n,
{
    if n == 0 {
        seq![]
    } else {
        match r.next {
            NextModel::Do(step) => {
                let event = shown(r.host, r.state.base_dir, step);
                seq![event] + up_answers(r.answered(step, event), (n - 1) as nat)
            },
            NextModel::Done(_) => Seq::new(n, |i: int| EventModel::Done),
        }
    }
}

proof fn lemma_up_answers(r: Run<UpModel>, n: nat)
    requires
        !r.host.iface.contains(' '),
    ensures
        up_answers(r, n).len() == n,
        up_honest(r, up_answers(r, n)),
    decreases n,
{
    if n > 0 {
        if let NextModel::Do(step) = r.next {
            lemma_shown(r.host, r.state.base_dir, step);
            let event = shown(r.host, r.state.base_dir, step);
            let rest = up_answers(r.answered(step, event), (n - 1) as nat);
            lemma_up_answers(r.answered(step, event), (n - 1) as nat);
            assert((seq![event] + rest).drop_first() =~= rest);
        }
    }
}

/// Answers of the host to the first `n` steps of a run of tear-down.
spec fn down_answers(r: Run<DownModel>, n: nat) -> Seq<EventModel>
    decreases n,
{
    if n == 0 {
        seq![]
    } else {
        match r.next {
            NextModel::Do(step) => {
                let event = shown(r.host, r.state.base_dir, step);
                seq![event] + down_answers(r.answered(step, event), (n - 1) as nat)
            },
            NextModel::Done(_) => Seq::new(n, |i: int| EventModel::Done),
        }
    }
}

proof fn lemma_down_answers(r: Run<DownModel>, n: nat)
    requires
        !r.host.iface.contains(' '),
    ensures
        down_answers(r, n).len() == n,
        down_honest(r, down_answers(r, n)),
    decreases n,
{
    if n > 0 {
        if let NextModel::Do(step) = r.next {
            lemma_shown(r.host, r.state.base_dir, step);
            let event = shown(r.host, r.state.base_dir, step);
            let rest = down_answers(r.answered(step, event), (n - 1) as nat);
            lemma_down_answers(r.answered(step, event), (n - 1) as nat);
            assert((seq![event] + rest).drop_first() =~= rest);
        }
    }
}

/// Every host can be run against. For every host whose default interface
/// has a name without a space, and every number, there are that many events
/// with which the host answers bring-up step by step, and as many with which
/// it answers tear-down.
pub proof fn law_honest_runs_exist(base_dir: Seq<char>, host: Host, n: nat)
    requires
        !host.iface.contains(' '),
    ensures
        exists|events: Seq<EventModel>|
            events.len() == n && #[trigger] up_honest(up_from(base_dir, host), events),
        exists|events: Seq<EventModel>|
            events.len() == n && #[trigger] down_honest(down_from(base_dir, host), events),
{
    lemma_up_answers(up_from(base_dir, host), n);
    lemma_down_answers(down_from(base_dir, host), n);
    let up_events = up_answers(up_from(base_dir, host), n);
    let down_events = down_answers(down_from(base_dir, host), n);
    assert(up_events.len() == n && up_honest(up_from(base_dir, host), up_events));
    assert(down_events.len() == n && down_honest(down_from(base_dir, host), down_events));
}

/// The number of answers after which bring-up is over at the latest, where
/// the host shows the init process at the first look.
spec fn success_budget(s: UpModel) -> int {
    match s.phase {
        Phase::BaseDir => 37,
        Phase::SelfBindProbe => 36,
        Phase::Binding => 35,
        Phase::Privatizing => 34,
        Phase::StatusProbe => 33,
        Phase::MountPoints => 29 + s.script.len() as int,
        Phase::HelperStart => 28,
        Phase::HelperNap { .. } => 27,
        Phase::HelperLook { .. } => 26,
        Phase::InitCheck { .. } | Phase::InitScan => 25,
        Phase::OverlayProbe { .. } => 24,
        Phase::Overlay { .. } => 18 + s.script.len() as int,
        Phase::Interfaces { .. } => 17,
        Phase::PrivateNet { .. } => 12 + s.script.len() as int,
        Phase::ContainerRoute { .. } => 11,
        Phase::HostRoute { .. } => 10,
        Phase::Forward { .. } => 6 + s.script.len() as int,
        Phase::VpnScan { .. } => 5,
        Phase::VpnStart { .. } => 4,
        Phase::Settle { .. } => 3,
        Phase::ProxyScan { .. } => 2,
        Phase::ProxyStart => 1,
        _ => 0,
    }
}

/// The invariant of a run of bring-up on a host without mounted namespaces
/// that shows the init process at once.
spec fn fine_inv(r: Run<UpModel>) -> bool {
    &&& up_inv(r)
    &&& r.host.child_shows
    &&& !r.host.iface.contains(' ')
    &&& match r.state.phase {
        Phase::BaseDir
        | Phase::SelfBindProbe
        | Phase::Binding
        | Phase::Privatizing
        | Phase::StatusProbe => r.host.mounted == TypeSet::none(),
        Phase::MountPoints => r.state.script.len() <= 3,
        Phase::HelperNap { .. } | Phase::HelperLook { .. } => r.host.init is Some,
        Phase::InitCheck { init } => r.host.init == Some(init),
        Phase::Overlay { .. } => r.state.script.len() <= 5,
        Phase::PrivateNet { .. } => r.state.script.len() <= 4,
        Phase::Forward { .. } => r.state.script.len() <= 3,
        Phase::Finished => r.next == NextModel::Done(Ok(())),
        Phase::RollingBack | Phase::HelperCollect | Phase::InitScan => false,
        _ => true,
    }
}

/// Whether `event` shows the helper with one child, where it answers a look
/// at the helper.
spec fn eager(step: Step, event: EventModel) -> bool {
    step is InspectHelper ==> (event matches EventModel::Helper(seen) && seen.children.len() == 1)
}

proof fn lemma_fine_isolating(r: Run<UpModel>, event: EventModel)
    requires
        fine_inv(r),
        r.state.phase is BaseDir || r.state.phase is SelfBindProbe || r.state.phase is Binding
            || r.state.phase is Privatizing || r.state.phase is StatusProbe,
        r.host.answers(r.state.base_dir, r.state.pending, event),
    ensures
        fine_inv(r.answered(r.state.pending, event)),
        0 <= success_budget(r.answered(r.state.pending, event).state) < success_budget(r.state),
{
    lemma_up_step(r, r.state.pending, event);
}

proof fn lemma_fine_creating(r: Run<UpModel>, event: EventModel)
    requires
        fine_inv(r),
        r.state.phase is MountPoints || r.state.phase is HelperStart || r.state.phase is HelperNap
            || r.state.phase is HelperLook || r.state.phase is InitCheck,
        r.host.answers(r.state.base_dir, r.state.pending, event),
        eager(r.state.pending, event),
    ensures
        fine_inv(r.answered(r.state.pending, event)),
        0 <= success_budget(r.answered(r.state.pending, event).state) < success_budget(r.state),
{
    lemma_up_step(r, r.state.pending, event);
}

proof fn lemma_fine_overlaying(r: Run<UpModel>, event: EventModel)
    requires
        fine_inv(r),
        r.state.phase is OverlayProbe || r.state.phase is Overlay,
        r.host.answers(r.state.base_dir, r.state.pending, event),
    ensures
        fine_inv(r.answered(r.state.pending, event)),
        0 <= success_budget(r.answered(r.state.pending, event).state) < success_budget(r.state),
{
    lemma_up_step(r, r.state.pending, event);
}

proof fn lemma_fine_networking(r: Run<UpModel>, event: EventModel)
    requires
        fine_inv(r),
        r.state.phase is Interfaces || r.state.phase is PrivateNet
            || r.state.phase is ContainerRoute || r.state.phase is HostRoute
            || r.state.phase is Forward,
        r.host.answers(r.state.base_dir, r.state.pending, event),
    ensures
        fine_inv(r.answered(r.state.pending, event)),
        0 <= success_budget(r.answered(r.state.pending, event).state) < success_budget(r.state),
{
    lemma_up_step(r, r.state.pending, event);
}

proof fn lemma_fine_serving(r: Run<UpModel>, event: EventModel)
    requires
        fine_inv(r),
        r.state.phase is VpnScan || r.state.phase is VpnStart || r.state.phase is Settle
            || r.state.phase is ProxyScan || r.state.phase is ProxyStart,
        r.host.answers(r.state.base_dir, r.state.pending, event),
    ensures
        fine_inv(r.answered(r.state.pending, event)),
        0 <= success_budget(r.answered(r.state.pending, event).state) < success_budget(r.state),
{
    lemma_up_step(r, r.state.pending, event);
}

proof fn lemma_fine_step(r: Run<UpModel>, step: Step)
    requires
        fine_inv(r),
        r.next == NextModel::Do(step),
    ensures
        fine_inv(r.answered(step, shown(r.host, r.state.base_dir, step))),
        0 <= success_budget(r.answered(step, shown(r.host, r.state.base_dir, step)).state)
            < success_budget(r.state),
{
    let event = shown(r.host, r.state.base_dir, step);
    lemma_shown(r.host, r.state.base_dir, step);
    assert(step == r.state.pending);
    match r.state.phase {
        Phase::BaseDir
        | Phase::SelfBindProbe
        | Phase::Binding
        | Phase::Privatizing
        | Phase::StatusProbe => lemma_fine_isolating(r, event),
        Phase::MountPoints
        | Phase::HelperStart
        | Phase::HelperNap { .. }
        | Phase::HelperLook { .. }
        | Phase::InitCheck { .. } => {
            assert(eager(step, event)) by {
                if step is InspectHelper {
                    assert(r.state.phase is HelperLook);
                }
            }
            lemma_fine_creating(r, event)
        },
        Phase::OverlayProbe { .. } | Phase::Overlay { .. } => lemma_fine_overlaying(r, event),
        Phase::Interfaces { .. }
        | Phase::PrivateNet { .. }
        | Phase::ContainerRoute { .. }
        | Phase::HostRoute { .. }
        | Phase::Forward { .. } => lemma_fine_networking(r, event),
        Phase::VpnScan { .. }
        | Phase::VpnStart { .. }
        | Phase::Settle { .. }
        | Phase::ProxyScan { .. }
        | Phase::ProxyStart => lemma_fine_serving(r, event),
        _ => {},
    }
}

proof fn lemma_fine_run(r: Run<UpModel>, n: nat)
    requires
        fine_inv(r),
    ensures
        fine_inv(up_run(r, up_answers(r, n))),
        n >= success_budget(r.state) ==> up_run(r, up_answers(r, n)).next == NextModel::Done(
            Ok(()),
        ),
    decreases n,
{
    if n > 0 {
        if let NextModel::Do(step) = r.next {
            let event = shown(r.host, r.state.base_dir, step);
            let rest = up_answers(r.answered(step, event), (n - 1) as nat);
            lemma_fine_step(r, step);
            lemma_fine_run(r.answered(step, event), (n - 1) as nat);
            assert((seq![event] + rest).drop_first() =~= rest);
            assert((seq![event] + rest)[0] == event);
        }
    }
}

/// Bring-up can succeed. For every host without mounted namespaces that lets
/// the init process show and whose default interface has a name without a
/// space, there are 37 events with which the host answers bring-up step by
/// step and after which bring-up has ended well.
pub proof fn law_up_can_succeed(base_dir: Seq<char>, host: Host)
    requires
        host.mounted == TypeSet::none(),
        host.child_shows,
        !host.iface.contains(' '),
    ensures
        exists|events: Seq<EventModel>|
            events.len() == 37 && up_honest(up_from(base_dir, host), events) && (
            #[trigger] up_run(up_from(base_dir, host), events)).next == NextModel::Done(Ok(())),
{
    let start = up_from(base_dir, host);
    lemma_up_answers(start, 37);
    lemma_fine_run(start, 37);
    let events = up_answers(start, 37);
    assert(events.len() == 37 && up_honest(start, events) && up_run(start, events).next
        == NextModel::Done(Ok(())));
}

} // verus!
