//! What bring-up achieves on a host that refuses nothing.

use crate::effect::{EventModel, NextModel, Step};
use crate::error::ErrorModel;
use crate::host::{up_from, up_honest, up_run, Host, Run};
use crate::namespace::TypeSet;
use crate::up::{Phase, UpModel};
use vstd::prelude::*;

verus! {

/// Whether the running script of bring-up ends with `last`: it is the
/// pending step, or the last of those still to come.
pub(crate) open spec fn ends_with(s: UpModel, last: Step) -> bool {
    s.pending == last || (s.script.len() > 0 && s.script.last() == last)
}

/// What bring-up has achieved on the host when it stands in a phase.
pub(crate) open spec fn up_reached(s: UpModel, h: Host) -> bool {
    let made = h.self_bound && h.mounted == TypeSet::all();
    match s.phase {
        Phase::BaseDir | Phase::SelfBindProbe | Phase::RollingBack | Phase::HelperCollect => true,
        Phase::Binding => s.pending == Step::BindBase,
        Phase::Privatizing | Phase::StatusProbe | Phase::MountPoints => h.self_bound,
        Phase::InitScan => made,
        Phase::HelperStart => h.self_bound && s.pending == Step::StartHelper,
        Phase::HelperNap { .. } | Phase::HelperLook { .. } => made,
        Phase::InitCheck { .. } => made,
        Phase::OverlayProbe { init } => made && h.init == Some(init),
        Phase::Overlay { init } => made && h.init == Some(init) && (h.overlay || ends_with(
            s,
            Step::MountOverlay(init),
        )),
        Phase::Interfaces { init } => made && h.init == Some(init) && h.overlay,
        Phase::PrivateNet { init } => made && h.init == Some(init) && h.overlay && (h.host_link
            || s.pending == Step::CreateLinkPair),
        Phase::ContainerRoute { init } | Phase::HostRoute { init } => made && h.init == Some(init)
            && h.overlay && h.host_link,
        Phase::Forward { init } => made && h.init == Some(init) && h.overlay && h.host_link && (
        h.container_route || ends_with(s, Step::AddDefaultRoute)),
        Phase::VpnScan { init } => made && h.init == Some(init) && h.overlay && h.host_link
            && h.container_route,
        Phase::VpnStart { init } => made && h.init == Some(init) && h.overlay && h.host_link
            && h.container_route && s.pending is StartVpn,
        Phase::Settle { init } | Phase::ProxyScan { init } => made && h.init == Some(init)
            && h.overlay && h.host_link && h.container_route && h.vpn,
        Phase::ProxyStart => made && h.init is Some && h.overlay && h.host_link
            && h.container_route && h.vpn && s.pending is StartProxy,
        Phase::Finished => true,
    }
}

/// Whether `step` may be the pending step of `phase`.
pub(crate) open spec fn up_fits(phase: Phase, step: Step) -> bool {
    match phase {
        Phase::BaseDir => step == Step::CreateBaseDir,
        Phase::SelfBindProbe | Phase::StatusProbe => step == Step::ReadMounts,
        Phase::Binding => step == Step::BindBase,
        Phase::Privatizing => step == Step::MakeBasePrivate,
        Phase::RollingBack => step == Step::UnmountBase,
        Phase::InitScan | Phase::VpnScan { .. } | Phase::ProxyScan { .. } => step
            == Step::ReadProcesses,
        Phase::MountPoints => step is CreateMountPoint,
        Phase::HelperStart => step == Step::StartHelper,
        Phase::HelperNap { .. } | Phase::Settle { .. } => step is Sleep,
        Phase::HelperLook { helper, .. } => step == Step::InspectHelper(helper),
        Phase::HelperCollect => step is CollectHelper,
        Phase::InitCheck { init } => step == Step::CheckAlive(init),
        Phase::OverlayProbe { init } => step == Step::ListMountsInside(init),
        Phase::Overlay { init } => step is CreateLayer || step == Step::WriteResolvConf || step
            == Step::WriteProxyConf || step == Step::MountOverlay(init),
        Phase::Interfaces { .. } => step == Step::ListInterfaces,
        Phase::PrivateNet { .. } => step == Step::CreateLinkPair || step
            == Step::AssignHostAddress || step == Step::RaiseHostLink || step
            == Step::AssignContainerAddress || step == Step::RaiseContainerLink,
        Phase::ContainerRoute { .. } => step == Step::QueryContainerRoute,
        Phase::HostRoute { .. } => step == Step::QueryHostRoute,
        Phase::Forward { .. } => step is AddRule || step == Step::AddDefaultRoute,
        Phase::VpnStart { init } => step == Step::StartVpn(init),
        Phase::ProxyStart => step is StartProxy,
        Phase::Finished => true,
    }
}

/// Whether `phase` runs a script.
pub(crate) open spec fn up_scripted(phase: Phase) -> bool {
    phase is MountPoints || phase is Overlay || phase is PrivateNet || phase is Forward
}

/// The invariant of a run of bring-up.
pub(crate) open spec fn up_inv(r: Run<UpModel>) -> bool {
    &&& r.state.phase != Phase::Finished ==> r.next == NextModel::Do(r.state.pending)
    &&& r.state.phase == Phase::Finished ==> r.next is Done
    &&& up_fits(r.state.phase, r.state.pending)
    &&& up_scripted(r.state.phase) || r.state.script.len() == 0
    &&& forall|i: int|
        0 <= i < r.state.script.len() ==> up_fits(r.state.phase, #[trigger] r.state.script[i])
    &&& up_reached(r.state, r.host)
    &&& r.next == NextModel::Done(Ok(())) ==> r.host.is_up()
}

proof fn lemma_up_serving(r: Run<UpModel>, event: EventModel)
    requires
        up_inv(r),
        r.state.phase is VpnScan || r.state.phase is VpnStart || r.state.phase is Settle
            || r.state.phase is ProxyScan || r.state.phase is ProxyStart,
        r.host.answers(r.state.base_dir, r.state.pending, event),
    ensures
        up_inv(r.answered(r.state.pending, event)),
{
}

proof fn lemma_up_isolating(r: Run<UpModel>, event: EventModel)
    requires
        up_inv(r),
        r.state.phase is BaseDir || r.state.phase is SelfBindProbe || r.state.phase is Binding
            || r.state.phase is Privatizing || r.state.phase is RollingBack
            || r.state.phase is StatusProbe || r.state.phase is InitScan,
        r.host.answers(r.state.base_dir, r.state.pending, event),
    ensures
        up_inv(r.answered(r.state.pending, event)),
{
}

proof fn lemma_up_creating(r: Run<UpModel>, event: EventModel)
    requires
        up_inv(r),
        r.state.phase is MountPoints || r.state.phase is HelperStart || r.state.phase is HelperNap
            || r.state.phase is HelperLook || r.state.phase is HelperCollect
            || r.state.phase is InitCheck,
        r.host.answers(r.state.base_dir, r.state.pending, event),
    ensures
        up_inv(r.answered(r.state.pending, event)),
{
}

proof fn lemma_up_overlaying(r: Run<UpModel>, event: EventModel)
    requires
        up_inv(r),
        r.state.phase is OverlayProbe || r.state.phase is Overlay,
        r.host.answers(r.state.base_dir, r.state.pending, event),
    ensures
        up_inv(r.answered(r.state.pending, event)),
{
}

proof fn lemma_up_networking(r: Run<UpModel>, event: EventModel)
    requires
        up_inv(r),
        r.state.phase is Interfaces || r.state.phase is PrivateNet
            || r.state.phase is ContainerRoute || r.state.phase is HostRoute
            || r.state.phase is Forward,
        r.host.answers(r.state.base_dir, r.state.pending, event),
    ensures
        up_inv(r.answered(r.state.pending, event)),
{
}

pub(crate) proof fn lemma_up_step(r: Run<UpModel>, step: Step, event: EventModel)
    requires
        up_inv(r),
        r.next == NextModel::Do(step),
        r.host.answers(r.state.base_dir, step, event),
    ensures
        up_inv(r.answered(step, event)),
{
    match r.state.phase {
        Phase::BaseDir
        | Phase::SelfBindProbe
        | Phase::Binding
        | Phase::Privatizing
        | Phase::RollingBack
        | Phase::StatusProbe
        | Phase::InitScan => lemma_up_isolating(r, event),
        Phase::MountPoints
        | Phase::HelperStart
        | Phase::HelperNap { .. }
        | Phase::HelperLook { .. }
        | Phase::HelperCollect
        | Phase::InitCheck { .. } => lemma_up_creating(r, event),
        Phase::OverlayProbe { .. } | Phase::Overlay { .. } => lemma_up_overlaying(r, event),
        Phase::Interfaces { .. }
        | Phase::PrivateNet { .. }
        | Phase::ContainerRoute { .. }
        | Phase::HostRoute { .. }
        | Phase::Forward { .. } => lemma_up_networking(r, event),
        Phase::VpnScan { .. }
        | Phase::VpnStart { .. }
        | Phase::Settle { .. }
        | Phase::ProxyScan { .. }
        | Phase::ProxyStart => lemma_up_serving(r, event),
        Phase::Finished => {},
    }
}

proof fn lemma_up_run(r: Run<UpModel>, events: Seq<EventModel>)
    requires
        up_inv(r),
        up_honest(r, events),
    ensures
        up_inv(up_run(r, events)),
    decreases events.len(),
{
    if let NextModel::Do(step) = r.next {
        if events.len() > 0 {
            lemma_up_step(r, step, events[0]);
            lemma_up_run(r.answered(step, events[0]), events.drop_first());
        }
    }
}

/// Bring-up that ends well has brought the container up. On a host that
/// refuses nothing, whatever it held before: when the workflow reports
/// success, the base directory is bound onto itself, all four namespaces are
/// mounted and their init process lives, `/etc` is overlaid, the veth pair
/// and the container's default route exist, and both services run.
pub proof fn law_up_brings_up(base_dir: Seq<char>, host: Host, events: Seq<EventModel>)
    requires
        up_honest(up_from(base_dir, host), events),
    ensures
        up_run(up_from(base_dir, host), events).next == NextModel::Done(Ok(())) ==> up_run(
            up_from(base_dir, host),
            events,
        ).host.is_up(),
{
    lemma_up_run(up_from(base_dir, host), events);
}

/// Whether a step leaves a host as it is: it asks, or pauses, or creates the
/// base directory, which is done only where the directory is missing.
pub open spec fn changes_nothing(step: Step) -> bool {
    step is CreateBaseDir || step is ReadMounts || step is ReadProcesses || step is ListInterfaces
        || step is ListMountsInside || step is QueryContainerRoute || step is Sleep
}

/// Whether a run has handed out only steps that change nothing, and has not
/// failed.
pub open spec fn changed_nothing<S>(r: Run<S>) -> bool {
    &&& forall|i: int| 0 <= i < r.done.len() ==> changes_nothing(#[trigger] r.done[i])
    &&& r.next matches NextModel::Do(step) ==> changes_nothing(step)
    &&& r.next matches NextModel::Done(result) ==> result is Ok
}

/// The invariant of a run of bring-up on a host where the container is up.
spec fn quiet_inv(r: Run<UpModel>, host: Host) -> bool {
    &&& up_inv(r)
    &&& r.host == host
    &&& host.is_up()
    &&& changed_nothing(r)
    &&& r.state.phase is BaseDir || r.state.phase is SelfBindProbe || r.state.phase is StatusProbe
        || r.state.phase is InitScan || r.state.phase is OverlayProbe
        || r.state.phase is Interfaces || r.state.phase is ContainerRoute
        || r.state.phase is VpnScan || r.state.phase is Settle || r.state.phase is ProxyScan
        || r.state.phase is Finished
}

proof fn lemma_quiet_step(r: Run<UpModel>, host: Host, step: Step, event: EventModel)
    requires
        quiet_inv(r, host),
        r.next == NextModel::Do(step),
        r.host.answers(r.state.base_dir, step, event),
    ensures
        quiet_inv(r.answered(step, event), host),
{
    lemma_up_step(r, step, event);
    let q = r.answered(step, event);
    assert forall|i: int| 0 <= i < q.done.len() implies changes_nothing(#[trigger] q.done[i]) by {
        if i < r.done.len() {
            assert(q.done[i] == r.done[i]);
        }
    }
}

proof fn lemma_quiet_run(r: Run<UpModel>, host: Host, events: Seq<EventModel>)
    requires
        quiet_inv(r, host),
        up_honest(r, events),
    ensures
        quiet_inv(up_run(r, events), host),
    decreases events.len(),
{
    if let NextModel::Do(step) = r.next {
        if events.len() > 0 {
            lemma_quiet_step(r, host, step, events[0]);
            lemma_quiet_run(r.answered(step, events[0]), host, events.drop_first());
        }
    }
}

/// Bring-up of a container that is up changes nothing. On such a host the
/// workflow hands out only questions and pauses: it creates no namespaces,
/// no veth pair, no firewall rule and starts no service. The host is left as
/// it was, and the workflow does not fail.
pub proof fn law_up_again_changes_nothing(base_dir: Seq<char>, host: Host, events: Seq<EventModel>)
    requires
        host.is_up(),
        up_honest(up_from(base_dir, host), events),
    ensures
        up_run(up_from(base_dir, host), events).host == host,
        changed_nothing(up_run(up_from(base_dir, host), events)),
{
    lemma_quiet_run(up_from(base_dir, host), host, events);
}

/// Bring-up is idempotent. After a bring-up that ended well, a second one on
/// the host as the first left it changes nothing and does not fail.
pub proof fn law_up_is_idempotent(
    base_dir: Seq<char>,
    host: Host,
    first: Seq<EventModel>,
    second: Seq<EventModel>,
)
    requires
        up_honest(up_from(base_dir, host), first),
        up_run(up_from(base_dir, host), first).next == NextModel::Done(Ok(())),
        up_honest(up_from(base_dir, up_run(up_from(base_dir, host), first).host), second),
    ensures
        ({
            let between = up_run(up_from(base_dir, host), first).host;
            let end = up_run(up_from(base_dir, between), second);
            end.host == between && changed_nothing(end)
        }),
{
    law_up_brings_up(base_dir, host, first);
    let between = up_run(up_from(base_dir, host), first).host;
    law_up_again_changes_nothing(base_dir, between, second);
}

/// The number of events after which bring-up is over at the latest, where
/// the init process never shows up.
spec fn stall_budget(s: UpModel) -> int {
    match s.phase {
        Phase::BaseDir => 92,
        Phase::SelfBindProbe => 91,
        Phase::Binding => 90,
        Phase::Privatizing => 89,
        Phase::StatusProbe => 88,
        Phase::MountPoints => 84 + s.script.len() as int,
        Phase::HelperStart => 83,
        Phase::HelperNap { waited, .. } => 2 * ((1000 - waited) / 25) + 2,
        Phase::HelperLook { waited, .. } => 2 * ((1000 - waited) / 25) + 1,
        _ => 0,
    }
}

/// The invariant of a run of bring-up on a host without mounted namespaces
/// where the init process never shows up.
spec fn stall_inv(r: Run<UpModel>) -> bool {
    &&& up_inv(r)
    &&& !r.host.child_shows
    &&& match r.state.phase {
        Phase::BaseDir
        | Phase::SelfBindProbe
        | Phase::Binding
        | Phase::Privatizing
        | Phase::StatusProbe => r.host.mounted == TypeSet::none(),
        Phase::MountPoints => r.state.script.len() <= 3,
        Phase::HelperStart => true,
        Phase::HelperNap { waited, .. } | Phase::HelperLook { waited, .. } => waited % 25 == 0
            && waited <= 1000,
        Phase::Finished => r.next == NextModel::Done(
            Err::<(), ErrorModel>(ErrorModel::Timeout),
        ),
        _ => false,
    }
}

proof fn lemma_stall_step(r: Run<UpModel>, step: Step, event: EventModel)
    requires
        stall_inv(r),
        r.next == NextModel::Do(step),
        r.host.answers(r.state.base_dir, step, event),
    ensures
        stall_inv(r.answered(step, event)),
        stall_budget(r.answered(step, event).state) < stall_budget(r.state),
        0 <= stall_budget(r.answered(step, event).state),
{
    lemma_up_step(r, step, event);
}

proof fn lemma_stall_run(r: Run<UpModel>, events: Seq<EventModel>)
    requires
        stall_inv(r),
        up_honest(r, events),
    ensures
        stall_inv(up_run(r, events)),
        events.len() >= stall_budget(r.state) ==> up_run(r, events).next is Done,
    decreases events.len(),
{
    if let NextModel::Do(step) = r.next {
        if events.len() > 0 {
            lemma_stall_step(r, step, events[0]);
            lemma_stall_run(r.answered(step, events[0]), events.drop_first());
        }
    }
}

/// Namespace creation gives up in time. On a host that refuses nothing, has
/// no namespace mounted and on which the init process never shows up as the
/// child of the helper, bring-up never comes to know an init process; it can
/// only end with `Timeout`, and it has ended after 92 answers at the latest.
pub proof fn law_creation_times_out(base_dir: Seq<char>, host: Host, events: Seq<EventModel>)
    requires
        host.mounted == TypeSet::none(),
        !host.child_shows,
        up_honest(up_from(base_dir, host), events),
    ensures
        ({
            let end = up_run(up_from(base_dir, host), events);
            &&& end.state.phase.init() is None
            &&& end.next is Done ==> end.next == NextModel::Done(
                Err::<(), ErrorModel>(ErrorModel::Timeout),
            )
            &&& events.len() >= 92 ==> end.next is Done
        }),
{
    lemma_stall_run(up_from(base_dir, host), events);
}

/// The number of answers after which bring-up is over at the latest.
spec fn up_budget(s: UpModel) -> int {
    match s.phase {
        Phase::BaseDir => 117,
        Phase::SelfBindProbe => 116,
        Phase::Binding => 115,
        Phase::Privatizing => 114,
        Phase::StatusProbe => 113,
        Phase::MountPoints => 109 + s.script.len() as int,
        Phase::HelperStart => 108,
        Phase::HelperNap { waited, .. } => 27 + 2 * ((1000 - waited) / 25),
        Phase::HelperLook { waited, .. } => 26 + 2 * ((1000 - waited) / 25),
        Phase::InitCheck { .. } | Phase::InitScan => 25,
        Phase::OverlayProbe { .. } => 24,
        Phase::Overlay { .. } => 18 + s.script.len() as int,
        Phase::Interfaces { .. } => 17,
        Phase::PrivateNet { .. } => 12 + s.script.len() as int,
        Phase::ContainerRoute { .. } => 11,
        Phase::HostRoute { .. } => 10,
        Phase::Forward { .. } => 6 + s.script.len() as int,
        Phase::VpnScan { .. } => 5,
        Phase::VpnStart { .. } => 4,
        Phase::Settle { .. } => 3,
        Phase::ProxyScan { .. } => 2,
        Phase::ProxyStart | Phase::RollingBack | Phase::HelperCollect => 1,
        Phase::Finished => 0,
    }
}

/// The invariant of any run of bring-up: the scripts are short, and the
/// pauses add up to no more than the ceiling.
spec fn paced_inv(r: Run<UpModel>) -> bool {
    &&& r.state.phase != Phase::Finished ==> r.next is Do
    &&& r.state.phase == Phase::Finished ==> r.next is Done
    &&& match r.state.phase {
        Phase::MountPoints => r.state.script.len() <= 3,
        Phase::Overlay { .. } => r.state.script.len() <= 5,
        Phase::PrivateNet { .. } => r.state.script.len() <= 4,
        Phase::Forward { .. } => r.state.script.len() <= 3,
        Phase::HelperNap { waited, .. } | Phase::HelperLook { waited, .. } => waited % 25 == 0
            && waited <= 1000,
        _ => true,
    }
}

proof fn lemma_paced_early(r: Run<UpModel>, step: Step, event: EventModel)
    requires
        paced_inv(r),
        r.state.phase is BaseDir || r.state.phase is SelfBindProbe || r.state.phase is Binding
            || r.state.phase is Privatizing || r.state.phase is RollingBack
            || r.state.phase is StatusProbe || r.state.phase is InitScan,
    ensures
        paced_inv(r.answered(step, event)),
        0 <= up_budget(r.answered(step, event).state) < up_budget(r.state),
{
}

proof fn lemma_paced_creating(r: Run<UpModel>, step: Step, event: EventModel)
    requires
        paced_inv(r),
        r.state.phase is MountPoints || r.state.phase is HelperStart || r.state.phase is HelperNap
            || r.state.phase is HelperLook || r.state.phase is HelperCollect
            || r.state.phase is InitCheck,
    ensures
        paced_inv(r.answered(step, event)),
        0 <= up_budget(r.answered(step, event).state) < up_budget(r.state),
{
}

proof fn lemma_paced_late(r: Run<UpModel>, step: Step, event: EventModel)
    requires
        paced_inv(r),
        r.state.phase is OverlayProbe || r.state.phase is Overlay || r.state.phase is Interfaces
            || r.state.phase is PrivateNet || r.state.phase is ContainerRoute
            || r.state.phase is HostRoute || r.state.phase is Forward || r.state.phase is VpnScan
            || r.state.phase is VpnStart || r.state.phase is Settle || r.state.phase is ProxyScan
            || r.state.phase is ProxyStart,
    ensures
        paced_inv(r.answered(step, event)),
        0 <= up_budget(r.answered(step, event).state) < up_budget(r.state),
{
}

proof fn lemma_paced_run(r: Run<UpModel>, events: Seq<EventModel>)
    requires
        paced_inv(r),
        events.len() >= up_budget(r.state),
    ensures
        up_run(r, events).next is Done,
    decreases events.len(),
{
    if let NextModel::Do(step) = r.next {
        if events.len() > 0 {
            let event = events[0];
            match r.state.phase {
                Phase::BaseDir
                | Phase::SelfBindProbe
                | Phase::Binding
                | Phase::Privatizing
                | Phase::RollingBack
                | Phase::StatusProbe
                | Phase::InitScan => lemma_paced_early(r, step, event),
                Phase::MountPoints
                | Phase::HelperStart
                | Phase::HelperNap { .. }
                | Phase::HelperLook { .. }
                | Phase::HelperCollect
                | Phase::InitCheck { .. } => lemma_paced_creating(r, step, event),
                _ => lemma_paced_late(r, step, event),
            }
            lemma_paced_run(r.answered(step, event), events.drop_first());
        }
    }
}

/// Bring-up comes to an end. Whatever the answers are, it is over after 117
/// of them at the latest.
pub proof fn law_up_ends(base_dir: Seq<char>, host: Host, events: Seq<EventModel>)
    requires
        events.len() >= 117,
    ensures
        up_run(up_from(base_dir, host), events).next is Done,
{
    lemma_paced_run(up_from(base_dir, host), events);
}

} // verus!
