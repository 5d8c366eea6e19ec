//! Bring-up: the base directory is isolated, the namespaces are created or
//! found, `/etc` is overlaid, the network is set up and the two services are
//! started.
//!
//! The workflow is a state machine. `start` hands out the first step; `up`
//! takes the event that answers the step handed out last and hands out the
//! next one, until it reports the result. What it decides is stated by the
//! model functions of this module, over the views of state and event.

use crate::effect::{
    Event, EventModel, Helper, HelperModel, Layer, Next, NextModel, Processes, ProcessesModel,
    Request, Step,
};
use crate::error::{judge, judged, Desync, Error, ErrorModel, Shape};
use crate::fixed::{INIT, OVERLAY_MARK, POLL_CEILING_MS, POLL_INTERVAL_MS, PROXY, SETTLE_MS, VPN};
use crate::lower::{lower, lowered};
use crate::namespace::{
    all_ns_processes, in_pid_ns, status, status_of, Mounts, MountsModel, Process, ProcessModel,
    Status, Type,
};
use crate::net::{
    default_route_iface_name, external_forward, external_networking, host_iface,
    private_networking, setup_external_forward, setup_external_networking,
    setup_private_networking,
};
use crate::text::{contains, first_where, lemma_first_where_is, occurs, same};
use vstd::prelude::*;
use vstd::string::StringSliceAdditionalSpecFns;

verus! {

/// Where bring-up stands: the answer to which step it waits for.
#[derive(Debug, Clone, Copy, PartialEq, Eq, Structural)]
pub enum Phase {
    /// The base directory is being created.
    BaseDir,
    /// The mount table is being read, to see whether the base directory is
    /// bound onto itself.
    SelfBindProbe,
    /// The base directory is being bound onto itself.
    Binding,
    /// The bind mount is being made private.
    Privatizing,
    /// The bind mount is being taken back, because it could not be made
    /// private.
    RollingBack,
    /// The mount table is being read, for the status of the namespace set.
    StatusProbe,
    /// The process table is being read, to find the init process of the
    /// mounted namespaces.
    InitScan,
    /// The mount points are being created.
    MountPoints,
    /// The namespace helper is being started.
    HelperStart,
    /// A pause before the next look at the helper. `waited` is the sum of
    /// the pauses since the first look, in milliseconds.
    HelperNap { helper: u32, waited: u64 },
    /// The helper is being looked at.
    HelperLook { helper: u32, waited: u64 },
    /// The dead helper is being collected.
    HelperCollect,
    /// The init process is being checked for life.
    InitCheck { init: u32 },
    /// The mounts inside the namespaces are being listed.
    OverlayProbe { init: u32 },
    /// The overlay is being made.
    Overlay { init: u32 },
    /// The interfaces of the host are being listed.
    Interfaces { init: u32 },
    /// The private link is being set up.
    PrivateNet { init: u32 },
    /// The default route of the container is being asked for.
    ContainerRoute { init: u32 },
    /// The default route of the host is being asked for.
    HostRoute { init: u32 },
    /// The connection to the outside is being set up.
    Forward { init: u32 },
    /// The process table is being read, to see whether the VPN client runs.
    VpnScan { init: u32 },
    /// The VPN client is being started.
    VpnStart { init: u32 },
    /// The pause that lets the VPN client settle.
    Settle { init: u32 },
    /// The process table is being read, to see whether the proxy runs.
    ProxyScan { init: u32 },
    /// The proxy is being started.
    ProxyStart,
    /// The workflow is over.
    Finished,
}

impl Phase {
    /// The init process of the namespaces, in the phases that know it.
    pub open spec fn init(self) -> Option<u32> {
        match self {
            Phase::InitCheck { init }
            | Phase::OverlayProbe { init }
            | Phase::Overlay { init }
            | Phase::Interfaces { init }
            | Phase::PrivateNet { init }
            | Phase::ContainerRoute { init }
            | Phase::HostRoute { init }
            | Phase::Forward { init }
            | Phase::VpnScan { init }
            | Phase::VpnStart { init }
            | Phase::Settle { init }
            | Phase::ProxyScan { init } => Some(init),
            _ => None,
        }
    }
}

/// The state of bring-up.
#[derive(Debug)]
pub struct Up {
    /// The base directory.
    pub base_dir: String,
    /// The phase.
    pub phase: Phase,
    /// The step handed out last.
    pub pending: Step,
    /// The steps of the running script that are still to be handed out.
    pub script: Vec<Step>,
    /// The default interface of the host; empty until it is known.
    pub iface: String,
    /// The reason of the failure that is being rolled back.
    pub reason: String,
}

/// The mathematical content of an `Up`.
#[verifier::ext_equal]
pub struct UpModel {
    pub base_dir: Seq<char>,
    pub phase: Phase,
    pub pending: Step,
    pub script: Seq<Step>,
    pub iface: Seq<char>,
    pub reason: Seq<char>,
}

impl View for Up {
    type V = UpModel;

    open spec fn view(&self) -> UpModel {
        UpModel {
            base_dir: self.base_dir@,
            phase: self.phase,
            pending: self.pending,
            script: self.script@,
            iface: self.iface@,
            reason: self.reason@,
        }
    }
}

/// The views of a state and of what it wants next.
pub open spec fn turn(r: (Up, Next)) -> (UpModel, NextModel) {
    (r.0@, r.1@)
}

impl UpModel {
    /// The workflow ends with `error`.
    pub open spec fn stop(self, error: ErrorModel) -> (UpModel, NextModel) {
        (UpModel { phase: Phase::Finished, ..self }, NextModel::Done(Err(error)))
    }

    /// The workflow ends well.
    pub open spec fn finish(self) -> (UpModel, NextModel) {
        (UpModel { phase: Phase::Finished, ..self }, NextModel::Done(Ok(())))
    }

    /// The workflow goes on to `phase` and hands out `step`.
    pub open spec fn go(self, phase: Phase, step: Step) -> (UpModel, NextModel) {
        (UpModel { phase, pending: step, ..self }, NextModel::Do(step))
    }

    /// The workflow runs the script `steps` in `phase`, or, where the script
    /// is empty, goes straight on to `then` with `after`.
    pub open spec fn run(self, phase: Phase, steps: Seq<Step>, then: Phase, after: Step) -> (
        UpModel,
        NextModel,
    ) {
        if steps.len() == 0 {
            self.go(then, after)
        } else {
            (UpModel { script: steps.drop_first(), ..self }).go(phase, steps[0])
        }
    }

    /// The operation that carries out `step` in this state.
    pub open spec fn request(self, step: Step) -> crate::effect::RequestModel {
        lowered(self.base_dir, self.iface, step)
    }
}

/// The error that an event amounts to where it does not answer the pending
/// step: the refusal of the system, or a mismatch.
pub open spec fn refusal(event: EventModel) -> ErrorModel {
    match event {
        EventModel::Failed(reason) => ErrorModel::Io(reason),
        _ => ErrorModel::Parse(Shape::Mismatch),
    }
}

/// Whether `event` reports that the mandatory `step` was carried out: a
/// change has to be done, a command has to end successfully.
pub open spec fn settled(step: Step, event: EventModel) -> Result<(), ErrorModel> {
    match event {
        EventModel::Done => if step.is_command() {
            Err(ErrorModel::Parse(Shape::Mismatch))
        } else {
            Ok(())
        },
        EventModel::Output(output) => if step.is_command() {
            match judged(step.program(), output) {
                Ok(_) => Ok(()),
                Err(e) => Err(e),
            }
        } else {
            Err(ErrorModel::Parse(Shape::Mismatch))
        },
        _ => Err(refusal(event)),
    }
}

/// The reason given where the base directory does not resolve.
pub open spec fn unresolved() -> Seq<char> {
    "the base directory does not resolve"@
}

/// The reason given where the pid mount point cannot be read.
pub open spec fn unreadable_anchor() -> Seq<char> {
    "the pid mount point cannot be read"@
}

/// The reason given where the command line of a process cannot be read.
pub open spec fn unreadable_cmdline() -> Seq<char> {
    "the command line of a process in the namespace cannot be read"@
}

/// Whether the base directory is bound onto itself according to the
/// snapshot; an error where the base directory does not resolve.
pub open spec fn self_bound(mounts: MountsModel) -> Result<bool, ErrorModel> {
    match mounts.base.canonical {
        Some(dir) => Ok(mounts.has_self_bind_of(dir)),
        None => Err(ErrorModel::Io(unresolved())),
    }
}

/// The four mount points to create, in order.
pub open spec fn mount_points() -> Seq<Step> {
    seq![
        Step::CreateMountPoint(Type::User),
        Step::CreateMountPoint(Type::Pid),
        Step::CreateMountPoint(Type::Mount),
        Step::CreateMountPoint(Type::Net),
    ]
}

/// What a look at the namespace helper leads to.
#[derive(Debug, Clone, Copy, PartialEq, Eq, Structural)]
pub enum Poll {
    /// The helper is dead.
    Exited,
    /// The helper has an unexpected shape.
    Odd(Shape),
    /// The init process has this process id.
    Found(u32),
    /// The wait is over.
    TimedOut,
    /// Look again after a pause.
    Wait,
}

/// What to make of the helper after `waited` milliseconds of pauses.
pub open spec fn polled(helper: HelperModel, waited: u64) -> Poll {
    if !helper.alive {
        Poll::Exited
    } else if helper.tasks != 1 {
        Poll::Odd(Shape::Tasks(helper.tasks))
    } else if helper.children.len() > 1 {
        Poll::Odd(Shape::Children(helper.children.len() as usize))
    } else if helper.children.len() == 1 {
        Poll::Found(helper.children[0])
    } else if waited >= POLL_CEILING_MS {
        Poll::TimedOut
    } else {
        Poll::Wait
    }
}

/// The init process of the mounted namespaces according to the process
/// table: the first process of the pid namespace whose first command-line
/// word is the init supervisor. An unreadable command line before it is an
/// error, as is an unreadable pid mount point.
pub open spec fn init_process(processes: ProcessesModel) -> Result<Option<u32>, ErrorModel> {
    match processes.pid_ns_id {
        None => Err(ErrorModel::Io(unreadable_anchor())),
        Some(id) => {
            let inside = in_pid_ns(processes.list, id);
            let i = first_where(
                inside,
                |p: ProcessModel| p.cmdline is None || p.is(INIT@),
            );
            if 0 <= i < inside.len() {
                if inside[i].cmdline is None {
                    Err(ErrorModel::Io(unreadable_cmdline()))
                } else {
                    Ok(Some(inside[i].pid))
                }
            } else {
                Ok(None)
            }
        },
    }
}

/// Whether some process runs `name`: its first command-line word ends with
/// it.
pub open spec fn running(name: Seq<char>, list: Seq<ProcessModel>) -> bool {
    exists|i: int| 0 <= i < list.len() && (#[trigger] list[i]).runs(name)
}

/// The steps that make the overlay on `/etc`, given what the mount listing
/// inside the namespaces printed: none where it shows the overlay.
pub open spec fn etc_overlay(listing: Seq<u8>, init: u32) -> Seq<Step> {
    if occurs(listing, OVERLAY_MARK.spec_bytes()) {
        seq![]
    } else {
        seq![
            Step::CreateLayer(Layer::ExtraLower),
            Step::CreateLayer(Layer::Upper),
            Step::CreateLayer(Layer::Work),
            Step::WriteResolvConf,
            Step::WriteProxyConf,
            Step::MountOverlay(init),
        ]
    }
}

/// The state in which bring-up starts, and its first step.
pub open spec fn started(base_dir: Seq<char>) -> (UpModel, NextModel) {
    (
        UpModel {
            base_dir,
            phase: Phase::BaseDir,
            pending: Step::CreateBaseDir,
            script: seq![],
            iface: seq![],
            reason: seq![],
        },
        NextModel::Do(Step::CreateBaseDir),
    )
}

/// What bring-up does on `event` while it makes sure of the base directory
/// and looks whether it is bound onto itself.
pub open spec fn isolating(s: UpModel, event: EventModel) -> (UpModel, NextModel) {
    match s.phase {
        Phase::BaseDir => match event {
            EventModel::Done => s.go(Phase::SelfBindProbe, Step::ReadMounts),
            _ => s.stop(refusal(event)),
        },
        _ => match event {
            EventModel::Mounts(mounts) => match self_bound(mounts) {
                Ok(true) => s.go(Phase::StatusProbe, Step::ReadMounts),
                Ok(false) => s.go(Phase::Binding, Step::BindBase),
                Err(e) => s.stop(e),
            },
            _ => s.stop(refusal(event)),
        },
    }
}

/// What bring-up does on `event` while the base directory is being bound
/// onto itself: after the bind mount the mount is made private; where that
/// fails the bind mount is taken back, and the workflow ends with the
/// failure.
pub open spec fn binding(s: UpModel, event: EventModel) -> (UpModel, NextModel) {
    match s.phase {
        Phase::Binding => match event {
            EventModel::Done => s.go(Phase::Privatizing, Step::MakeBasePrivate),
            _ => s.stop(refusal(event)),
        },
        Phase::Privatizing => match event {
            EventModel::Done => s.go(Phase::StatusProbe, Step::ReadMounts),
            EventModel::Failed(reason) => (UpModel { reason, ..s }).go(
                Phase::RollingBack,
                Step::UnmountBase,
            ),
            _ => s.stop(refusal(event)),
        },
        _ => s.stop(ErrorModel::Io(s.reason)),
    }
}

/// What bring-up does on `event` when it learns the status of the namespace
/// set, or looks for the init process of a mounted set.
pub open spec fn locating(s: UpModel, event: EventModel) -> (UpModel, NextModel) {
    match s.phase {
        Phase::StatusProbe => match event {
            EventModel::Mounts(mounts) => match status_of(mounts.mounted_set(s.base_dir)) {
                Status::Ready => s.go(Phase::InitScan, Step::ReadProcesses),
                Status::Partial(set) => s.stop(ErrorModel::Desync(Desync::Partial(set))),
                Status::Unmounted => s.run(
                    Phase::MountPoints,
                    mount_points(),
                    Phase::HelperStart,
                    Step::StartHelper,
                ),
            },
            _ => s.stop(refusal(event)),
        },
        _ => match event {
            EventModel::Processes(processes) => match init_process(processes) {
                Ok(Some(init)) => s.go(Phase::OverlayProbe { init }, Step::ListMountsInside(init)),
                Ok(None) => s.stop(ErrorModel::Desync(Desync::InitMissing)),
                Err(e) => s.stop(e),
            },
            _ => s.stop(refusal(event)),
        },
    }
}

/// What a script phase does on `event`: the pending step has to be settled;
/// then the next step of the script is handed out, or, after the last, the
/// workflow goes on to `then` with `after`.
pub open spec fn scripted(s: UpModel, event: EventModel, then: Phase, after: Step) -> (
    UpModel,
    NextModel,
) {
    match settled(s.pending, event) {
        Ok(_) => s.run(s.phase, s.script, then, after),
        Err(e) => s.stop(e),
    }
}

/// What bring-up does on `event` while the namespaces are being created.
pub open spec fn creating(s: UpModel, event: EventModel) -> (UpModel, NextModel) {
    match s.phase {
        Phase::MountPoints => scripted(s, event, Phase::HelperStart, Step::StartHelper),
        Phase::HelperStart => match event {
            EventModel::Spawned(helper) => s.go(
                Phase::HelperNap { helper, waited: 0 },
                Step::Sleep(POLL_INTERVAL_MS),
            ),
            _ => s.stop(refusal(event)),
        },
        Phase::HelperNap { helper, waited } => match event {
            EventModel::Done => s.go(
                Phase::HelperLook { helper, waited },
                Step::InspectHelper(helper),
            ),
            _ => s.stop(refusal(event)),
        },
        Phase::HelperLook { helper, waited } => match event {
            EventModel::Helper(seen) => match polled(seen, waited) {
                Poll::Exited => s.go(Phase::HelperCollect, Step::CollectHelper(helper)),
                Poll::Odd(shape) => s.stop(ErrorModel::Parse(shape)),
                Poll::Found(init) => s.go(Phase::InitCheck { init }, Step::CheckAlive(init)),
                Poll::TimedOut => s.stop(ErrorModel::Timeout),
                Poll::Wait => s.go(
                    Phase::HelperNap { helper, waited: (waited + POLL_INTERVAL_MS) as u64 },
                    Step::Sleep(POLL_INTERVAL_MS),
                ),
            },
            _ => s.stop(refusal(event)),
        },
        Phase::HelperCollect => match event {
            EventModel::Output(output) => s.stop(
                ErrorModel::ExecutionFailed { program: Step::StartHelper.program(), output },
            ),
            _ => s.stop(refusal(event)),
        },
        Phase::InitCheck { init } => match event {
            EventModel::Alive(true) => s.go(
                Phase::OverlayProbe { init },
                Step::ListMountsInside(init),
            ),
            EventModel::Alive(false) => s.stop(ErrorModel::Desync(Desync::InitDied)),
            _ => s.stop(refusal(event)),
        },
        _ => s.stop(ErrorModel::Parse(Shape::Mismatch)),
    }
}

/// What bring-up does on `event` while `/etc` is being overlaid.
pub open spec fn overlaying(s: UpModel, event: EventModel) -> (UpModel, NextModel) {
    match s.phase {
        Phase::OverlayProbe { init } => match event {
            EventModel::Output(output) => s.run(
                Phase::Overlay { init },
                etc_overlay(output.stdout, init),
                Phase::Interfaces { init },
                Step::ListInterfaces,
            ),
            _ => s.stop(refusal(event)),
        },
        Phase::Overlay { init } => scripted(
            s,
            event,
            Phase::Interfaces { init },
            Step::ListInterfaces,
        ),
        _ => s.stop(ErrorModel::Parse(Shape::Mismatch)),
    }
}

/// What bring-up does on `event` while the network is being set up.
pub open spec fn networking(s: UpModel, event: EventModel) -> (UpModel, NextModel) {
    match s.phase {
        Phase::Interfaces { init } => match event {
            EventModel::Interfaces(names) => s.run(
                Phase::PrivateNet { init },
                private_networking(names),
                Phase::ContainerRoute { init },
                Step::QueryContainerRoute,
            ),
            _ => s.stop(refusal(event)),
        },
        Phase::PrivateNet { init } => scripted(
            s,
            event,
            Phase::ContainerRoute { init },
            Step::QueryContainerRoute,
        ),
        Phase::ContainerRoute { init } => match event {
            EventModel::Output(output) => match external_networking(output) {
                Ok(None) => s.go(Phase::VpnScan { init }, Step::ReadProcesses),
                Ok(Some(step)) => s.go(Phase::HostRoute { init }, step),
                Err(e) => s.stop(e),
            },
            _ => s.stop(refusal(event)),
        },
        Phase::HostRoute { init } => match event {
            EventModel::Output(output) => match host_iface(output) {
                Ok(iface) => (UpModel { iface, ..s }).run(
                    Phase::Forward { init },
                    external_forward(),
                    Phase::VpnScan { init },
                    Step::ReadProcesses,
                ),
                Err(e) => s.stop(e),
            },
            _ => s.stop(refusal(event)),
        },
        Phase::Forward { init } => scripted(s, event, Phase::VpnScan { init }, Step::ReadProcesses),
        _ => s.stop(ErrorModel::Parse(Shape::Mismatch)),
    }
}

/// What bring-up does on `event` while the services are being started.
pub open spec fn serving(s: UpModel, event: EventModel) -> (UpModel, NextModel) {
    match s.phase {
        Phase::VpnScan { init } => match event {
            EventModel::Processes(processes) => if running(VPN@, processes.list) {
                s.go(Phase::Settle { init }, Step::Sleep(SETTLE_MS))
            } else {
                s.go(Phase::VpnStart { init }, Step::StartVpn(init))
            },
            _ => s.stop(refusal(event)),
        },
        Phase::VpnStart { init } => match event {
            EventModel::Spawned(_) => s.go(Phase::Settle { init }, Step::Sleep(SETTLE_MS)),
            _ => s.stop(refusal(event)),
        },
        Phase::Settle { init } => match event {
            EventModel::Done => s.go(Phase::ProxyScan { init }, Step::ReadProcesses),
            _ => s.stop(refusal(event)),
        },
        Phase::ProxyScan { init } => match event {
            EventModel::Processes(processes) => if running(PROXY@, processes.list) {
                s.finish()
            } else {
                s.go(Phase::ProxyStart, Step::StartProxy(init))
            },
            _ => s.stop(refusal(event)),
        },
        Phase::ProxyStart => match event {
            EventModel::Spawned(_) => s.finish(),
            _ => s.stop(refusal(event)),
        },
        _ => s.stop(ErrorModel::Parse(Shape::Mismatch)),
    }
}

/// What bring-up does on `event`: the state it goes to, and what it wants
/// next.
pub open spec fn stepped(s: UpModel, event: EventModel) -> (UpModel, NextModel) {
    match s.phase {
        Phase::BaseDir | Phase::SelfBindProbe => isolating(s, event),
        Phase::Binding | Phase::Privatizing | Phase::RollingBack => binding(s, event),
        Phase::StatusProbe | Phase::InitScan => locating(s, event),
        Phase::MountPoints
        | Phase::HelperStart
        | Phase::HelperNap { .. }
        | Phase::HelperLook { .. }
        | Phase::HelperCollect
        | Phase::InitCheck { .. } => creating(s, event),
        Phase::OverlayProbe { .. } | Phase::Overlay { .. } => overlaying(s, event),
        Phase::Interfaces { .. }
        | Phase::PrivateNet { .. }
        | Phase::ContainerRoute { .. }
        | Phase::HostRoute { .. }
        | Phase::Forward { .. } => networking(s, event),
        Phase::VpnScan { .. }
        | Phase::VpnStart { .. }
        | Phase::Settle { .. }
        | Phase::ProxyScan { .. }
        | Phase::ProxyStart => serving(s, event),
        Phase::Finished => s.stop(ErrorModel::Parse(Shape::Mismatch)),
    }
}

/// The model of a result without a value.
pub open spec fn unit_view(r: Result<(), Error>) -> Result<(), ErrorModel> {
    match r {
        Ok(_) => Ok(()),
        Err(e) => Err(e@),
    }
}

/// The model of a result that holds a flag.
pub open spec fn flag_view(r: Result<bool, Error>) -> Result<bool, ErrorModel> {
    match r {
        Ok(b) => Ok(b),
        Err(e) => Err(e@),
    }
}

/// The model of a result that may hold a process id.
pub open spec fn pid_view(r: Result<Option<u32>, Error>) -> Result<Option<u32>, ErrorModel> {
    match r {
        Ok(p) => Ok(p),
        Err(e) => Err(e@),
    }
}

/// The error that an event amounts to where it does not answer the pending
/// step.
pub fn refuse(event: Event) -> (r: Error)
    ensures
        r@ == refusal(event@),
{
    match event {
        Event::Failed(reason) => Error::Io(reason),
        _ => Error::Parse(Shape::Mismatch),
    }
}

/// Judges the answer to a mandatory step: `Ok` exactly when a change was
/// done or a command ended successfully.
pub fn settle(step: Step, event: Event) -> (r: Result<(), Error>)
    ensures
        unit_view(r) == settled(step, event@),
{
    match event {
        Event::Done => if step.runs_command() {
            Err(Error::Parse(Shape::Mismatch))
        } else {
            Ok(())
        },
        Event::Output(output) => if step.runs_command() {
            match judge(step.program_name(), output) {
                Ok(_) => Ok(()),
                Err(e) => Err(e),
            }
        } else {
            Err(Error::Parse(Shape::Mismatch))
        },
        other => Err(refuse(other)),
    }
}

impl Up {
    fn stop(self, error: Error) -> (r: (Up, Next))
        ensures
            turn(r) == self@.stop(error@),
    {
        (Up { phase: Phase::Finished, ..self }, Next::Done(Err(error)))
    }

    fn finish(self) -> (r: (Up, Next))
        ensures
            turn(r) == self@.finish(),
    {
        (Up { phase: Phase::Finished, ..self }, Next::Done(Ok(())))
    }

    fn go(self, phase: Phase, step: Step) -> (r: (Up, Next))
        ensures
            turn(r) == self@.go(phase, step),
    {
        (Up { phase, pending: step, ..self }, Next::Do(step))
    }

    fn run(self, phase: Phase, steps: Vec<Step>, then: Phase, after: Step) -> (r: (Up, Next))
        ensures
            turn(r) == self@.run(phase, steps@, then, after),
    {
        if steps.len() == 0 {
            self.go(then, after)
        } else {
            let mut rest = steps;
            let first = rest.remove(0);
            assert(rest@ =~= steps@.drop_first());
            (Up { script: rest, ..self }).go(phase, first)
        }
    }

    fn script(self, event: Event, then: Phase, after: Step) -> (r: (Up, Next))
        ensures
            turn(r) == scripted(self@, event@, then, after),
    {
        match settle(self.pending, event) {
            Ok(_) => {
                let Up { base_dir, phase, pending, script, iface, reason } = self;
                let state = Up { base_dir, phase, pending, script: Vec::new(), iface, reason };
                state.run(phase, script, then, after)
            },
            Err(e) => self.stop(e),
        }
    }

    /// The operation that carries out `step` in this state: see `lower`.
    pub fn request(&self, step: Step) -> (r: Request)
        ensures
            r@ == self@.request(step),
    {
        lower(self.base_dir.as_str(), self.iface.as_str(), step)
    }
}

/// Whether the base directory is a bind mount of itself according to the
/// snapshot: the table holds an entry whose resolved root and resolved mount
/// point both are the resolved base directory. Entries that do not resolve
/// are passed over; a base directory that does not resolve is an error.
pub fn base_dir_has_private_self_bind_mount(mounts: &Mounts) -> (r: Result<bool, Error>)
    ensures
        flag_view(r) == self_bound(mounts@),
{
    let dir = match &mounts.base.canonical {
        Some(dir) => dir,
        None => {
            return Err(Error::Io(String::from_str("the base directory does not resolve")));
        },
    };
    let mut i: usize = 0;
    while i < mounts.table.len()
        invariant
            0 <= i <= mounts.table.len(),
            mounts@.base.canonical == Some(dir@),
            forall|j: int| 0 <= j < i ==> !(#[trigger] mounts@.table[j]).is_self_bind_of(dir@),
        decreases mounts.table.len() - i,
    {
        let entry = &mounts.table[i];
        assert(mounts@.table[i as int] == entry@);
        let root = match &entry.root {
            Some(root) => same(root.as_str(), dir.as_str()),
            None => false,
        };
        let target = match &entry.target {
            Some(target) => same(target.as_str(), dir.as_str()),
            None => false,
        };
        if root && target {
            assert(mounts@.table[i as int].is_self_bind_of(dir@));
            return Ok(true);
        }
        i += 1;
    }
    Ok(false)
}

/// Decides what a look at the namespace helper leads to, after `waited`
/// milliseconds of pauses. A dead helper has failed; a helper with another
/// number of tasks than one, or with more than one child, is an oddity; its
/// one child is the init process; without a child the wait goes on until
/// the ceiling is reached.
pub fn poll(helper: &Helper, waited: u64) -> (r: Poll)
    ensures
        r == polled(helper@, waited),
{
    if !helper.alive {
        Poll::Exited
    } else if helper.tasks != 1 {
        Poll::Odd(Shape::Tasks(helper.tasks))
    } else if helper.children.len() > 1 {
        Poll::Odd(Shape::Children(helper.children.len()))
    } else if helper.children.len() == 1 {
        Poll::Found(helper.children[0])
    } else if waited >= POLL_CEILING_MS {
        Poll::TimedOut
    } else {
        Poll::Wait
    }
}

/// Looks for the init process of the mounted namespaces in the process
/// table.
pub fn find_pid_ns_init_process(processes: &Processes) -> (r: Result<Option<u32>, Error>)
    ensures
        pid_view(r) == init_process(processes@),
{
    let id = match processes.pid_ns_id {
        Some(id) => id,
        None => {
            return Err(Error::Io(String::from_str("the pid mount point cannot be read")));
        },
    };
    let inside = all_ns_processes(id, &processes.list);
    let ghost p = |p: ProcessModel| p.cmdline is None || p.is(INIT@);
    let mut i: usize = 0;
    while i < inside.len()
        invariant
            0 <= i <= inside.len(),
            processes@.pid_ns_id == Some(id),
            inside.deep_view() == in_pid_ns(processes@.list, id),
            p == |p: ProcessModel| p.cmdline is None || p.is(INIT@),
            forall|j: int| 0 <= j < i ==> !p(#[trigger] inside.deep_view()[j]),
        decreases inside.len() - i,
    {
        assert(inside.deep_view()[i as int] == inside@[i as int]@);
        if inside[i].cmdline.is_none() {
            proof {
                lemma_first_where_is(inside.deep_view(), p, i as int);
            }
            return Err(
                Error::Io(
                    String::from_str(
                        "the command line of a process in the namespace cannot be read",
                    ),
                ),
            );
        }
        if inside[i].is(INIT) {
            proof {
                lemma_first_where_is(inside.deep_view(), p, i as int);
            }
            return Ok(Some(inside[i].pid));
        }
        i += 1;
    }
    proof {
        lemma_first_where_is(inside.deep_view(), p, inside.len() as int);
    }
    Ok(None)
}

/// Whether some process of the table runs `name`.
pub fn is_running(name: &str, list: &Vec<Process>) -> (r: bool)
    ensures
        r == running(name@, list.deep_view()),
{
    let mut i: usize = 0;
    while i < list.len()
        invariant
            0 <= i <= list.len(),
            forall|j: int| 0 <= j < i ==> !(#[trigger] list.deep_view()[j]).runs(name@),
        decreases list.len() - i,
    {
        assert(list.deep_view()[i as int] == list@[i as int]@);
        if list[i].runs(name) {
            return true;
        }
        i += 1;
    }
    false
}

/// Decides whether a service has to be started: `start` where no process of
/// the host runs `name`, nothing where one does. All processes of the host
/// count, whatever namespace they live in.
pub fn spawn_process_inside(name: &str, start: Step, list: &Vec<Process>) -> (r: Option<Step>)
    ensures
        r == if running(name@, list.deep_view()) {
            None
        } else {
            Some(start)
        },
{
    if is_running(name, list) {
        None
    } else {
        Some(start)
    }
}

/// The steps that overlay `/etc`, given the mount listing from inside the
/// namespaces: none where the listing shows the overlay; else the three
/// directories are created, the two configuration files are written and the
/// overlay is mounted from inside the namespaces of `init`.
pub fn create_etc_overlay_inside(listing: &Vec<u8>, init: u32) -> (r: Vec<Step>)
    ensures
        r@ == etc_overlay(listing@, init),
{
    if contains(listing.as_slice(), OVERLAY_MARK.as_bytes()) {
        Vec::new()
    } else {
        vec![
            Step::CreateLayer(Layer::ExtraLower),
            Step::CreateLayer(Layer::Upper),
            Step::CreateLayer(Layer::Work),
            Step::WriteResolvConf,
            Step::WriteProxyConf,
            Step::MountOverlay(init),
        ]
    }
}

/// The four mount points to create, in order.
pub fn create_mount_points() -> (r: Vec<Step>)
    ensures
        r@ == mount_points(),
{
    vec![
        Step::CreateMountPoint(Type::User),
        Step::CreateMountPoint(Type::Pid),
        Step::CreateMountPoint(Type::Mount),
        Step::CreateMountPoint(Type::Net),
    ]
}

/// Begins bring-up for the base directory `base_dir`.
pub fn start(base_dir: String) -> (r: (Up, Next))
    ensures
        turn(r) == started(base_dir@),
{
    (
        Up {
            base_dir,
            phase: Phase::BaseDir,
            pending: Step::CreateBaseDir,
            script: Vec::new(),
            iface: String::new(),
            reason: String::new(),
        },
        Next::Do(Step::CreateBaseDir),
    )
}

fn isolate(state: Up, event: Event) -> (r: (Up, Next))
    ensures
        turn(r) == isolating(state@, event@),
{
    match state.phase {
        Phase::BaseDir => match event {
            Event::Done => state.go(Phase::SelfBindProbe, Step::ReadMounts),
            other => state.stop(refuse(other)),
        },
        _ => match event {
            Event::Mounts(mounts) => match base_dir_has_private_self_bind_mount(&mounts) {
                Ok(true) => state.go(Phase::StatusProbe, Step::ReadMounts),
                Ok(false) => state.go(Phase::Binding, Step::BindBase),
                Err(e) => state.stop(e),
            },
            other => state.stop(refuse(other)),
        },
    }
}

/// What bring-up does on `event` while the base directory is being bound
/// onto itself and the mount made private, as `binding` says.
pub fn private_self_bind_mount_base_dir(state: Up, event: Event) -> (r: (Up, Next))
    ensures
        turn(r) == binding(state@, event@),
{
    match state.phase {
        Phase::Binding => match event {
            Event::Done => state.go(Phase::Privatizing, Step::MakeBasePrivate),
            other => state.stop(refuse(other)),
        },
        Phase::Privatizing => match event {
            Event::Done => state.go(Phase::StatusProbe, Step::ReadMounts),
            Event::Failed(reason) => (Up { reason, ..state }).go(
                Phase::RollingBack,
                Step::UnmountBase,
            ),
            other => state.stop(refuse(other)),
        },
        _ => {
            let reason = state.reason.clone();
            state.stop(Error::Io(reason))
        },
    }
}

fn locate(state: Up, event: Event) -> (r: (Up, Next))
    ensures
        turn(r) == locating(state@, event@),
{
    match state.phase {
        Phase::StatusProbe => match event {
            Event::Mounts(mounts) => match status(state.base_dir.as_str(), &mounts) {
                Status::Ready => state.go(Phase::InitScan, Step::ReadProcesses),
                Status::Partial(set) => state.stop(Error::Desync(Desync::Partial(set))),
                Status::Unmounted => state.run(
                    Phase::MountPoints,
                    create_mount_points(),
                    Phase::HelperStart,
                    Step::StartHelper,
                ),
            },
            other => state.stop(refuse(other)),
        },
        _ => match event {
            Event::Processes(processes) => match find_pid_ns_init_process(&processes) {
                Ok(Some(init)) => state.go(
                    Phase::OverlayProbe { init },
                    Step::ListMountsInside(init),
                ),
                Ok(None) => state.stop(Error::Desync(Desync::InitMissing)),
                Err(e) => state.stop(e),
            },
            other => state.stop(refuse(other)),
        },
    }
}

/// What bring-up does on `event` while the namespaces are being created:
/// the four mount points are created, the helper is started, and after a
/// first pause it is looked at, with a pause between looks, until `poll`
/// decides; the init process that is found has to live.
pub fn create_namespaces(state: Up, event: Event) -> (r: (Up, Next))
    ensures
        turn(r) == creating(state@, event@),
{
    match state.phase {
        Phase::MountPoints => state.script(event, Phase::HelperStart, Step::StartHelper),
        Phase::HelperStart => match event {
            Event::Spawned(helper) => state.go(
                Phase::HelperNap { helper, waited: 0 },
                Step::Sleep(POLL_INTERVAL_MS),
            ),
            other => state.stop(refuse(other)),
        },
        Phase::HelperNap { helper, waited } => match event {
            Event::Done => state.go(
                Phase::HelperLook { helper, waited },
                Step::InspectHelper(helper),
            ),
            other => state.stop(refuse(other)),
        },
        Phase::HelperLook { helper, waited } => match event {
            Event::Helper(seen) => match poll(&seen, waited) {
                Poll::Exited => state.go(Phase::HelperCollect, Step::CollectHelper(helper)),
                Poll::Odd(shape) => state.stop(Error::Parse(shape)),
                Poll::Found(init) => state.go(Phase::InitCheck { init }, Step::CheckAlive(init)),
                Poll::TimedOut => state.stop(Error::Timeout),
                Poll::Wait => state.go(
                    Phase::HelperNap { helper, waited: waited + POLL_INTERVAL_MS },
                    Step::Sleep(POLL_INTERVAL_MS),
                ),
            },
            other => state.stop(refuse(other)),
        },
        Phase::HelperCollect => match event {
            Event::Output(output) => state.stop(
                Error::ExecutionFailed {
                    program: String::from_str(Step::StartHelper.program_name()),
                    output,
                },
            ),
            other => state.stop(refuse(other)),
        },
        Phase::InitCheck { init } => match event {
            Event::Alive(true) => state.go(
                Phase::OverlayProbe { init },
                Step::ListMountsInside(init),
            ),
            Event::Alive(false) => state.stop(Error::Desync(Desync::InitDied)),
            other => state.stop(refuse(other)),
        },
        _ => state.stop(Error::Parse(Shape::Mismatch)),
    }
}

fn overlay(state: Up, event: Event) -> (r: (Up, Next))
    ensures
        turn(r) == overlaying(state@, event@),
{
    match state.phase {
        Phase::OverlayProbe { init } => match event {
            Event::Output(output) => state.run(
                Phase::Overlay { init },
                create_etc_overlay_inside(&output.stdout, init),
                Phase::Interfaces { init },
                Step::ListInterfaces,
            ),
            other => state.stop(refuse(other)),
        },
        Phase::Overlay { init } => state.script(
            event,
            Phase::Interfaces { init },
            Step::ListInterfaces,
        ),
        _ => state.stop(Error::Parse(Shape::Mismatch)),
    }
}

fn network(state: Up, event: Event) -> (r: (Up, Next))
    ensures
        turn(r) == networking(state@, event@),
{
    match state.phase {
        Phase::Interfaces { init } => match event {
            Event::Interfaces(names) => state.run(
                Phase::PrivateNet { init },
                setup_private_networking(&names),
                Phase::ContainerRoute { init },
                Step::QueryContainerRoute,
            ),
            other => state.stop(refuse(other)),
        },
        Phase::PrivateNet { init } => state.script(
            event,
            Phase::ContainerRoute { init },
            Step::QueryContainerRoute,
        ),
        Phase::ContainerRoute { init } => match event {
            Event::Output(output) => match setup_external_networking(output) {
                Ok(None) => state.go(Phase::VpnScan { init }, Step::ReadProcesses),
                Ok(Some(step)) => state.go(Phase::HostRoute { init }, step),
                Err(e) => state.stop(e),
            },
            other => state.stop(refuse(other)),
        },
        Phase::HostRoute { init } => match event {
            Event::Output(output) => match default_route_iface_name(output) {
                Ok(iface) => (Up { iface, ..state }).run(
                    Phase::Forward { init },
                    setup_external_forward(),
                    Phase::VpnScan { init },
                    Step::ReadProcesses,
                ),
                Err(e) => state.stop(e),
            },
            other => state.stop(refuse(other)),
        },
        Phase::Forward { init } => state.script(
            event,
            Phase::VpnScan { init },
            Step::ReadProcesses,
        ),
        _ => state.stop(Error::Parse(Shape::Mismatch)),
    }
}

fn serve(state: Up, event: Event) -> (r: (Up, Next))
    ensures
        turn(r) == serving(state@, event@),
{
    match state.phase {
        Phase::VpnScan { init } => match event {
            Event::Processes(processes) => match spawn_process_inside(
                VPN,
                Step::StartVpn(init),
                &processes.list,
            ) {
                None => state.go(Phase::Settle { init }, Step::Sleep(SETTLE_MS)),
                Some(step) => state.go(Phase::VpnStart { init }, step),
            },
            other => state.stop(refuse(other)),
        },
        Phase::VpnStart { init } => match event {
            Event::Spawned(_) => state.go(Phase::Settle { init }, Step::Sleep(SETTLE_MS)),
            other => state.stop(refuse(other)),
        },
        Phase::Settle { init } => match event {
            Event::Done => state.go(Phase::ProxyScan { init }, Step::ReadProcesses),
            other => state.stop(refuse(other)),
        },
        Phase::ProxyScan { init } => match event {
            Event::Processes(processes) => match spawn_process_inside(
                PROXY,
                Step::StartProxy(init),
                &processes.list,
            ) {
                None => state.finish(),
                Some(step) => state.go(Phase::ProxyStart, step),
            },
            other => state.stop(refuse(other)),
        },
        Phase::ProxyStart => match event {
            Event::Spawned(_) => state.finish(),
            other => state.stop(refuse(other)),
        },
        _ => state.stop(Error::Parse(Shape::Mismatch)),
    }
}

/// Takes bring-up one step further: `event` answers the step that was handed
/// out last, and the result is the new state and what the workflow wants
/// next, as `stepped` says.
pub fn up(state: Up, event: Event) -> (r: (Up, Next))
    ensures
        turn(r) == stepped(state@, event@),
{
    match state.phase {
        Phase::BaseDir | Phase::SelfBindProbe => isolate(state, event),
        Phase::Binding | Phase::Privatizing | Phase::RollingBack => private_self_bind_mount_base_dir(
            state,
            event,
        ),
        Phase::StatusProbe | Phase::InitScan => locate(state, event),
        Phase::MountPoints
        | Phase::HelperStart
        | Phase::HelperNap { .. }
        | Phase::HelperLook { .. }
        | Phase::HelperCollect
        | Phase::InitCheck { .. } => create_namespaces(state, event),
        Phase::OverlayProbe { .. } | Phase::Overlay { .. } => overlay(state, event),
        Phase::Interfaces { .. }
        | Phase::PrivateNet { .. }
        | Phase::ContainerRoute { .. }
        | Phase::HostRoute { .. }
        | Phase::Forward { .. } => network(state, event),
        Phase::VpnScan { .. }
        | Phase::VpnStart { .. }
        | Phase::Settle { .. }
        | Phase::ProxyScan { .. }
        | Phase::ProxyStart => serve(state, event),
        Phase::Finished => state.stop(Error::Parse(Shape::Mismatch)),
    }
}

} // verus!
