//! Tear-down: the services are asked to end, the inside of the namespaces is
//! cleaned, the network is taken down, and the namespaces and the base
//! directory are unmounted.
//!
//! Every cleaning step is tried whatever became of the one before. Only two
//! things stop the workflow: the mount table or the interface list cannot be
//! read, or the host end of the veth pair cannot be deleted.

use crate::effect::{Event, EventModel, Next, NextModel, Request, Rule, Step};
use crate::error::{Error, ErrorModel, Shape};
use crate::fixed::{PROXY_NAME, PROXY_WORKER, VPN};
use crate::lower::{lower, lowered};
use crate::namespace::{
    find_exactly_in_namespace, find_process_in_namespace, found_exactly_in_namespace,
    found_in_namespace, is_mounted, Mounts, Process, ProcessModel, Type, TypeSet,
};
use crate::net::{default_route_iface_name, has_host_link, host_iface, host_link_exists};
use crate::up::{refusal, refuse, settle, settled};
use vstd::prelude::*;

verus! {

/// Where tear-down stands: the answer to which step it waits for.
#[derive(Debug, Clone, Copy, PartialEq, Eq, Structural)]
pub enum Phase {
    /// The process table is being read, to find the services.
    ProcessScan,
    /// The services are being asked to end.
    Killing,
    /// The mount table is being read, to see what there is to clean.
    MountProbe,
    /// The inside of the namespaces is being cleaned. `net` tells whether the
    /// network namespace is mounted.
    Cleaning { net: bool },
    /// The default route of the host is being asked for.
    HostRoute,
    /// Instances of a firewall rule are being deleted.
    DeletingRule(Rule),
    /// The interfaces of the host are being listed.
    Interfaces,
    /// The host end of the veth pair is being deleted.
    HostLink,
    /// The mount table is being read, to see what is mounted now.
    UnmountProbe,
    /// The namespaces and the base directory are being unmounted.
    Unmounting,
    /// The workflow is over.
    Finished,
}

/// The state of tear-down.
#[derive(Debug)]
pub struct Down {
    /// The base directory.
    pub base_dir: String,
    /// The phase.
    pub phase: Phase,
    /// The step handed out last.
    pub pending: Step,
    /// The steps of the running script that are still to be handed out.
    pub script: Vec<Step>,
    /// The default interface of the host; empty until it is known.
    pub iface: String,
}

/// The mathematical content of a `Down`.
#[verifier::ext_equal]
pub struct DownModel {
    pub base_dir: Seq<char>,
    pub phase: Phase,
    pub pending: Step,
    pub script: Seq<Step>,
    pub iface: Seq<char>,
}

impl View for Down {
    type V = DownModel;

    open spec fn view(&self) -> DownModel {
        DownModel {
            base_dir: self.base_dir@,
            phase: self.phase,
            pending: self.pending,
            script: self.script@,
            iface: self.iface@,
        }
    }
}

/// The views of a state and of what it wants next.
pub open spec fn turn(r: (Down, Next)) -> (DownModel, NextModel) {
    (r.0@, r.1@)
}

impl DownModel {
    /// The workflow ends with `error`.
    pub open spec fn stop(self, error: ErrorModel) -> (DownModel, NextModel) {
        (DownModel { phase: Phase::Finished, ..self }, NextModel::Done(Err(error)))
    }

    /// The workflow ends well.
    pub open spec fn finish(self) -> (DownModel, NextModel) {
        (DownModel { phase: Phase::Finished, ..self }, NextModel::Done(Ok(())))
    }

    /// The workflow goes on to `phase` and hands out `step`.
    pub open spec fn go(self, phase: Phase, step: Step) -> (DownModel, NextModel) {
        (DownModel { phase, pending: step, ..self }, NextModel::Do(step))
    }

    /// The workflow runs the script `steps` in `phase`, or, where the script
    /// is empty, goes straight on to `then` with `after`.
    pub open spec fn run(self, phase: Phase, steps: Seq<Step>, then: Phase, after: Step) -> (
        DownModel,
        NextModel,
    ) {
        if steps.len() == 0 {
            self.go(then, after)
        } else {
            (DownModel { script: steps.drop_first(), ..self }).go(phase, steps[0])
        }
    }

    /// The operation that carries out `step` in this state.
    pub open spec fn request(self, step: Step) -> crate::effect::RequestModel {
        lowered(self.base_dir, self.iface, step)
    }
}

/// The step that asks the process `pid` to end, where there is one.
pub open spec fn ending(pid: Option<u32>) -> Seq<Step> {
    match pid {
        Some(pid) => seq![Step::Terminate(pid)],
        None => seq![],
    }
}

/// The services to end according to the process table: the VPN client, the
/// proxy and one worker of the proxy, each where it is found inside the
/// container.
pub open spec fn terminations(list: Seq<ProcessModel>) -> Seq<Step> {
    ending(found_in_namespace(VPN@, list)) + ending(found_in_namespace(PROXY_NAME@, list))
        + ending(found_exactly_in_namespace(PROXY_WORKER@, list))
}

/// The steps that clean the inside of the mounted namespaces: `/proc` and
/// `/etc` are unmounted where the mount namespace is mounted, and the
/// container end of the veth pair is deleted where the network namespace is.
pub open spec fn cleaning(mounted: TypeSet) -> Seq<Step> {
    (if mounted.mount {
        seq![Step::UnmountProcInside, Step::UnmountEtcInside]
    } else {
        seq![]
    }) + (if mounted.net {
        seq![Step::DeleteContainerLink]
    } else {
        seq![]
    })
}

/// The step that unmounts the namespace of kind `k`, where it is mounted.
pub open spec fn unmount_of(mounted: TypeSet, k: Type) -> Seq<Step> {
    if mounted.has(k) {
        seq![Step::UnmountNamespace(k)]
    } else {
        seq![]
    }
}

/// The steps that unmount the mounted namespaces, in creation order.
pub open spec fn unmounts(mounted: TypeSet) -> Seq<Step> {
    unmount_of(mounted, Type::User) + unmount_of(mounted, Type::Pid) + unmount_of(
        mounted,
        Type::Mount,
    ) + unmount_of(mounted, Type::Net)
}

/// The rule whose instances are deleted after those of `rule`.
pub open spec fn rule_after(rule: Rule) -> Option<Rule> {
    match rule {
        Rule::Masquerade => Some(Rule::ForwardIn),
        Rule::ForwardIn => Some(Rule::ForwardOut),
        Rule::ForwardOut => None,
    }
}

/// The state in which tear-down starts, and its first step.
pub open spec fn started(base_dir: Seq<char>) -> (DownModel, NextModel) {
    (
        DownModel {
            base_dir,
            phase: Phase::ProcessScan,
            pending: Step::ReadProcesses,
            script: seq![],
            iface: seq![],
        },
        NextModel::Do(Step::ReadProcesses),
    )
}

/// Where tear-down goes after the inside of the namespaces is cleaned: to
/// the firewall rules where the network namespace is mounted, else to the
/// host end of the veth pair.
pub open spec fn after_cleaning(s: DownModel, net: bool) -> (DownModel, NextModel) {
    if net {
        s.go(Phase::HostRoute, Step::QueryHostRoute)
    } else {
        s.go(Phase::Interfaces, Step::ListInterfaces)
    }
}

/// Tear-down hands out the next step of a script whose steps may fail, or,
/// after the last, does `last`.
pub open spec fn advance(s: DownModel, last: (DownModel, NextModel)) -> (DownModel, NextModel) {
    if s.script.len() == 0 {
        last
    } else {
        (DownModel { script: s.script.drop_first(), ..s }).go(s.phase, s.script[0])
    }
}

/// What tear-down does on `event` while the services are ended and the
/// inside of the namespaces is cleaned. No failure stops it, but it has to
/// learn what is mounted.
pub open spec fn clearing(s: DownModel, event: EventModel) -> (DownModel, NextModel) {
    match s.phase {
        Phase::ProcessScan => match event {
            EventModel::Processes(processes) => s.run(
                Phase::Killing,
                terminations(processes.list),
                Phase::MountProbe,
                Step::ReadMounts,
            ),
            _ => s.go(Phase::MountProbe, Step::ReadMounts),
        },
        Phase::Killing => advance(s, s.go(Phase::MountProbe, Step::ReadMounts)),
        Phase::MountProbe => match event {
            EventModel::Mounts(mounts) => {
                let mounted = mounts.mounted_set(s.base_dir);
                if mounted.net {
                    s.run(
                        Phase::Cleaning { net: true },
                        cleaning(mounted),
                        Phase::HostRoute,
                        Step::QueryHostRoute,
                    )
                } else {
                    s.run(
                        Phase::Cleaning { net: false },
                        cleaning(mounted),
                        Phase::Interfaces,
                        Step::ListInterfaces,
                    )
                }
            },
            _ => s.stop(refusal(event)),
        },
        Phase::Cleaning { net } => advance(s, after_cleaning(s, net)),
        _ => s.stop(ErrorModel::Parse(Shape::Mismatch)),
    }
}

/// What tear-down does on `event` while the firewall rules are deleted. The
/// rules are deleted for the default interface of the host; where that
/// cannot be learned they are left. Of each rule instances are deleted until
/// a deletion does not succeed.
pub open spec fn unruling(s: DownModel, event: EventModel) -> (DownModel, NextModel) {
    match s.phase {
        Phase::HostRoute => match event {
            EventModel::Output(output) => match host_iface(output) {
                Ok(iface) => (DownModel { iface, ..s }).go(
                    Phase::DeletingRule(Rule::Masquerade),
                    Step::DeleteRule(Rule::Masquerade),
                ),
                Err(_) => s.go(Phase::Interfaces, Step::ListInterfaces),
            },
            _ => s.go(Phase::Interfaces, Step::ListInterfaces),
        },
        Phase::DeletingRule(rule) => if event matches EventModel::Output(output)
            && output.success() {
            s.go(Phase::DeletingRule(rule), Step::DeleteRule(rule))
        } else {
            match rule_after(rule) {
                Some(next) => s.go(Phase::DeletingRule(next), Step::DeleteRule(next)),
                None => s.go(Phase::Interfaces, Step::ListInterfaces),
            }
        },
        _ => s.stop(ErrorModel::Parse(Shape::Mismatch)),
    }
}

/// What tear-down does on `event` while the host end of the veth pair is
/// deleted. Here a failure stops the workflow: an interface left behind is a
/// visible leak.
pub open spec fn unlinking(s: DownModel, event: EventModel) -> (DownModel, NextModel) {
    match s.phase {
        Phase::Interfaces => match event {
            EventModel::Interfaces(names) => if has_host_link(names) {
                s.go(Phase::HostLink, Step::DeleteHostLink)
            } else {
                s.go(Phase::UnmountProbe, Step::ReadMounts)
            },
            _ => s.stop(refusal(event)),
        },
        Phase::HostLink => match settled(Step::DeleteHostLink, event) {
            Ok(_) => s.go(Phase::UnmountProbe, Step::ReadMounts),
            Err(e) => s.stop(e),
        },
        _ => s.stop(ErrorModel::Parse(Shape::Mismatch)),
    }
}

/// What tear-down does on `event` while the namespaces and the base
/// directory are unmounted.
pub open spec fn unmounting(s: DownModel, event: EventModel) -> (DownModel, NextModel) {
    match s.phase {
        Phase::UnmountProbe => match event {
            EventModel::Mounts(mounts) => s.run(
                Phase::Unmounting,
                unmounts(mounts.mounted_set(s.base_dir)).push(Step::UnmountBase),
                Phase::Finished,
                Step::UnmountBase,
            ),
            _ => s.stop(refusal(event)),
        },
        Phase::Unmounting => advance(s, s.finish()),
        _ => s.stop(ErrorModel::Parse(Shape::Mismatch)),
    }
}

/// What tear-down does on `event`: the state it goes to, and what it wants
/// next.
pub open spec fn stepped(s: DownModel, event: EventModel) -> (DownModel, NextModel) {
    match s.phase {
        Phase::ProcessScan | Phase::Killing | Phase::MountProbe | Phase::Cleaning { .. } => clearing(
            s,
            event,
        ),
        Phase::HostRoute | Phase::DeletingRule(_) => unruling(s, event),
        Phase::Interfaces | Phase::HostLink => unlinking(s, event),
        Phase::UnmountProbe | Phase::Unmounting => unmounting(s, event),
        Phase::Finished => s.stop(ErrorModel::Parse(Shape::Mismatch)),
    }
}

/// Tear-down stops for three reasons only. Whatever the events are: where a
/// step of tear-down ends the workflow with an error, the mount table or the
/// interface list could not be read, or the host end of the veth pair could
/// not be deleted. An event handed to a workflow that is over is a mismatch.
pub proof fn law_down_stops_for_three_reasons(s: DownModel, event: EventModel)
    requires
        stepped(s, event).1 matches NextModel::Done(Err(_)),
    ensures
        s.phase is MountProbe || s.phase is UnmountProbe || s.phase is Interfaces
            || s.phase is HostLink || s.phase is Finished,
        s.phase is MountProbe || s.phase is UnmountProbe ==> !(event is Mounts),
        s.phase is Interfaces ==> !(event is Interfaces),
        s.phase is HostLink ==> !(event matches EventModel::Output(output) && output.success()),
{
}

impl Down {
    fn stop(self, error: Error) -> (r: (Down, Next))
        ensures
            turn(r) == self@.stop(error@),
    {
        (Down { phase: Phase::Finished, ..self }, Next::Done(Err(error)))
    }

    fn finish(self) -> (r: (Down, Next))
        ensures
            turn(r) == self@.finish(),
    {
        (Down { phase: Phase::Finished, ..self }, Next::Done(Ok(())))
    }

    fn go(self, phase: Phase, step: Step) -> (r: (Down, Next))
        ensures
            turn(r) == self@.go(phase, step),
    {
        (Down { phase, pending: step, ..self }, Next::Do(step))
    }

    fn run(self, phase: Phase, steps: Vec<Step>, then: Phase, after: Step) -> (r: (Down, Next))
        ensures
            turn(r) == self@.run(phase, steps@, then, after),
    {
        if steps.len() == 0 {
            self.go(then, after)
        } else {
            let mut rest = steps;
            let first = rest.remove(0);
            assert(rest@ =~= steps@.drop_first());
            (Down { script: rest, ..self }).go(phase, first)
        }
    }

    fn pop(self) -> (r: (Down, Next))
        requires
            self.script@.len() > 0,
        ensures
            turn(r) == (DownModel { script: self@.script.drop_first(), ..self@ }).go(
                self.phase,
                self@.script[0],
            ),
    {
        let Down { base_dir, phase, pending, script, iface } = self;
        let mut rest = script;
        let first = rest.remove(0);
        assert(rest@ =~= script@.drop_first());
        (Down { base_dir, phase, pending, script: rest, iface }).go(phase, first)
    }

    fn after_cleaning(self, net: bool) -> (r: (Down, Next))
        ensures
            turn(r) == after_cleaning(self@, net),
    {
        if net {
            self.go(Phase::HostRoute, Step::QueryHostRoute)
        } else {
            self.go(Phase::Interfaces, Step::ListInterfaces)
        }
    }

    /// The operation that carries out `step` in this state: see `lower`.
    pub fn request(&self, step: Step) -> (r: Request)
        ensures
            r@ == self@.request(step),
    {
        lower(self.base_dir.as_str(), self.iface.as_str(), step)
    }
}

/// The kinds that are mounted according to the snapshot.
pub fn mounted_kinds(base_dir: &str, mounts: &Mounts) -> (r: TypeSet)
    ensures
        r == mounts@.mounted_set(base_dir@),
{
    TypeSet {
        user: is_mounted(base_dir, Type::User, mounts),
        pid: is_mounted(base_dir, Type::Pid, mounts),
        mount: is_mounted(base_dir, Type::Mount, mounts),
        net: is_mounted(base_dir, Type::Net, mounts),
    }
}

/// The step that ends the service `name`, where the process table shows it
/// inside the container.
pub fn kill_process(name: &str, list: &Vec<Process>) -> (r: Option<Step>)
    ensures
        r == match found_in_namespace(name@, list.deep_view()) {
            Some(pid) => Some(Step::Terminate(pid)),
            None => None,
        },
{
    match find_process_in_namespace(name, list) {
        Some(pid) => Some(Step::Terminate(pid)),
        None => None,
    }
}

/// The steps that end the services that the process table shows inside the
/// container.
pub fn kill_processes(list: &Vec<Process>) -> (r: Vec<Step>)
    ensures
        r@ == terminations(list.deep_view()),
{
    let mut r: Vec<Step> = Vec::new();
    if let Some(step) = kill_process(VPN, list) {
        r.push(step);
    }
    if let Some(step) = kill_process(PROXY_NAME, list) {
        r.push(step);
    }
    if let Some(pid) = find_exactly_in_namespace(PROXY_WORKER, list) {
        r.push(Step::Terminate(pid));
    }
    assert(r@ =~= terminations(list.deep_view()));
    r
}

/// The steps that clean the inside of the mount namespace.
pub fn clean_mount_namespace() -> (r: Vec<Step>)
    ensures
        r@ == seq![Step::UnmountProcInside, Step::UnmountEtcInside],
{
    vec![Step::UnmountProcInside, Step::UnmountEtcInside]
}

/// The steps that clean the inside of the mounted namespaces.
pub fn clean_inside(mounted: TypeSet) -> (r: Vec<Step>)
    ensures
        r@ == cleaning(mounted),
{
    let mut r: Vec<Step> = if mounted.mount {
        clean_mount_namespace()
    } else {
        Vec::new()
    };
    if mounted.net {
        r.push(Step::DeleteContainerLink);
    }
    assert(r@ =~= cleaning(mounted));
    r
}

/// The rule whose instances are deleted after those of `rule`.
pub fn next_rule(rule: Rule) -> (r: Option<Rule>)
    ensures
        r == rule_after(rule),
{
    match rule {
        Rule::Masquerade => Some(Rule::ForwardIn),
        Rule::ForwardIn => Some(Rule::ForwardOut),
        Rule::ForwardOut => None,
    }
}

/// The step that deletes the host end of the veth pair, where the host has
/// it.
pub fn cleanup_private_networking(interfaces: &Vec<String>) -> (r: Option<Step>)
    ensures
        r == if has_host_link(interfaces.deep_view()) {
            Some(Step::DeleteHostLink)
        } else {
            None
        },
{
    if host_link_exists(interfaces) {
        Some(Step::DeleteHostLink)
    } else {
        None
    }
}

/// The steps that unmount the namespaces that are mounted, in creation
/// order. Where none is mounted there is no step.
pub fn unmount_namespaces(mounted: TypeSet) -> (r: Vec<Step>)
    ensures
        r@ == unmounts(mounted),
        mounted.count() == 0 ==> r@.len() == 0,
        forall|k: Type| r@.contains(Step::UnmountNamespace(k)) <==> mounted.has(k),
{
    let kinds = Type::all();
    let mut r: Vec<Step> = Vec::new();
    let mut i: usize = 0;
    while i < kinds.len()
        invariant
            0 <= i <= 4,
            kinds@ == Type::order(),
            r@ == if i == 0 {
                seq![]
            } else if i == 1 {
                unmount_of(mounted, Type::User)
            } else if i == 2 {
                unmount_of(mounted, Type::User) + unmount_of(mounted, Type::Pid)
            } else if i == 3 {
                unmount_of(mounted, Type::User) + unmount_of(mounted, Type::Pid) + unmount_of(
                    mounted,
                    Type::Mount,
                )
            } else {
                unmounts(mounted)
            },
        decreases kinds.len() - i,
    {
        let k = kinds[i];
        let ghost before = r@;
        if mounted.contains(k) {
            r.push(Step::UnmountNamespace(k));
        }
        assert(r@ =~= before + unmount_of(mounted, k));
        i += 1;
    }
    proof {
        let u = unmount_of(mounted, Type::User);
        let p = unmount_of(mounted, Type::Pid);
        let m = unmount_of(mounted, Type::Mount);
        let n = unmount_of(mounted, Type::Net);
        assert forall|k: Type| r@.contains(Step::UnmountNamespace(k)) <==> mounted.has(
            k,
        ) by {
            if mounted.has(k) {
                let w = unmount_of(mounted, k);
                assert(w[0] == Step::UnmountNamespace(k));
                match k {
                    Type::User => {
                        assert(r@[0] == Step::UnmountNamespace(k));
                    },
                    Type::Pid => {
                        assert(r@[u.len() as int] == Step::UnmountNamespace(k));
                    },
                    Type::Mount => {
                        assert(r@[(u.len() + p.len()) as int] == Step::UnmountNamespace(k));
                    },
                    Type::Net => {
                        assert(r@[(u.len() + p.len() + m.len()) as int] == Step::UnmountNamespace(k));
                    },
                }
            }
            if r@.contains(Step::UnmountNamespace(k)) {
                let j = choose|j: int| 0 <= j < r@.len() && r@[j] == Step::UnmountNamespace(k);
                assert(r@[j] == Step::UnmountNamespace(k));
            }
        }
    }
    r
}

/// Begins tear-down for the base directory `base_dir`.
pub fn start(base_dir: String) -> (r: (Down, Next))
    ensures
        turn(r) == started(base_dir@),
{
    (
        Down {
            base_dir,
            phase: Phase::ProcessScan,
            pending: Step::ReadProcesses,
            script: Vec::new(),
            iface: String::new(),
        },
        Next::Do(Step::ReadProcesses),
    )
}

fn clear(state: Down, event: Event) -> (r: (Down, Next))
    ensures
        turn(r) == clearing(state@, event@),
{
    match state.phase {
        Phase::ProcessScan => match event {
            Event::Processes(processes) => state.run(
                Phase::Killing,
                kill_processes(&processes.list),
                Phase::MountProbe,
                Step::ReadMounts,
            ),
            _ => state.go(Phase::MountProbe, Step::ReadMounts),
        },
        Phase::Killing => if state.script.len() == 0 {
            state.go(Phase::MountProbe, Step::ReadMounts)
        } else {
            state.pop()
        },
        Phase::MountProbe => match event {
            Event::Mounts(mounts) => {
                let mounted = mounted_kinds(state.base_dir.as_str(), &mounts);
                if mounted.net {
                    state.run(
                        Phase::Cleaning { net: true },
                        clean_inside(mounted),
                        Phase::HostRoute,
                        Step::QueryHostRoute,
                    )
                } else {
                    state.run(
                        Phase::Cleaning { net: false },
                        clean_inside(mounted),
                        Phase::Interfaces,
                        Step::ListInterfaces,
                    )
                }
            },
            other => state.stop(refuse(other)),
        },
        Phase::Cleaning { net } => if state.script.len() == 0 {
            state.after_cleaning(net)
        } else {
            state.pop()
        },
        _ => state.stop(Error::Parse(Shape::Mismatch)),
    }
}

/// What tear-down does on `event` while the firewall rules are deleted, as
/// `unruling` says.
pub fn cleanup_external_networking(state: Down, event: Event) -> (r: (Down, Next))
    ensures
        turn(r) == unruling(state@, event@),
{
    match state.phase {
        Phase::HostRoute => match event {
            Event::Output(output) => match default_route_iface_name(output) {
                Ok(iface) => (Down { iface, ..state }).go(
                    Phase::DeletingRule(Rule::Masquerade),
                    Step::DeleteRule(Rule::Masquerade),
                ),
                Err(_) => state.go(Phase::Interfaces, Step::ListInterfaces),
            },
            _ => state.go(Phase::Interfaces, Step::ListInterfaces),
        },
        Phase::DeletingRule(rule) => {
            let again = match &event {
                Event::Output(output) => output.success(),
                _ => false,
            };
            if again {
                state.go(Phase::DeletingRule(rule), Step::DeleteRule(rule))
            } else {
                match next_rule(rule) {
                    Some(next) => state.go(Phase::DeletingRule(next), Step::DeleteRule(next)),
                    None => state.go(Phase::Interfaces, Step::ListInterfaces),
                }
            }
        },
        _ => state.stop(Error::Parse(Shape::Mismatch)),
    }
}

fn unlink(state: Down, event: Event) -> (r: (Down, Next))
    ensures
        turn(r) == unlinking(state@, event@),
{
    match state.phase {
        Phase::Interfaces => match event {
            Event::Interfaces(names) => match cleanup_private_networking(&names) {
                Some(step) => state.go(Phase::HostLink, step),
                None => state.go(Phase::UnmountProbe, Step::ReadMounts),
            },
            other => state.stop(refuse(other)),
        },
        Phase::HostLink => match settle(Step::DeleteHostLink, event) {
            Ok(_) => state.go(Phase::UnmountProbe, Step::ReadMounts),
            Err(e) => state.stop(e),
        },
        _ => state.stop(Error::Parse(Shape::Mismatch)),
    }
}

fn unmount(state: Down, event: Event) -> (r: (Down, Next))
    ensures
        turn(r) == unmounting(state@, event@),
{
    match state.phase {
        Phase::UnmountProbe => match event {
            Event::Mounts(mounts) => {
                let mut steps = unmount_namespaces(
                    mounted_kinds(state.base_dir.as_str(), &mounts),
                );
                steps.push(Step::UnmountBase);
                state.run(Phase::Unmounting, steps, Phase::Finished, Step::UnmountBase)
            },
            other => state.stop(refuse(other)),
        },
        Phase::Unmounting => if state.script.len() == 0 {
            state.finish()
        } else {
            state.pop()
        },
        _ => state.stop(Error::Parse(Shape::Mismatch)),
    }
}

/// Takes tear-down one step further: `event` answers the step that was
/// handed out last, and the result is the new state and what the workflow
/// wants next, as `stepped` says.
pub fn down(state: Down, event: Event) -> (r: (Down, Next))
    ensures
        turn(r) == stepped(state@, event@),
{
    match state.phase {
        Phase::ProcessScan | Phase::Killing | Phase::MountProbe | Phase::Cleaning { .. } => clear(
            state,
            event,
        ),
        Phase::HostRoute | Phase::DeletingRule(_) => cleanup_external_networking(state, event),
        Phase::Interfaces | Phase::HostLink => unlink(state, event),
        Phase::UnmountProbe | Phase::Unmounting => unmount(state, event),
        Phase::Finished => state.stop(Error::Parse(Shape::Mismatch)),
    }
}

} // verus!
