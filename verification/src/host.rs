//! A model of the host, to state what the workflows achieve.
//!
//! The workflows see the host only through events. This module says what the
//! steps do to a host that refuses nothing, and which events such a host
//! gives for answers. It is specification only: no code runs it. The facts
//! that the other modules prove of the workflows on such a host stand in
//! `laws`.

use crate::down;
use crate::down::DownModel;
use crate::effect::{EventModel, NextModel, Rule, Step};
use crate::error::ErrorModel;
use crate::fixed::{OVERLAY_MARK, PROXY, VPN};
use crate::namespace::TypeSet;
use crate::net::{has_host_link, host_iface};
use crate::text::occurs;
use crate::up;
use crate::up::{init_process, running, self_bound, UpModel};
use vstd::prelude::*;
use vstd::string::StringSliceAdditionalSpecFns;

verus! {

/// The host, as far as the workflows change it or ask about it.
pub struct Host {
    /// Whether the base directory is bound onto itself.
    pub self_bound: bool,
    /// The kinds whose namespace file is mounted.
    pub mounted: TypeSet,
    /// The init process that lives in the namespaces.
    pub init: Option<u32>,
    /// The process id that the init process gets when namespaces are made.
    pub next_init: u32,
    /// Whether the init process shows up as the child of the helper.
    pub child_shows: bool,
    /// Whether the overlay is mounted on `/etc` inside the namespaces.
    pub overlay: bool,
    /// Whether the host end of the veth pair exists.
    pub host_link: bool,
    /// Whether the container end of the veth pair exists.
    pub container_link: bool,
    /// Whether the container has a default route.
    pub container_route: bool,
    /// How many instances of the masquerade rule the firewall holds.
    pub masquerade: nat,
    /// How many instances of the inbound forward rule the firewall holds.
    pub forward_in: nat,
    /// How many instances of the outbound forward rule the firewall holds.
    pub forward_out: nat,
    /// Whether some process runs the VPN client.
    pub vpn: bool,
    /// Whether some process runs the proxy.
    pub proxy: bool,
    /// The default interface of the host.
    pub iface: Seq<char>,
}

impl Host {
    /// How many instances of `rule` the firewall holds.
    pub open spec fn rules(self, rule: Rule) -> nat {
        match rule {
            Rule::Masquerade => self.masquerade,
            Rule::ForwardIn => self.forward_in,
            Rule::ForwardOut => self.forward_out,
        }
    }

    /// The host with `n` instances of `rule`.
    pub open spec fn with_rules(self, rule: Rule, n: nat) -> Host {
        match rule {
            Rule::Masquerade => Host { masquerade: n, ..self },
            Rule::ForwardIn => Host { forward_in: n, ..self },
            Rule::ForwardOut => Host { forward_out: n, ..self },
        }
    }

    /// The host after `step` was carried out.
    pub open spec fn after(self, step: Step) -> Host {
        match step {
            Step::BindBase => Host { self_bound: true, ..self },
            Step::UnmountBase => Host { self_bound: false, ..self },
            Step::StartHelper => Host {
                mounted: TypeSet::all(),
                init: Some(self.next_init),
                ..self
            },
            Step::UnmountNamespace(k) => Host { mounted: self.mounted.without(k), ..self },
            Step::MountOverlay(_) => Host { overlay: true, ..self },
            Step::UnmountEtcInside => Host { overlay: false, ..self },
            Step::CreateLinkPair => Host { host_link: true, container_link: true, ..self },
            Step::DeleteContainerLink => Host { container_link: false, ..self },
            Step::DeleteHostLink => Host { host_link: false, container_link: false, ..self },
            Step::AddRule(rule) => self.with_rules(rule, self.rules(rule) + 1),
            Step::DeleteRule(rule) => if self.rules(rule) > 0 {
                self.with_rules(rule, (self.rules(rule) - 1) as nat)
            } else {
                self
            },
            Step::AddDefaultRoute => Host { container_route: true, ..self },
            Step::StartVpn(_) => Host { vpn: true, ..self },
            Step::StartProxy(_) => Host { proxy: true, ..self },
            _ => self,
        }
    }

    /// Whether `event` is an answer that this host gives to `step`, for the
    /// base directory `base_dir`. A question is answered by what the host
    /// holds; a change is answered by its success, but deleting a firewall
    /// rule succeeds only while an instance is left.
    pub open spec fn answers(self, base_dir: Seq<char>, step: Step, event: EventModel) -> bool {
        match step {
            Step::ReadMounts => event matches EventModel::Mounts(mounts) && mounts.mounted_set(
                base_dir,
            ) == self.mounted && self_bound(mounts) == Ok::<bool, ErrorModel>(
                self.self_bound,
            ),
            Step::ReadProcesses => event matches EventModel::Processes(processes) && init_process(
                processes,
            ) == Ok::<Option<u32>, ErrorModel>(self.init) && running(
                VPN@,
                processes.list,
            ) == self.vpn && running(PROXY@, processes.list) == self.proxy,
            Step::ListInterfaces => event matches EventModel::Interfaces(names) && has_host_link(
                names,
            ) == self.host_link,
            Step::InspectHelper(_) => event matches EventModel::Helper(seen) && seen.alive
                && seen.tasks == 1 && (seen.children.len() == 0 || (self.child_shows
                && self.init is Some && seen.children == seq![self.init->0])),
            Step::CheckAlive(pid) => event == EventModel::Alive(self.init == Some(pid)),
            Step::CollectHelper(_) => event is Output,
            Step::ListMountsInside(_) => event matches EventModel::Output(output) && occurs(
                output.stdout,
                OVERLAY_MARK.spec_bytes(),
            ) == self.overlay,
            Step::QueryContainerRoute => event matches EventModel::Output(output)
                && output.success() && (output.stdout.len() > 0) == self.container_route,
            Step::QueryHostRoute => event matches EventModel::Output(output) && host_iface(output)
                == Ok::<Seq<char>, ErrorModel>(self.iface),
            Step::DeleteRule(rule) => event matches EventModel::Output(output) && output.success()
                == (self.rules(rule) > 0),
            Step::StartHelper | Step::StartVpn(_) | Step::StartProxy(_) => event is Spawned,
            _ => if step.is_command() {
                event matches EventModel::Output(output) && output.success()
            } else {
                event == EventModel::Done
            },
        }
    }

    /// Whether the firewall holds none of the three rules.
    pub open spec fn no_rules(self) -> bool {
        self.masquerade == 0 && self.forward_in == 0 && self.forward_out == 0
    }

    /// Whether the container is up: the base directory is isolated, all four
    /// namespaces are mounted and the init process lives, `/etc` is
    /// overlaid, the link and the route exist, and both services run.
    pub open spec fn is_up(self) -> bool {
        self.self_bound && self.mounted == TypeSet::all() && self.init is Some && self.overlay
            && self.host_link && self.container_route && self.vpn && self.proxy
    }

    /// Whether nothing of the container is left: no namespace is mounted,
    /// the base directory is not bound, neither end of the veth pair exists,
    /// and the firewall holds none of the rules.
    pub open spec fn is_down(self) -> bool {
        !self.self_bound && self.mounted == TypeSet::none() && !self.host_link
            && !self.container_link && self.no_rules()
    }

    /// Whether the host holds nothing that tear-down cannot reach: firewall
    /// rules only together with the network namespace, and the container end
    /// of the veth pair only together with the host end.
    pub open spec fn is_coherent(self) -> bool {
        (self.no_rules() || self.mounted.net) && (self.container_link ==> self.host_link)
    }
}

/// A run of a workflow against a host: where the workflow stands, what it
/// wants next, the host as the steps left it, and the steps handed out and
/// answered so far.
pub struct Run<S> {
    pub state: S,
    pub next: NextModel,
    pub host: Host,
    pub done: Seq<Step>,
}

impl Run<UpModel> {
    /// The run after `event` answered the pending step `step`.
    pub open spec fn answered(self, step: Step, event: EventModel) -> Run<UpModel> {
        let (state, next) = up::stepped(self.state, event);
        Run { state, next, host: self.host.after(step), done: self.done.push(step) }
    }
}

impl Run<DownModel> {
    /// The run after `event` answered the pending step `step`.
    pub open spec fn answered(self, step: Step, event: EventModel) -> Run<DownModel> {
        let (state, next) = down::stepped(self.state, event);
        Run { state, next, host: self.host.after(step), done: self.done.push(step) }
    }
}

/// The run of bring-up that starts in `run` and is fed `events`, one for
/// each step handed out, until the events or the workflow end.
pub open spec fn up_run(run: Run<UpModel>, events: Seq<EventModel>) -> Run<
    UpModel,
>
    decreases events.len(),
{
    match run.next {
        NextModel::Do(step) => if events.len() > 0 {
            up_run(run.answered(step, events[0]), events.drop_first())
        } else {
            run
        },
        NextModel::Done(_) => run,
    }
}

/// Whether each of `events`, as far as the run of bring-up takes them, is an
/// answer of the host to the step it answers.
pub open spec fn up_honest(run: Run<UpModel>, events: Seq<EventModel>) -> bool
    decreases events.len(),
{
    match run.next {
        NextModel::Do(step) => if events.len() > 0 {
            run.host.answers(run.state.base_dir, step, events[0]) && up_honest(
                run.answered(step, events[0]),
                events.drop_first(),
            )
        } else {
            true
        },
        NextModel::Done(_) => true,
    }
}

/// The run of bring-up from its start on `host`.
pub open spec fn up_from(base_dir: Seq<char>, host: Host) -> Run<UpModel> {
    let (state, next) = up::started(base_dir);
    Run { state, next, host, done: seq![] }
}

/// The run of tear-down that starts in `run` and is fed `events`.
pub open spec fn down_run(run: Run<DownModel>, events: Seq<EventModel>) -> Run<
    DownModel,
>
    decreases events.len(),
{
    match run.next {
        NextModel::Do(step) => if events.len() > 0 {
            down_run(run.answered(step, events[0]), events.drop_first())
        } else {
            run
        },
        NextModel::Done(_) => run,
    }
}

/// Whether each of `events`, as far as the run of tear-down takes them, is
/// an answer of the host to the step it answers.
pub open spec fn down_honest(run: Run<DownModel>, events: Seq<EventModel>) -> bool
    decreases events.len(),
{
    match run.next {
        NextModel::Do(step) => if events.len() > 0 {
            run.host.answers(run.state.base_dir, step, events[0]) && down_honest(
                run.answered(step, events[0]),
                events.drop_first(),
            )
        } else {
            true
        },
        NextModel::Done(_) => true,
    }
}

/// The run of tear-down from its start on `host`.
pub open spec fn down_from(base_dir: Seq<char>, host: Host) -> Run<DownModel> {
    let (state, next) = down::started(base_dir);
    Run { state, next, host, done: seq![] }
}

} // verus!
