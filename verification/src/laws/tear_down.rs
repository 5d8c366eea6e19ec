//! What tear-down achieves on a host that refuses nothing.

use crate::down;
use crate::down::DownModel;
use crate::effect::{EventModel, NextModel, Rule, Step};
use crate::host::{down_from, down_honest, down_run, up_from, up_honest, up_run, Host, Run};
use crate::laws::bring_up::law_up_brings_up;
use crate::namespace::{status_of, ProcessModel, Status, Type, TypeSet};
use vstd::prelude::*;

verus! {

/// Whether `step` may be the pending step of a phase of tear-down.
spec fn down_fits(phase: down::Phase, step: Step) -> bool {
    match phase {
        down::Phase::ProcessScan => step == Step::ReadProcesses,
        down::Phase::Killing => step is Terminate,
        down::Phase::MountProbe | down::Phase::UnmountProbe => step
            == Step::ReadMounts,
        down::Phase::Cleaning { .. } => step == Step::UnmountProcInside || step
            == Step::UnmountEtcInside || step == Step::DeleteContainerLink,
        down::Phase::HostRoute => step == Step::QueryHostRoute,
        down::Phase::DeletingRule(rule) => step == Step::DeleteRule(rule),
        down::Phase::Interfaces => step == Step::ListInterfaces,
        down::Phase::HostLink => step == Step::DeleteHostLink,
        down::Phase::Unmounting => step is UnmountNamespace || step == Step::UnmountBase,
        down::Phase::Finished => true,
    }
}

/// Whether the pending step or one still to come is `step`.
spec fn to_come(s: DownModel, step: Step) -> bool {
    s.pending == step || s.script.contains(step)
}

/// What tear-down has achieved on the host when it stands in a phase.
spec fn down_reached(s: DownModel, h: Host) -> bool {
    let paired = h.container_link ==> h.host_link;
    match s.phase {
        down::Phase::ProcessScan
        | down::Phase::Killing
        | down::Phase::MountProbe => h.is_coherent(),
        down::Phase::Cleaning { net } => h.is_coherent() && net == h.mounted.net,
        down::Phase::HostRoute => paired,
        down::Phase::DeletingRule(rule) => paired && (rule != Rule::Masquerade
            ==> h.masquerade == 0) && (rule == Rule::ForwardOut ==> h.forward_in == 0),
        down::Phase::Interfaces => paired && h.no_rules(),
        down::Phase::HostLink => h.no_rules(),
        down::Phase::UnmountProbe => h.no_rules() && !h.host_link && !h.container_link,
        down::Phase::Unmounting => h.no_rules() && !h.host_link && !h.container_link && (
        forall|k: Type| h.mounted.has(k) ==> to_come(s, Step::UnmountNamespace(k))) && (
        h.self_bound ==> to_come(s, Step::UnmountBase)),
        down::Phase::Finished => true,
    }
}

/// The invariant of a run of tear-down.
spec fn down_inv(r: Run<DownModel>) -> bool {
    &&& r.state.phase != down::Phase::Finished ==> r.next == NextModel::Do(r.state.pending)
    &&& r.state.phase == down::Phase::Finished ==> r.next == NextModel::Done(Ok(()))
    &&& down_fits(r.state.phase, r.state.pending)
    &&& r.state.phase is Killing || r.state.phase is Cleaning || r.state.phase is Unmounting
        || r.state.script.len() == 0
    &&& forall|i: int|
        0 <= i < r.state.script.len() ==> down_fits(r.state.phase, #[trigger] r.state.script[i])
    &&& down_reached(r.state, r.host)
    &&& r.next is Done ==> r.host.is_down()
}

proof fn lemma_terminations(list: Seq<ProcessModel>)
    ensures
        forall|i: int|
            0 <= i < down::terminations(list).len() ==> (
            #[trigger] down::terminations(list)[i]) is Terminate,
{
}

proof fn lemma_cleaning(mounted: TypeSet)
    ensures
        forall|i: int|
            0 <= i < down::cleaning(mounted).len() ==> down_fits(
                down::Phase::Cleaning { net: mounted.net },
                #[trigger] down::cleaning(mounted)[i],
            ),
{
}

proof fn lemma_unmounts(mounted: TypeSet)
    ensures
        forall|i: int|
            0 <= i < down::unmounts(mounted).len() ==> (
            #[trigger] down::unmounts(mounted)[i]) is UnmountNamespace,
        forall|k: Type|
            #[trigger] mounted.has(k) ==> down::unmounts(mounted).contains(
                Step::UnmountNamespace(k),
            ),
{
    let u = down::unmount_of(mounted, Type::User);
    let p = down::unmount_of(mounted, Type::Pid);
    let m = down::unmount_of(mounted, Type::Mount);
    let n = down::unmount_of(mounted, Type::Net);
    let all = down::unmounts(mounted);
    assert forall|k: Type| #[trigger] mounted.has(k) implies all.contains(
        Step::UnmountNamespace(k),
    ) by {
        match k {
            Type::User => {
                assert(all[0] == Step::UnmountNamespace(k));
            },
            Type::Pid => {
                assert(all[u.len() as int] == Step::UnmountNamespace(k));
            },
            Type::Mount => {
                assert(all[(u.len() + p.len()) as int] == Step::UnmountNamespace(k));
            },
            Type::Net => {
                assert(all[(u.len() + p.len() + m.len()) as int] == Step::UnmountNamespace(k));
            },
        }
    }
}

/// The script of a state after its first step became the pending one.
proof fn lemma_advance(s: DownModel, step: Step)
    requires
        s.script.len() > 0,
        s.script.contains(step),
    ensures
        s.script[0] == step || s.script.drop_first().contains(step),
{
    let j = choose|j: int| 0 <= j < s.script.len() && s.script[j] == step;
    if j > 0 {
        assert(s.script.drop_first()[j - 1] == step);
    }
}

proof fn lemma_down_clearing(r: Run<DownModel>, event: EventModel)
    requires
        down_inv(r),
        r.state.phase is ProcessScan || r.state.phase is Killing || r.state.phase is MountProbe
            || r.state.phase is Cleaning,
        r.host.answers(r.state.base_dir, r.state.pending, event),
    ensures
        down_inv(r.answered(r.state.pending, event)),
{
    let s = r.state;
    let q = r.answered(s.pending, event);
    assert(down::stepped(s, event) == down::clearing(s, event));
    match s.phase {
        down::Phase::ProcessScan => {
            if let EventModel::Processes(processes) = event {
                lemma_terminations(processes.list);
                let steps = down::terminations(processes.list);
                if steps.len() > 0 {
                    assert forall|i: int| 0 <= i < q.state.script.len() implies down_fits(
                        q.state.phase,
                        #[trigger] q.state.script[i],
                    ) by {
                        assert(q.state.script[i] == steps[i + 1]);
                    }
                }
            }
        },
        down::Phase::Killing => {
            if s.script.len() > 0 {
                assert forall|i: int| 0 <= i < q.state.script.len() implies down_fits(
                    q.state.phase,
                    #[trigger] q.state.script[i],
                ) by {
                    assert(q.state.script[i] == s.script[i + 1]);
                }
            }
        },
        down::Phase::MountProbe => {
            if let EventModel::Mounts(mounts) = event {
                let mounted = mounts.mounted_set(s.base_dir);
                lemma_cleaning(mounted);
                let steps = down::cleaning(mounted);
                if steps.len() > 0 {
                    assert forall|i: int| 0 <= i < q.state.script.len() implies down_fits(
                        q.state.phase,
                        #[trigger] q.state.script[i],
                    ) by {
                        assert(q.state.script[i] == steps[i + 1]);
                    }
                }
            }
        },
        down::Phase::Cleaning { net } => {
            if s.script.len() > 0 {
                assert forall|i: int| 0 <= i < q.state.script.len() implies down_fits(
                    q.state.phase,
                    #[trigger] q.state.script[i],
                ) by {
                    assert(q.state.script[i] == s.script[i + 1]);
                }
            }
        },
        _ => {},
    }
}

proof fn lemma_down_disconnecting(r: Run<DownModel>, event: EventModel)
    requires
        down_inv(r),
        r.state.phase is HostRoute || r.state.phase is DeletingRule || r.state.phase is Interfaces
            || r.state.phase is HostLink,
        r.host.answers(r.state.base_dir, r.state.pending, event),
    ensures
        down_inv(r.answered(r.state.pending, event)),
{
    let s = r.state;
    let q = r.answered(s.pending, event);
    assert(s.script.len() == 0 ==> q.state.script.len() == 0);
}

proof fn lemma_down_unmount_probe(r: Run<DownModel>, event: EventModel)
    requires
        down_inv(r),
        r.state.phase is UnmountProbe,
        r.host.answers(r.state.base_dir, r.state.pending, event),
    ensures
        down_inv(r.answered(r.state.pending, event)),
{
    let s = r.state;
    let q = r.answered(s.pending, event);
    assert(down::stepped(s, event) == down::unmounting(s, event));
    if let EventModel::Mounts(mounts) = event {
        let mounted = mounts.mounted_set(s.base_dir);
        lemma_unmounts(mounted);
        let steps = down::unmounts(mounted).push(Step::UnmountBase);
        assert(steps.len() > 0);
        assert(q.state.pending == steps[0]);
        assert(q.state.script == steps.drop_first());
        assert(q.host == r.host);
        assert forall|i: int| 0 <= i < q.state.script.len() implies down_fits(
            q.state.phase,
            #[trigger] q.state.script[i],
        ) by {
            assert(q.state.script[i] == steps[i + 1]);
        }
        assert forall|k: Type| q.host.mounted.has(k) implies to_come(
            q.state,
            Step::UnmountNamespace(k),
        ) by {
            let w = Step::UnmountNamespace(k);
            assert(mounted.has(k));
            assert(down::unmounts(mounted).contains(w));
            let j = choose|j: int|
                0 <= j < down::unmounts(mounted).len() && down::unmounts(
                    mounted,
                )[j] == w;
            assert(steps[j] == w);
            if j > 0 {
                assert(steps.drop_first()[j - 1] == w);
            }
        }
        let j = steps.len() - 1;
        assert(steps[j] == Step::UnmountBase);
        if j > 0 {
            assert(steps.drop_first()[j - 1] == Step::UnmountBase);
        }
        assert(to_come(q.state, Step::UnmountBase));
    }
}

proof fn lemma_down_unmount_next(r: Run<DownModel>, event: EventModel)
    requires
        down_inv(r),
        r.state.phase is Unmounting,
        r.state.script.len() > 0,
    ensures
        down_inv(r.answered(r.state.pending, event)),
{
    let s = r.state;
    let h = r.host;
    let q = r.answered(s.pending, event);
    assert(down::stepped(s, event) == down::unmounting(s, event));
    assert(q.state.pending == s.script[0]);
    assert(q.state.script == s.script.drop_first());
    assert forall|i: int| 0 <= i < q.state.script.len() implies down_fits(
        q.state.phase,
        #[trigger] q.state.script[i],
    ) by {
        assert(q.state.script[i] == s.script[i + 1]);
    }
    assert forall|k: Type| q.host.mounted.has(k) implies to_come(
        q.state,
        Step::UnmountNamespace(k),
    ) by {
        assert(h.mounted.has(k));
        assert(s.pending != Step::UnmountNamespace(k));
        lemma_advance(s, Step::UnmountNamespace(k));
    }
    if q.host.self_bound {
        assert(s.pending != Step::UnmountBase);
        lemma_advance(s, Step::UnmountBase);
    }
}

proof fn lemma_down_unmount_last(r: Run<DownModel>, event: EventModel)
    requires
        down_inv(r),
        r.state.phase is Unmounting,
        r.state.script.len() == 0,
    ensures
        down_inv(r.answered(r.state.pending, event)),
{
    let s = r.state;
    let h = r.host;
    let q = r.answered(s.pending, event);
    assert(down::stepped(s, event) == down::unmounting(s, event));
    assert forall|k: Type| !q.host.mounted.has(k) by {
        if q.host.mounted.has(k) {
            assert(h.mounted.has(k));
            assert(s.pending != Step::UnmountNamespace(k));
            assert(s.script.contains(Step::UnmountNamespace(k)));
        }
    }
    assert(!q.host.mounted.has(Type::User));
    assert(!q.host.mounted.has(Type::Pid));
    assert(!q.host.mounted.has(Type::Mount));
    assert(!q.host.mounted.has(Type::Net));
    assert(q.host.mounted == TypeSet::none());
    if q.host.self_bound {
        assert(s.script.contains(Step::UnmountBase));
    }
}

proof fn lemma_down_unmounting(r: Run<DownModel>, event: EventModel)
    requires
        down_inv(r),
        r.state.phase is UnmountProbe || r.state.phase is Unmounting,
        r.host.answers(r.state.base_dir, r.state.pending, event),
    ensures
        down_inv(r.answered(r.state.pending, event)),
{
    if r.state.phase is UnmountProbe {
        lemma_down_unmount_probe(r, event);
    } else if r.state.script.len() > 0 {
        lemma_down_unmount_next(r, event);
    } else {
        lemma_down_unmount_last(r, event);
    }
}

proof fn lemma_down_step(r: Run<DownModel>, step: Step, event: EventModel)
    requires
        down_inv(r),
        r.next == NextModel::Do(step),
        r.host.answers(r.state.base_dir, step, event),
    ensures
        down_inv(r.answered(step, event)),
{
    match r.state.phase {
        down::Phase::ProcessScan
        | down::Phase::Killing
        | down::Phase::MountProbe
        | down::Phase::Cleaning { .. } => lemma_down_clearing(r, event),
        down::Phase::HostRoute
        | down::Phase::DeletingRule(_)
        | down::Phase::Interfaces
        | down::Phase::HostLink => lemma_down_disconnecting(r, event),
        down::Phase::UnmountProbe | down::Phase::Unmounting => lemma_down_unmounting(
            r,
            event,
        ),
        down::Phase::Finished => {},
    }
}

proof fn lemma_down_run(r: Run<DownModel>, events: Seq<EventModel>)
    requires
        down_inv(r),
        down_honest(r, events),
    ensures
        down_inv(down_run(r, events)),
    decreases events.len(),
{
    if let NextModel::Do(step) = r.next {
        if events.len() > 0 {
            lemma_down_step(r, step, events[0]);
            lemma_down_run(r.answered(step, events[0]), events.drop_first());
        }
    }
}

/// Tear-down takes the container down. On a host that refuses nothing and
/// holds nothing out of reach, the workflow does not fail, and when it is
/// over no namespace is mounted, the base directory is not bound, neither
/// end of the veth pair exists and the firewall holds none of the three
/// rules.
pub proof fn law_down_takes_down(base_dir: Seq<char>, host: Host, events: Seq<EventModel>)
    requires
        host.is_coherent(),
        down_honest(down_from(base_dir, host), events),
    ensures
        ({
            let end = down_run(down_from(base_dir, host), events);
            end.next is Done ==> end.next == NextModel::Done(Ok(())) && end.host.is_down()
        }),
{
    lemma_down_run(down_from(base_dir, host), events);
}

/// Bring-up followed by tear-down leaves nothing behind. After a bring-up
/// that ended well, tear-down on the host as bring-up left it ends, after 20
/// answers and one more for every instance of a firewall rule at the latest;
/// it does not fail; when it is over the host is down, and the status that
/// any reading of the mounts then gives is `Unmounted`.
pub proof fn law_round_trip(
    base_dir: Seq<char>,
    host: Host,
    up_events: Seq<EventModel>,
    down_events: Seq<EventModel>,
)
    requires
        up_honest(up_from(base_dir, host), up_events),
        up_run(up_from(base_dir, host), up_events).next == NextModel::Done(Ok(())),
        down_honest(
            down_from(base_dir, up_run(up_from(base_dir, host), up_events).host),
            down_events,
        ),
    ensures
        ({
            let between = up_run(up_from(base_dir, host), up_events).host;
            let end = down_run(down_from(base_dir, between), down_events);
            &&& down_events.len() >= 20 + between.masquerade + between.forward_in
                + between.forward_out ==> end.next is Done
            &&& end.next is Done ==> {
                &&& end.next == NextModel::Done(Ok(()))
                &&& end.host.is_down()
                &&& forall|event: EventModel|
                    end.host.answers(base_dir, Step::ReadMounts, event) ==> status_of(
                        (#[trigger] event->Mounts_0).mounted_set(base_dir),
                    ) == Status::Unmounted
            }
        }),
{
    law_up_brings_up(base_dir, host, up_events);
    let between = up_run(up_from(base_dir, host), up_events).host;
    law_down_takes_down(base_dir, between, down_events);
    if down_events.len() >= 20 + between.masquerade + between.forward_in + between.forward_out {
        law_down_ends(base_dir, between, down_events);
    }
}

/// Whether a run has handed out no step that unmounts a namespace.
pub open spec fn unmounted_nothing<S>(r: Run<S>) -> bool {
    &&& forall|i: int| 0 <= i < r.done.len() ==> !((#[trigger] r.done[i]) is UnmountNamespace)
    &&& r.next matches NextModel::Do(step) ==> !(step is UnmountNamespace)
}

/// The invariant of a run of tear-down on a host without mounted
/// namespaces.
spec fn calm_inv(r: Run<DownModel>) -> bool {
    &&& r.state.phase != down::Phase::Finished ==> r.next == NextModel::Do(r.state.pending)
    &&& r.state.phase == down::Phase::Finished ==> r.next == NextModel::Done(Ok(()))
    &&& down_fits(r.state.phase, r.state.pending)
    &&& r.state.phase is Killing || r.state.script.len() == 0
    &&& forall|i: int|
        0 <= i < r.state.script.len() ==> down_fits(r.state.phase, #[trigger] r.state.script[i])
    &&& r.state.phase is ProcessScan || r.state.phase is Killing || r.state.phase is MountProbe
        || r.state.phase is Interfaces || r.state.phase is HostLink
        || r.state.phase is UnmountProbe || r.state.phase is Unmounting
        || r.state.phase is Finished
    &&& r.state.phase is Unmounting ==> r.state.pending == Step::UnmountBase
    &&& r.host.mounted == TypeSet::none()
    &&& unmounted_nothing(r)
}

proof fn lemma_calm_step(r: Run<DownModel>, step: Step, event: EventModel)
    requires
        calm_inv(r),
        r.next == NextModel::Do(step),
        r.host.answers(r.state.base_dir, step, event),
    ensures
        calm_inv(r.answered(step, event)),
{
    let s = r.state;
    let q = r.answered(step, event);
    assert forall|i: int| 0 <= i < q.done.len() implies !((#[trigger] q.done[i])
        is UnmountNamespace) by {
        if i < r.done.len() {
            assert(q.done[i] == r.done[i]);
        }
    }
    match s.phase {
        down::Phase::ProcessScan => {
            if let EventModel::Processes(processes) = event {
                lemma_terminations(processes.list);
                let steps = down::terminations(processes.list);
                if steps.len() > 0 {
                    assert forall|i: int| 0 <= i < q.state.script.len() implies down_fits(
                        q.state.phase,
                        #[trigger] q.state.script[i],
                    ) by {
                        assert(q.state.script[i] == steps[i + 1]);
                    }
                }
            }
        },
        down::Phase::Killing => {
            if s.script.len() > 0 {
                assert forall|i: int| 0 <= i < q.state.script.len() implies down_fits(
                    q.state.phase,
                    #[trigger] q.state.script[i],
                ) by {
                    assert(q.state.script[i] == s.script[i + 1]);
                }
            }
        },
        down::Phase::MountProbe => {
            assert(down::cleaning(TypeSet::none()).len() == 0);
        },
        down::Phase::UnmountProbe => {
            let steps = down::unmounts(TypeSet::none()).push(Step::UnmountBase);
            assert(steps =~= seq![Step::UnmountBase]);
        },
        _ => {},
    }
}

proof fn lemma_calm_run(r: Run<DownModel>, events: Seq<EventModel>)
    requires
        calm_inv(r),
        down_honest(r, events),
    ensures
        calm_inv(down_run(r, events)),
    decreases events.len(),
{
    if let NextModel::Do(step) = r.next {
        if events.len() > 0 {
            lemma_calm_step(r, step, events[0]);
            lemma_calm_run(r.answered(step, events[0]), events.drop_first());
        }
    }
}

/// Tear-down is safe where nothing is mounted. On a host that refuses
/// nothing and has no namespace mounted, the workflow does not fail and
/// hands out no step that unmounts a namespace.
pub proof fn law_down_of_nothing(base_dir: Seq<char>, host: Host, events: Seq<EventModel>)
    requires
        host.mounted == TypeSet::none(),
        down_honest(down_from(base_dir, host), events),
    ensures
        ({
            let end = down_run(down_from(base_dir, host), events);
            &&& end.next is Done ==> end.next == NextModel::Done(Ok(()))
            &&& unmounted_nothing(end)
            &&& end.host.mounted == TypeSet::none()
        }),
{
    lemma_calm_run(down_from(base_dir, host), events);
}

/// The number of rule instances that tear-down has still to delete when it
/// is at `rule`, and the failed deletions that end its loops.
spec fn rules_left(rule: Rule, h: Host) -> int {
    match rule {
        Rule::Masquerade => (h.masquerade + h.forward_in + h.forward_out + 3) as int,
        Rule::ForwardIn => (h.forward_in + h.forward_out + 2) as int,
        Rule::ForwardOut => (h.forward_out + 1) as int,
    }
}

/// The number of answers after which tear-down is over at the latest.
spec fn down_budget(s: DownModel, h: Host) -> int {
    let rules = rules_left(Rule::Masquerade, h);
    match s.phase {
        down::Phase::ProcessScan => 17 + rules,
        down::Phase::Killing => 14 + rules + s.script.len(),
        down::Phase::MountProbe => 13 + rules,
        down::Phase::Cleaning { .. } => 10 + rules + s.script.len(),
        down::Phase::HostRoute => 9 + rules,
        down::Phase::DeletingRule(rule) => 8 + rules_left(rule, h),
        down::Phase::Interfaces => 8,
        down::Phase::HostLink => 7,
        down::Phase::UnmountProbe => 6,
        down::Phase::Unmounting => 1 + s.script.len() as int,
        down::Phase::Finished => 0,
    }
}

/// The invariant of a run of tear-down that bounds its scripts.
spec fn bounded_inv(r: Run<DownModel>) -> bool {
    &&& r.state.phase != down::Phase::Finished ==> r.next == NextModel::Do(r.state.pending)
    &&& r.state.phase == down::Phase::Finished ==> r.next is Done
    &&& down_fits(r.state.phase, r.state.pending)
    &&& forall|i: int|
        0 <= i < r.state.script.len() ==> down_fits(r.state.phase, #[trigger] r.state.script[i])
    &&& match r.state.phase {
        down::Phase::Killing | down::Phase::Cleaning { .. } => r.state.script.len() <= 2,
        down::Phase::Unmounting => r.state.script.len() <= 4,
        _ => r.state.script.len() == 0,
    }
}

proof fn lemma_bounded_scan(r: Run<DownModel>, event: EventModel)
    requires
        bounded_inv(r),
        r.state.phase is ProcessScan,
        r.host.answers(r.state.base_dir, r.state.pending, event),
    ensures
        bounded_inv(r.answered(r.state.pending, event)),
        0 <= down_budget(
            r.answered(r.state.pending, event).state,
            r.answered(r.state.pending, event).host,
        ) < down_budget(r.state, r.host),
{
    let s = r.state;
    let q = r.answered(s.pending, event);
    assert(down::stepped(s, event) == down::clearing(s, event));
    if let EventModel::Processes(processes) = event {
        lemma_terminations(processes.list);
        let steps = down::terminations(processes.list);
        assert(steps.len() <= 3);
        if steps.len() > 0 {
            assert forall|i: int| 0 <= i < q.state.script.len() implies down_fits(
                q.state.phase,
                #[trigger] q.state.script[i],
            ) by {
                assert(q.state.script[i] == steps[i + 1]);
            }
        }
    }
}

proof fn lemma_bounded_probe(r: Run<DownModel>, event: EventModel)
    requires
        bounded_inv(r),
        r.state.phase is MountProbe,
        r.host.answers(r.state.base_dir, r.state.pending, event),
    ensures
        bounded_inv(r.answered(r.state.pending, event)),
        0 <= down_budget(
            r.answered(r.state.pending, event).state,
            r.answered(r.state.pending, event).host,
        ) < down_budget(r.state, r.host),
{
    let s = r.state;
    let q = r.answered(s.pending, event);
    assert(down::stepped(s, event) == down::clearing(s, event));
    if let EventModel::Mounts(mounts) = event {
        let mounted = mounts.mounted_set(s.base_dir);
        lemma_cleaning(mounted);
        let steps = down::cleaning(mounted);
        assert(steps.len() <= 3);
        if steps.len() > 0 {
            assert forall|i: int| 0 <= i < q.state.script.len() implies down_fits(
                q.state.phase,
                #[trigger] q.state.script[i],
            ) by {
                assert(q.state.script[i] == steps[i + 1]);
            }
        }
    }
}

proof fn lemma_bounded_unmount_probe(r: Run<DownModel>, event: EventModel)
    requires
        bounded_inv(r),
        r.state.phase is UnmountProbe,
        r.host.answers(r.state.base_dir, r.state.pending, event),
    ensures
        bounded_inv(r.answered(r.state.pending, event)),
        0 <= down_budget(
            r.answered(r.state.pending, event).state,
            r.answered(r.state.pending, event).host,
        ) < down_budget(r.state, r.host),
{
    let s = r.state;
    let q = r.answered(s.pending, event);
    assert(down::stepped(s, event) == down::unmounting(s, event));
    if let EventModel::Mounts(mounts) = event {
        let mounted = mounts.mounted_set(s.base_dir);
        lemma_unmounts(mounted);
        let steps = down::unmounts(mounted).push(Step::UnmountBase);
        assert(down::unmounts(mounted).len() <= 4);
        assert(q.state.pending == steps[0]);
        assert(q.state.script == steps.drop_first());
        assert forall|i: int| 0 <= i < q.state.script.len() implies down_fits(
            q.state.phase,
            #[trigger] q.state.script[i],
        ) by {
            assert(q.state.script[i] == steps[i + 1]);
        }
    }
}

proof fn lemma_bounded_script(r: Run<DownModel>, event: EventModel)
    requires
        bounded_inv(r),
        r.state.phase is Killing || r.state.phase is Cleaning || r.state.phase is Unmounting,
        r.host.answers(r.state.base_dir, r.state.pending, event),
    ensures
        bounded_inv(r.answered(r.state.pending, event)),
        0 <= down_budget(
            r.answered(r.state.pending, event).state,
            r.answered(r.state.pending, event).host,
        ) < down_budget(r.state, r.host),
{
    let s = r.state;
    let q = r.answered(s.pending, event);
    if s.script.len() > 0 {
        assert(q.state.script == s.script.drop_first());
        assert forall|i: int| 0 <= i < q.state.script.len() implies down_fits(
            q.state.phase,
            #[trigger] q.state.script[i],
        ) by {
            assert(q.state.script[i] == s.script[i + 1]);
        }
    }
}

proof fn lemma_bounded_network(r: Run<DownModel>, event: EventModel)
    requires
        bounded_inv(r),
        r.state.phase is HostRoute || r.state.phase is DeletingRule || r.state.phase is Interfaces
            || r.state.phase is HostLink,
        r.host.answers(r.state.base_dir, r.state.pending, event),
    ensures
        bounded_inv(r.answered(r.state.pending, event)),
        0 <= down_budget(
            r.answered(r.state.pending, event).state,
            r.answered(r.state.pending, event).host,
        ) < down_budget(r.state, r.host),
{
    let s = r.state;
    let q = r.answered(s.pending, event);
}

proof fn lemma_bounded_step(r: Run<DownModel>, step: Step, event: EventModel)
    requires
        bounded_inv(r),
        r.next == NextModel::Do(step),
        r.host.answers(r.state.base_dir, step, event),
    ensures
        bounded_inv(r.answered(step, event)),
        0 <= down_budget(r.answered(step, event).state, r.answered(step, event).host)
            < down_budget(r.state, r.host),
{
    match r.state.phase {
        down::Phase::ProcessScan => lemma_bounded_scan(r, event),
        down::Phase::MountProbe => lemma_bounded_probe(r, event),
        down::Phase::UnmountProbe => lemma_bounded_unmount_probe(r, event),
        down::Phase::Killing
        | down::Phase::Cleaning { .. }
        | down::Phase::Unmounting => lemma_bounded_script(r, event),
        down::Phase::HostRoute
        | down::Phase::DeletingRule(_)
        | down::Phase::Interfaces
        | down::Phase::HostLink => lemma_bounded_network(r, event),
        down::Phase::Finished => {},
    }
}

proof fn lemma_bounded_run(r: Run<DownModel>, events: Seq<EventModel>)
    requires
        bounded_inv(r),
        down_honest(r, events),
        events.len() >= down_budget(r.state, r.host),
    ensures
        down_run(r, events).next is Done,
    decreases events.len(),
{
    if let NextModel::Do(step) = r.next {
        if events.len() > 0 {
            lemma_bounded_step(r, step, events[0]);
            lemma_bounded_run(r.answered(step, events[0]), events.drop_first());
        }
    }
}

/// Tear-down comes to an end. On a host that refuses nothing it is over
/// after 20 answers and one more for every instance of a firewall rule, at
/// the latest.
pub proof fn law_down_ends(base_dir: Seq<char>, host: Host, events: Seq<EventModel>)
    requires
        down_honest(down_from(base_dir, host), events),
        events.len() >= 20 + host.masquerade + host.forward_in + host.forward_out,
    ensures
        down_run(down_from(base_dir, host), events).next is Done,
{
    lemma_bounded_run(down_from(base_dir, host), events);
}

} // verus!
