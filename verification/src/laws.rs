//! What holds of the library as a whole, stated over the model of its stages
//! and transitions.
//!
//! The values of a counter are the kernel's. The laws say what the library
//! does with the kernel's answers whatever they are; they do not say how the
//! kernel answers.

use crate::allocation::{
    after_allocate, after_attach, after_health, after_init, attach_stage, begin, first_refusal,
    has_nul, next, outcome, run, Answers, PlanView, Stage,
};
use crate::counter::{
    detach_of, detaches, read_result, read_ticket, release_plan, set_result, set_ticket,
    start_verdict, started, stop_request, stopped, CounterView, Reading, Setting,
};
use crate::error::{Error, ErrorKind};
use crate::kernel::Request;
use crate::os::Errno;
use vstd::prelude::*;

verus! {

/// A counter comes out of its allocation idle, with the id that the kernel
/// gave and attached to the target processes of the plan. A read of it under a
/// healthy verdict goes to the kernel for that id, and returns the value that
/// the kernel answers with.
pub proof fn law_fresh_counter_reads_kernel_value(
    plan: PlanView,
    id: u32,
    attached: nat,
    value: u64,
)
    requires
        attach_stage(plan, id, attached) is Ready,
    ensures
        attach_stage(plan, id, attached) == Stage::Ready(
            CounterView { id, pids: plan.pids, running: false },
        ),
        read_ticket(CounterView { id, pids: plan.pids, running: false }, Ok(())) == Ok::<
            Reading,
            Error,
        >(Reading { id }),
        read_result(Ok(value)) == Ok::<u64, Error>(value),
{
}

/// Values pass through the library unchanged, for every value of 64 bits: a
/// set asks the kernel for exactly the given value and returns the previous
/// value as the kernel answered it, and a read returns the kernel's answer.
pub proof fn law_values_pass_unchanged(c: CounterView, value: u64, previous: u64)
    ensures
        set_ticket(c, Ok(()), value) == Ok::<Setting, Error>(Setting { id: c.id, value }),
        set_result(Ok(previous)) == Ok::<u64, Error>(previous),
        read_result(Ok(value)) == Ok::<u64, Error>(value),
{
}

/// A set of a running counter is put to the kernel like any other, and the
/// kernel's refusal of it as busy is reported as `Running`, with the cause.
pub proof fn law_set_while_running(c: CounterView, value: u64)
    requires
        c.running,
    ensures
        set_ticket(c, Ok(()), value) is Ok,
        set_result(Err(Errno::Busy)) == Err::<u64, Error>(
            Error { kind: ErrorKind::Running, cause: Some(Errno::Busy) },
        ),
{
}

/// A counter that was started and then stopped is idle, is otherwise what it
/// was before the start, and can be started again; while it runs it cannot.
pub proof fn law_restart_after_stop(c: CounterView)
    requires
        !c.running,
    ensures
        started(c, Ok(())) matches Ok(running) && {
            &&& start_verdict(running, Ok(())) == Err::<(), Error>(
                Error { kind: ErrorKind::Running, cause: None },
            )
            &&& stopped(running) == c
            &&& start_verdict(stopped(running), Ok(())) is Ok
        },
{
}

/// Where the kernel refuses an attachment because the counter is attached to
/// the process already, the allocation fails with `AlreadyAttached`; where it
/// refuses because there is no such process, or finds the target invalid, with
/// `BadTarget`. Either way the counter is given back: the cleanup is the
/// release plan of the counter with the attachments made before.
pub proof fn law_attach_refusals(plan: PlanView, id: u32, attached: nat)
    ensures
        after_attach(plan, id, attached, Err(Errno::Exists)) == Stage::Failed(
            release_plan(id, Some(plan.targets().take(attached as int))),
            Error { kind: ErrorKind::AlreadyAttached, cause: Some(Errno::Exists) },
        ),
        after_attach(plan, id, attached, Err(Errno::NoProcess)) == Stage::Failed(
            release_plan(id, Some(plan.targets().take(attached as int))),
            Error { kind: ErrorKind::BadTarget, cause: Some(Errno::NoProcess) },
        ),
        after_attach(plan, id, attached, Err(Errno::Invalid)) == Stage::Failed(
            release_plan(id, Some(plan.targets().take(attached as int))),
            Error { kind: ErrorKind::BadTarget, cause: Some(Errno::Invalid) },
        ),
{
}

/// An event name with a zero byte in it never reaches the kernel: under no
/// health verdict does the allocation go on to ask for the counter, and under
/// a healthy one it fails with `InvalidEventSpec` and has nothing to undo.
/// Where the subsystem is ready, the allocation begins at the health flag, so
/// that no primitive of the kernel is invoked at all.
pub proof fn law_nul_in_event_name(plan: PlanView, health: Result<(), Error>)
    requires
        has_nul(plan.spec),
    ensures
        begin(plan, true) == Stage::Health(plan),
        after_health(plan, health) is Failed,
        after_health(plan, Ok(())) == Stage::Failed(
            Seq::empty(),
            Error { kind: ErrorKind::InvalidEventSpec, cause: None },
        ),
{
}

/// Where the kernel finds the request for a counter invalid, as it does for an
/// event that it does not know, the allocation fails with `AllocInit`, with
/// the cause, and has nothing to undo.
pub proof fn law_unknown_event(plan: PlanView)
    ensures
        after_allocate(plan, Err(Errno::Invalid)) == Stage::Failed(
            Seq::empty(),
            Error { kind: ErrorKind::AllocInit, cause: Some(Errno::Invalid) },
        ),
{
}

/// Under a health verdict with an error no operation touches the kernel: a
/// start, a read and a set fail with that error, a stop asks for nothing, and
/// an allocation that has come to the health flag fails with it and has
/// nothing to undo.
pub proof fn law_unhealthy_touches_nothing(c: CounterView, plan: PlanView, e: Error, value: u64)
    ensures
        start_verdict(c, Err(e)) == Err::<(), Error>(e),
        read_ticket(c, Err(e)) == Err::<Reading, Error>(e),
        set_ticket(c, Err(e), value) == Err::<Setting, Error>(e),
        stop_request(c, Err(e)) == None::<Request>,
        after_health(plan, Err(e)) == Stage::Failed(Seq::empty(), e),
{
}

/// The watcher is installed after an initialisation that succeeded, and no
/// stage but this one leads to it. The subsystem is initialised at the
/// beginning of an allocation that finds it not ready, and no stage but this
/// one leads to it: so it is initialised until it has succeeded once, and the
/// watcher is installed once.
pub proof fn law_watcher_installed_once(stage: Stage, answers: Answers, plan: PlanView, ready: bool)
    ensures
        next(stage, answers) is Watch <==> stage is Init && answers.init is Ok,
        next(stage, answers) is Init <==> false,
        begin(plan, ready) is Init <==> !ready,
        !(begin(plan, ready) is Watch),
{
}

/// From the stage in which the counter `id` is attached to the first
/// `attached` target processes, the allocation ends where the first refusal
/// among the answers that are left puts it, and with the counter where there
/// is none.
proof fn lemma_run_attach(plan: PlanView, id: u32, attached: nat, answers: Answers)
    requires
        attached <= plan.targets().len(),
    ensures
        run(attach_stage(plan, id, attached), answers) == ({
            let refused = first_refusal(answers.attach, plan.targets().len(), attached);
            if refused >= plan.targets().len() {
                Stage::Ready(CounterView { id, pids: plan.pids, running: false })
            } else {
                after_attach(plan, id, refused, answers.attach[refused as int])
            }
        }),
    decreases plan.targets().len() - attached,
{
    let stage = attach_stage(plan, id, attached);
    if attached < plan.targets().len() {
        assert(stage == Stage::Attach { plan, id, attached });
        assert(run(stage, answers) == run(next(stage, answers), answers));
        if answers.attach[attached as int] is Ok {
            lemma_run_attach(plan, id, attached + 1, answers);
        } else {
            let last = after_attach(plan, id, attached, answers.attach[attached as int]);
            assert(last is Failed);
            assert(run(last, answers) == last);
        }
    } else {
        assert(run(stage, answers) == stage);
    }
}

/// An allocation that is taken from its beginning through the stages, each
/// with the kernel's answer to it, ends as [`outcome`] says: the steps are
/// made in the order of initialisation, health flag, event name, counter and
/// attachments, the attachments in the order of the target processes, and the
/// first refusal ends it.
pub proof fn law_allocation_outcome(plan: PlanView, ready: bool, answers: Answers)
    ensures
        run(begin(plan, ready), answers) == outcome(plan, ready, answers),
        outcome(plan, ready, answers) is Ready || outcome(plan, ready, answers) is Failed,
{
    let health = Stage::Health(plan);
    let checked = after_health(plan, answers.health);
    assert(run(health, answers) == run(next(health, answers), answers));
    if checked is Allocate {
        let allocated = after_allocate(plan, answers.allocate);
        assert(run(checked, answers) == run(next(checked, answers), answers));
        match answers.allocate {
            Ok(id) => {
                lemma_run_attach(plan, id, 0, answers);
            },
            Err(_) => {
                assert(run(allocated, answers) == allocated);
            },
        }
    } else {
        assert(run(checked, answers) == checked);
    }
    if !ready {
        let first = Stage::Init(plan);
        let initialised = after_init(plan, answers.init);
        assert(run(first, answers) == run(next(first, answers), answers));
        if answers.init is Ok {
            assert(initialised == Stage::Watch(plan));
            assert(run(initialised, answers) == run(next(initialised, answers), answers));
        } else {
            assert(run(initialised, answers) == initialised);
        }
    }
    lemma_first_refusal_in_range(answers.attach, plan.targets().len(), 0);
}

/// The first refusal lies between the place from which it is looked for and
/// the number of target processes, and where it is the place of a target
/// process, the answer there is a refusal.
proof fn lemma_first_refusal_in_range(attach: Seq<Result<(), Errno>>, targets: nat, from: nat)
    requires
        from <= targets,
    ensures
        from <= first_refusal(attach, targets, from) <= targets,
        first_refusal(attach, targets, from) < targets ==> attach[first_refusal(
            attach,
            targets,
            from,
        ) as int] is Err,
    decreases targets - from,
{
    if from < targets && attach[from as int] is Ok {
        lemma_first_refusal_in_range(attach, targets, from + 1);
    }
}

/// The requests that end the attachments of a counter are detaches of that
/// counter from processes that it is attached to, and none of them detaches
/// the calling process (`0`).
pub proof fn law_detaches_spare_caller(id: u32, pids: Seq<i32>)
    ensures
        detaches(id, pids).len() <= pids.len(),
        forall|i: int|
            0 <= i < detaches(id, pids).len() ==> (#[trigger] detaches(id, pids)[i]
                matches Request::Detach { id: counter, pid } && counter == id && pid != 0
                && pids.contains(pid)),
    decreases pids.len(),
{
    if pids.len() > 0 {
        let before = pids.drop_last();
        law_detaches_spare_caller(id, before);
        assert forall|i: int| 0 <= i < detaches(id, pids).len() implies (#[trigger] detaches(
            id,
            pids,
        )[i] matches Request::Detach { id: counter, pid } && counter == id && pid != 0
            && pids.contains(pid)) by {
            if i < detaches(id, before).len() {
                let request = detaches(id, before)[i];
                assert(detaches(id, pids)[i] == request);
                if let Request::Detach { id: counter, pid } = request {
                    let k = choose|k: int| 0 <= k < before.len() && before[k] == pid;
                    assert(pids[k] == pid);
                }
            } else {
                assert(detach_of(id, pids.last()) is Some);
                assert(pids[pids.len() - 1] == pids.last());
            }
        }
    }
}

/// Every process that a counter is attached to, but the calling one (`0`), is
/// detached when the counter is given back.
pub proof fn law_detaches_cover_targets(id: u32, pids: Seq<i32>, k: int)
    requires
        0 <= k < pids.len(),
        pids[k] != 0,
    ensures
        detaches(id, pids).contains(Request::Detach { id, pid: pids[k] }),
    decreases pids.len(),
{
    let before = pids.drop_last();
    let wanted = Request::Detach { id, pid: pids[k] };
    if k == pids.len() - 1 {
        let all = detaches(id, pids);
        assert(all == detaches(id, before).push(wanted));
        assert(all[all.len() - 1] == wanted);
    } else {
        law_detaches_cover_targets(id, before, k);
        let i = choose|i: int| 0 <= i < detaches(id, before).len() && detaches(id, before)[i] == wanted;
        assert(detaches(id, pids)[i] == wanted);
    }
}

/// Giving a counter back ends with the release of its id, after the
/// attachments were ended, and detaches the calling process (`0`) at no point.
pub proof fn law_release_order(id: u32, pids: Option<Seq<i32>>)
    ensures
        release_plan(id, pids).len() >= 1,
        release_plan(id, pids).last() == (Request::Release { id }),
        forall|i: int|
            0 <= i < release_plan(id, pids).len() - 1 ==> (#[trigger] release_plan(id, pids)[i]
                matches Request::Detach { id: counter, pid } && counter == id && pid != 0),
        forall|i: int|
            0 <= i < release_plan(id, pids).len() ==> #[trigger] release_plan(id, pids)[i] != (
            Request::Detach { id, pid: 0 }),
{
    let attached = match pids {
        Some(pids) => pids,
        None => Seq::empty(),
    };
    law_detaches_spare_caller(id, attached);
    assert forall|i: int| 0 <= i < release_plan(id, pids).len() - 1 implies (
    #[trigger] release_plan(id, pids)[i] matches Request::Detach { id: counter, pid } && counter
        == id && pid != 0) by {
        assert(release_plan(id, pids)[i] == detaches(id, attached)[i]);
    }
}

} // verus!
