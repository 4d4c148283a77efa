//! The allocation of a counter.
//!
//! An allocation is a sequence of kernel primitives in which each answer
//! decides what comes next: the subsystem is initialised if it was not, the
//! health flag is consulted, the counter is allocated, and it is attached to
//! each target process. [`Allocation`] is the stage that an allocation has
//! reached. Each stage but the last two names what the caller is to do; its
//! `done` takes the result and yields the next stage.
//!
//! The caller holds the lock that guards the [`Subsystem`] from
//! [`CounterConfig::allocate`] until it has reached [`Allocation::Ready`], or
//! has reached [`Allocation::Failed`] and made the requests of the cleanup.

use crate::counter::{release_plan, AttachHandle, Counter, CounterView};
use crate::error::{new_error, new_os_error, Error, ErrorKind};
use crate::kernel::{Request, Subsystem};
use crate::os::Errno;
use crate::scope::Scope;
use crate::signal::{watched, Signals};
use crate::CPU_ANY;
use vstd::prelude::*;
use vstd::slice::slice_to_vec;
use vstd::string::StringSliceAdditionalSpecFns;

verus! {

/// What a [`CounterConfig`] holds: the CPU that was asked for, if one was, and
/// the target processes, if any were given.
pub struct ConfigView {
    pub cpu: Option<i32>,
    pub pids: Option<Seq<i32>>,
}

/// Configure event counter parameters.
///
/// Unless specified, a counter is allocated in counting mode with a system-wide
/// scope, recording events across all CPUs.
#[derive(Debug)]
pub struct CounterConfig {
    cpu: Option<i32>,
    pids: Option<Vec<i32>>,
}

impl View for CounterConfig {
    type V = ConfigView;

    closed spec fn view(&self) -> ConfigView {
        ConfigView {
            cpu: self.cpu,
            pids: match self.pids {
                Some(pids) => Some(pids@),
                None => None,
            },
        }
    }
}

impl Default for CounterConfig {
    /// The configuration of a system-wide counter on all CPUs.
    fn default() -> (r: CounterConfig)
        ensures
            r@ == (ConfigView { cpu: None, pids: None }),
    {
        CounterConfig { cpu: None, pids: None }
    }
}

impl Clone for CounterConfig {
    fn clone(&self) -> (r: CounterConfig)
        ensures
            r@ == self@,
    {
        CounterConfig { cpu: self.cpu, pids: copy_pids(&self.pids) }
    }
}

/// A copy of the target processes.
fn copy_pids(pids: &Option<Vec<i32>>) -> (r: Option<Vec<i32>>)
    ensures
        match (r, *pids) {
            (Some(copy), Some(pids)) => copy@ == pids@,
            (None, None) => true,
            _ => false,
        },
{
    match pids {
        Some(pids) => Some(slice_to_vec(pids.as_slice())),
        None => None,
    }
}

/// What is to be allocated: the event's name as bytes, the CPU, and the target
/// processes (`None` for a system-wide counter).
pub struct PlanView {
    pub spec: Seq<u8>,
    pub cpu: i32,
    pub pids: Option<Seq<i32>>,
}

impl PlanView {
    /// The scope of the counter: process-scoped where target processes were
    /// given, even if none is among them; system-wide else.
    pub open spec fn scope(self) -> Scope {
        if self.pids is Some {
            Scope::Process
        } else {
            Scope::System
        }
    }

    /// The target processes; none for a system-wide counter.
    pub open spec fn targets(self) -> Seq<i32> {
        match self.pids {
            Some(pids) => pids,
            None => Seq::empty(),
        }
    }
}

/// What `config` asks for when a counter for the event `spec` is allocated
/// with it: all CPUs where no CPU was set.
pub open spec fn plan_of(config: ConfigView, spec: Seq<u8>) -> PlanView {
    PlanView {
        spec,
        cpu: match config.cpu {
            Some(cpu) => cpu,
            None => CPU_ANY,
        },
        pids: config.pids,
    }
}

/// Whether the event's name holds a zero byte, which the kernel's strings
/// cannot hold.
pub open spec fn has_nul(spec: Seq<u8>) -> bool {
    exists|i: int| 0 <= i < spec.len() && spec[i] == 0u8
}

/// The event's name as the kernel takes it: its bytes and a closing zero byte.
pub open spec fn c_string(spec: Seq<u8>) -> Seq<u8> {
    spec.push(0u8)
}

/// The kind of failure that the operating system's error `e` means when the
/// subsystem cannot be initialised.
pub open spec fn init_failure(e: Errno) -> ErrorKind {
    match e {
        Errno::NoEntry => ErrorKind::Init,
        Errno::NoDevice => ErrorKind::Unsupported,
        Errno::VersionMismatch => ErrorKind::VersionMismatch,
        _ => ErrorKind::Unknown,
    }
}

/// The kind of failure that the operating system's error `e` means when the
/// kernel refuses to allocate a counter.
pub open spec fn allocate_failure(e: Errno) -> ErrorKind {
    match e {
        Errno::Invalid => ErrorKind::AllocInit,
        _ => ErrorKind::Unknown,
    }
}

/// The kind of failure that the operating system's error `e` means when the
/// kernel refuses to attach a counter to a process.
pub open spec fn attach_failure(e: Errno) -> ErrorKind {
    match e {
        Errno::Exists => ErrorKind::AlreadyAttached,
        Errno::NotPermitted => ErrorKind::Forbidden,
        Errno::Invalid | Errno::NoProcess => ErrorKind::BadTarget,
        _ => ErrorKind::Unknown,
    }
}

/// The stage that an allocation has reached, as a value of the model.
pub enum Stage {
    /// The subsystem is to be initialised.
    Init(PlanView),
    /// The health watcher is to be installed.
    Watch(PlanView),
    /// The health flag is to be consulted.
    Health(PlanView),
    /// The counter is to be allocated.
    Allocate(PlanView),
    /// The counter `id` is attached to the first `attached` target processes
    /// and is to be attached to the next one.
    Attach { plan: PlanView, id: u32, attached: nat },
    /// The allocation has succeeded with this counter.
    Ready(CounterView),
    /// The allocation has failed with this error, and these requests are to be
    /// made to undo what was done.
    Failed(Seq<Request>, Error),
}

/// The stage at which an allocation begins: with the initialisation, unless
/// the subsystem is ready.
pub open spec fn begin(plan: PlanView, ready: bool) -> Stage {
    if ready {
        Stage::Health(plan)
    } else {
        Stage::Init(plan)
    }
}

/// The stage after the kernel's answer to the initialisation.
pub open spec fn after_init(plan: PlanView, outcome: Result<(), Errno>) -> Stage {
    match outcome {
        Ok(_) => Stage::Watch(plan),
        Err(cause) => Stage::Failed(
            Seq::empty(),
            Error { kind: init_failure(cause), cause: Some(cause) },
        ),
    }
}

/// The stage after the verdict on the health flag: the allocation fails with the
/// verdict's error, or with `InvalidEventSpec` where the event's name holds a
/// zero byte; else the kernel is asked for the counter.
pub open spec fn after_health(plan: PlanView, health: Result<(), Error>) -> Stage {
    match health {
        Err(e) => Stage::Failed(Seq::empty(), e),
        Ok(_) => if has_nul(plan.spec) {
            Stage::Failed(Seq::empty(), Error { kind: ErrorKind::InvalidEventSpec, cause: None })
        } else {
            Stage::Allocate(plan)
        },
    }
}

/// The stage of an allocation whose counter `id` is attached to the first
/// `attached` target processes: ready when those are all.
pub open spec fn attach_stage(plan: PlanView, id: u32, attached: nat) -> Stage {
    if attached >= plan.targets().len() {
        Stage::Ready(CounterView { id, pids: plan.pids, running: false })
    } else {
        Stage::Attach { plan, id, attached }
    }
}

/// The stage after the kernel's answer to the allocation of the counter.
pub open spec fn after_allocate(plan: PlanView, outcome: Result<u32, Errno>) -> Stage {
    match outcome {
        Ok(id) => attach_stage(plan, id, 0),
        Err(cause) => Stage::Failed(
            Seq::empty(),
            Error { kind: allocate_failure(cause), cause: Some(cause) },
        ),
    }
}

/// The stage after the kernel's answer to the attachment of the counter `id`
/// to the target process that follows the first `attached`. After a refusal
/// the allocation fails, the processes that the counter is attached to are
/// detached and the counter is released.
pub open spec fn after_attach(
    plan: PlanView,
    id: u32,
    attached: nat,
    outcome: Result<(), Errno>,
) -> Stage {
    match outcome {
        Ok(_) => attach_stage(plan, id, attached + 1),
        Err(cause) => Stage::Failed(
            release_plan(id, Some(plan.targets().take(attached as int))),
            Error { kind: attach_failure(cause), cause: Some(cause) },
        ),
    }
}

/// The kernel's answers in the course of one allocation, and the verdict on
/// the health flag. `attach` holds the answers to the attachments, by the
/// place of the target process among the targets.
pub struct Answers {
    pub init: Result<(), Errno>,
    pub health: Result<(), Error>,
    pub allocate: Result<u32, Errno>,
    pub attach: Seq<Result<(), Errno>>,
}

/// How far a stage is from the end of the allocation, in kinds of stages.
pub open spec fn rank(stage: Stage) -> nat {
    match stage {
        Stage::Init(_) => 5,
        Stage::Watch(_) => 4,
        Stage::Health(_) => 3,
        Stage::Allocate(_) => 2,
        Stage::Attach { .. } => 1,
        Stage::Ready(_) => 0,
        Stage::Failed(_, _) => 0,
    }
}

/// The target processes that the counter of a stage is yet to be attached to.
pub open spec fn pending(stage: Stage) -> nat {
    match stage {
        Stage::Attach { plan, attached, .. } => if attached < plan.targets().len() {
            (plan.targets().len() - attached) as nat
        } else {
            0
        },
        _ => 0,
    }
}

/// The stage that follows `stage` under the given answers; a last stage
/// follows itself.
pub open spec fn next(stage: Stage, answers: Answers) -> Stage {
    match stage {
        Stage::Init(plan) => after_init(plan, answers.init),
        Stage::Watch(plan) => Stage::Health(plan),
        Stage::Health(plan) => after_health(plan, answers.health),
        Stage::Allocate(plan) => after_allocate(plan, answers.allocate),
        Stage::Attach { plan, id, attached } => after_attach(
            plan,
            id,
            attached,
            answers.attach[attached as int],
        ),
        Stage::Ready(_) => stage,
        Stage::Failed(_, _) => stage,
    }
}

/// The last stage that an allocation reaches from `stage` under the given
/// answers.
pub open spec fn run(stage: Stage, answers: Answers) -> Stage
    decreases rank(stage), pending(stage),
{
    match stage {
        Stage::Ready(_) => stage,
        Stage::Failed(_, _) => stage,
        _ => run(next(stage, answers), answers),
    }
}

/// The place of the first target process from `from` on whose attachment the
/// kernel refuses, or the number of target processes if it refuses none.
pub open spec fn first_refusal(attach: Seq<Result<(), Errno>>, targets: nat, from: nat) -> nat
    decreases targets - from,
{
    if from >= targets {
        targets
    } else if attach[from as int] is Err {
        from
    } else {
        first_refusal(attach, targets, from + 1)
    }
}

/// What an allocation of `plan` comes to under the given answers, where
/// `ready` says whether the subsystem was initialised before.
///
/// The first of these that applies decides: the initialisation is refused; the
/// health flag holds a signal; the event's name holds a zero byte; the kernel
/// refuses the counter; the kernel refuses an attachment, after which the
/// attachments before it are ended and the counter is released. Else the
/// counter is there, idle and attached to every target process.
pub open spec fn outcome(plan: PlanView, ready: bool, answers: Answers) -> Stage {
    if !ready && answers.init is Err {
        after_init(plan, answers.init)
    } else if answers.health is Err || has_nul(plan.spec) {
        after_health(plan, answers.health)
    } else {
        match answers.allocate {
            Err(_) => after_allocate(plan, answers.allocate),
            Ok(id) => {
                let refused = first_refusal(answers.attach, plan.targets().len(), 0);
                if refused >= plan.targets().len() {
                    Stage::Ready(CounterView { id, pids: plan.pids, running: false })
                } else {
                    after_attach(plan, id, refused, answers.attach[refused as int])
                }
            },
        }
    }
}

/// What an allocation was asked for.
#[derive(Debug)]
struct Plan {
    spec: Vec<u8>,
    cpu: i32,
    pids: Option<Vec<i32>>,
}

impl View for Plan {
    type V = PlanView;

    closed spec fn view(&self) -> PlanView {
        PlanView {
            spec: self.spec@,
            cpu: self.cpu,
            pids: match self.pids {
                Some(pids) => Some(pids@),
                None => None,
            },
        }
    }
}

impl Plan {
    /// The scope of the counter.
    fn scope(&self) -> (r: Scope)
        ensures
            r == self@.scope(),
    {
        match &self.pids {
            Some(_) => Scope::Process,
            None => Scope::System,
        }
    }

    /// Whether the event's name holds a zero byte.
    fn has_nul(&self) -> (r: bool)
        ensures
            r == has_nul(self@.spec),
    {
        let mut i: usize = 0;
        while i < self.spec.len()
            invariant
                0 <= i <= self.spec@.len(),
                forall|k: int| 0 <= k < i ==> self.spec@[k] != 0u8,
            decreases self.spec@.len() - i,
        {
            if self.spec[i] == 0 {
                return true;
            }
            i = i + 1;
        }
        false
    }
}

/// The stage that an allocation has reached.
#[derive(Debug)]
pub enum Allocation {
    /// Invoke the kernel's initialisation primitive ([`Request::Init`]) and
    /// hand its answer to [`Initializing::done`].
    Init(Initializing),
    /// Install the handler that records a signal in the health flag, for the
    /// signals of [`Watching::signals`]; then call [`Watching::done`].
    Watch(Watching),
    /// Read the health flag and hand the verdict of
    /// [`check`](crate::signal::check) on it to [`Checking::done`].
    Health(Checking),
    /// Make the request of [`Allocating::request`] and hand the kernel's
    /// answer to [`Allocating::done`].
    Allocate(Allocating),
    /// Make the request of [`Attaching::request`] and hand the kernel's answer
    /// to [`Attaching::done`].
    Attach(Attaching),
    /// The allocation has succeeded.
    Ready(Counter),
    /// The allocation has failed with the error. The requests are to be made,
    /// in this order and whatever the kernel answers to each: they detach and
    /// release what the allocation had got from the kernel.
    Failed(Vec<Request>, Error),
}

impl View for Allocation {
    type V = Stage;

    open spec fn view(&self) -> Stage {
        match self {
            Allocation::Init(s) => Stage::Init(s.plan()),
            Allocation::Watch(s) => Stage::Watch(s.plan()),
            Allocation::Health(s) => Stage::Health(s.plan()),
            Allocation::Allocate(s) => Stage::Allocate(s.plan()),
            Allocation::Attach(s) => Stage::Attach {
                plan: s.plan(),
                id: s.id(),
                attached: s.attached(),
            },
            Allocation::Ready(counter) => Stage::Ready(counter@),
            Allocation::Failed(cleanup, error) => Stage::Failed(cleanup@, *error),
        }
    }
}

impl CounterConfig {
    /// Specify the CPU number that the PMC is to be allocated on.
    ///
    /// Defaults to all CPUs ([`CPU_ANY`]).
    pub fn set_cpu(self, cpu: i32) -> (r: CounterConfig)
        ensures
            r@ == (ConfigView { cpu: Some(cpu), ..self@ }),
    {
        CounterConfig { cpu: Some(cpu), pids: self.pids }
    }

    /// Attach a counter to the specified PID(s).
    ///
    /// When set, this causes the PMC to be allocated in process-scoped
    /// counting mode.
    ///
    /// # PID 0
    ///
    /// PID 0 is a magic value, attaching to it causes the counter to be
    /// attached to the current (caller's) PID.
    pub fn attach_to(self, pids: Vec<i32>) -> (r: CounterConfig)
        ensures
            r@ == (ConfigView { pids: Some(pids@), ..self@ }),
    {
        CounterConfig { cpu: self.cpu, pids: Some(pids) }
    }

    /// Allocate a PMC with the specified configuration, and attach to the
    /// target PIDs (if any).
    ///
    /// This begins the allocation and touches nothing: the stage that is
    /// returned says what is to be done first. The configuration can be used
    /// again; each allocation gives a counter of its own.
    pub fn allocate(&self, sys: &Subsystem, event_spec: &str) -> (r: Allocation)
        ensures
            r@ == begin(plan_of(self@, event_spec.spec_bytes()), sys.ready()),
    {
        let plan = Plan {
            spec: slice_to_vec(event_spec.as_bytes()),
            cpu: match self.cpu {
                Some(cpu) => cpu,
                None => CPU_ANY,
            },
            pids: copy_pids(&self.pids),
        };
        if sys.is_initialized() {
            Allocation::Health(Checking { plan })
        } else {
            Allocation::Init(Initializing { plan })
        }
    }
}

/// The stage in which the subsystem is initialised.
#[derive(Debug)]
pub struct Initializing {
    plan: Plan,
}

impl Initializing {
    /// What is to be allocated.
    pub closed spec fn plan(&self) -> PlanView {
        self.plan@
    }

    /// The primitive to invoke.
    pub fn request(&self) -> (r: Request)
        ensures
            r == Request::Init,
    {
        Request::Init
    }

    /// Takes the kernel's answer to the initialisation.
    ///
    /// After a success the subsystem is ready, and the watcher is installed
    /// next. A refusal ends the allocation with `Init`, `Unsupported`,
    /// `VersionMismatch` or `Unknown`, by its cause, and leaves the subsystem
    /// as it was.
    pub fn done(self, sys: &mut Subsystem, outcome: Result<(), Errno>) -> (r: Allocation)
        ensures
            r@ == after_init(self.plan(), outcome),
            final(sys).ready() == (old(sys).ready() || outcome is Ok),
    {
        match outcome {
            Ok(_) => {
                sys.set_initialized();
                Allocation::Watch(Watching { plan: self.plan })
            },
            Err(cause) => {
                let kind = match cause {
                    Errno::NoEntry => ErrorKind::Init,
                    Errno::NoDevice => ErrorKind::Unsupported,
                    Errno::VersionMismatch => ErrorKind::VersionMismatch,
                    _ => ErrorKind::Unknown,
                };
                Allocation::Failed(Vec::new(), new_os_error(kind, cause))
            },
        }
    }
}

/// The stage in which the health watcher is installed, once in the life of a
/// [`Subsystem`]: after the initialisation that succeeded.
#[derive(Debug)]
pub struct Watching {
    plan: Plan,
}

impl Watching {
    /// What is to be allocated.
    pub closed spec fn plan(&self) -> PlanView {
        self.plan@
    }

    /// The signals to install the handler for: those of
    /// [`watched`](crate::signal::watched).
    pub fn signals(&self) -> (r: Vec<i32>)
        ensures
            exists|signals: Signals|
                signals.from_libc() && signals.told_apart() && r@ == #[trigger] seq![
                    signals.unloaded,
                    signals.other,
                ],
            r@.len() == 2,
    {
        watched()
    }

    /// The watcher is installed: the health flag is consulted next.
    pub fn done(self) -> (r: Allocation)
        ensures
            r@ == Stage::Health(self.plan()),
    {
        Allocation::Health(Checking { plan: self.plan })
    }
}

/// The stage in which the health flag is consulted.
#[derive(Debug)]
pub struct Checking {
    plan: Plan,
}

impl Checking {
    /// What is to be allocated.
    pub closed spec fn plan(&self) -> PlanView {
        self.plan@
    }

    /// Takes the verdict on the health flag.
    ///
    /// An error in it ends the allocation. Under a healthy verdict the event's
    /// name is looked at: with a zero byte in it the allocation ends with
    /// `InvalidEventSpec`, else the kernel is asked for the counter.
    pub fn done(self, health: Result<(), Error>) -> (r: Allocation)
        ensures
            r@ == after_health(self.plan(), health),
    {
        match health {
            Err(e) => Allocation::Failed(Vec::new(), e),
            Ok(_) => {
                if self.plan.has_nul() {
                    Allocation::Failed(Vec::new(), new_error(ErrorKind::InvalidEventSpec))
                } else {
                    Allocation::Allocate(Allocating { plan: self.plan })
                }
            },
        }
    }
}

/// The stage in which the kernel allocates the counter.
#[derive(Debug)]
pub struct Allocating {
    plan: Plan,
}

impl Allocating {
    /// The event's name holds no zero byte.
    #[verifier::type_invariant]
    spec fn well_formed(&self) -> bool {
        !has_nul(self.plan@.spec)
    }

    /// What is to be allocated.
    pub closed spec fn plan(&self) -> PlanView {
        self.plan@
    }

    /// The primitive to invoke: the allocation of a counter for the event, in
    /// the scope and on the CPU of the plan. The event's name ends in a zero
    /// byte and holds no other.
    pub fn request(&self) -> (r: Request)
        ensures
            !has_nul(self.plan().spec),
            r matches Request::Allocate { spec, mode, cpu } && {
                &&& spec@ == c_string(self.plan().spec)
                &&& mode == self.plan().scope()
                &&& cpu == self.plan().cpu
            },
    {
        proof {
            use_type_invariant(self);
        }
        let mut spec: Vec<u8> = slice_to_vec(self.plan.spec.as_slice());
        spec.push(0);
        Request::Allocate { spec, mode: self.plan.scope(), cpu: self.plan.cpu }
    }

    /// Takes the kernel's answer to the allocation.
    ///
    /// With an id the counter exists: it is attached to the first target
    /// process next, or is ready where there is none. A refusal ends the
    /// allocation with `AllocInit` where the kernel found the request invalid,
    /// as it does for an event that it does not know, and with `Unknown` else.
    ///
    /// The `Subsystem` is asked for because the caller must have held its lock
    /// while the kernel allocated.
    pub fn done(self, _sys: &Subsystem, outcome: Result<u32, Errno>) -> (r: Allocation)
        ensures
            r@ == after_allocate(self.plan(), outcome),
    {
        match outcome {
            Ok(id) => attach_next(self.plan, id, Vec::new()),
            Err(cause) => {
                let kind = match cause {
                    Errno::Invalid => ErrorKind::AllocInit,
                    _ => ErrorKind::Unknown,
                };
                Allocation::Failed(Vec::new(), new_os_error(kind, cause))
            },
        }
    }
}

/// Whether `handles` are the attachments of the counter `id` to the first
/// target processes of `plan`, in their order.
spec fn attached_to(handles: Seq<AttachHandle>, id: u32, plan: PlanView) -> bool {
    &&& handles.len() <= plan.targets().len()
    &&& forall|i: int|
        0 <= i < handles.len() ==> handles[i] == (AttachHandle { id, pid: plan.targets()[i] })
}

/// The stage of an allocation whose counter `id` has the attachments
/// `handles`.
fn attach_next(plan: Plan, id: u32, handles: Vec<AttachHandle>) -> (r: Allocation)
    requires
        attached_to(handles@, id, plan@),
    ensures
        r@ == attach_stage(plan@, id, handles@.len()),
{
    match &plan.pids {
        Some(pids) => {
            if handles.len() >= pids.len() {
                assert(handles@.map_values(|h: AttachHandle| h.pid) =~= pids@);
                Allocation::Ready(Counter::new(id, Some(handles)))
            } else {
                Allocation::Attach(Attaching { plan, id, handles })
            }
        },
        None => Allocation::Ready(Counter::new(id, None)),
    }
}

/// The stage in which the counter is attached to the target processes, one
/// after the other.
#[derive(Debug)]
pub struct Attaching {
    plan: Plan,
    id: u32,
    handles: Vec<AttachHandle>,
}

impl Attaching {
    /// The attachments are those to the first target processes, and one
    /// target process at least is left.
    #[verifier::type_invariant]
    spec fn well_formed(&self) -> bool {
        &&& attached_to(self.handles@, self.id, self.plan@)
        &&& self.handles@.len() < self.plan@.targets().len()
    }

    /// What is to be allocated.
    pub closed spec fn plan(&self) -> PlanView {
        self.plan@
    }

    /// The counter's id.
    pub closed spec fn id(&self) -> u32 {
        self.id
    }

    /// The number of target processes that the counter is attached to.
    pub closed spec fn attached(&self) -> nat {
        self.handles@.len()
    }

    /// The primitive to invoke: the attachment of the counter to the first
    /// target process that it is not attached to.
    pub fn request(&self) -> (r: Request)
        ensures
            self.attached() < self.plan().targets().len(),
            r == (Request::Attach {
                id: self.id(),
                pid: self.plan().targets()[self.attached() as int],
            }),
    {
        proof {
            use_type_invariant(self);
        }
        match &self.plan.pids {
            Some(pids) => Request::Attach { id: self.id, pid: pids[self.handles.len()] },
            None => {
                proof {
                    assert(false);
                }
                Request::Attach { id: self.id, pid: 0 }
            },
        }
    }

    /// Takes the kernel's answer to the attachment.
    ///
    /// After a success the next target process follows, or the counter is
    /// ready. A refusal ends the allocation with `AlreadyAttached`,
    /// `Forbidden`, `BadTarget` or `Unknown`, by its cause; the attachments
    /// made so far are then ended and the counter is released.
    ///
    /// The kernel reports a target as busy only for a counter that has been in
    /// use, so this answer is not expected here.
    pub fn done(self, sys: &Subsystem, outcome: Result<(), Errno>) -> (r: Allocation)
        requires
            outcome != Err::<(), Errno>(Errno::Busy),
        ensures
            r@ == after_attach(self.plan(), self.id(), self.attached(), outcome),
    {
        proof {
            use_type_invariant(&self);
        }
        let Attaching { plan, id, handles } = self;
        match outcome {
            Ok(_) => {
                let pid: i32 = match &plan.pids {
                    Some(pids) => pids[handles.len()],
                    None => 0,
                };
                let mut handles = handles;
                handles.push(AttachHandle { id, pid });
                attach_next(plan, id, handles)
            },
            Err(cause) => {
                let kind = match cause {
                    Errno::Exists => ErrorKind::AlreadyAttached,
                    Errno::NotPermitted => ErrorKind::Forbidden,
                    Errno::Invalid | Errno::NoProcess => ErrorKind::BadTarget,
                    _ => ErrorKind::Unknown,
                };
                assert(handles@.map_values(|h: AttachHandle| h.pid) =~= plan@.targets().take(
                    handles@.len() as int,
                ));
                let partial = Counter::new(id, Some(handles));
                Allocation::Failed(partial.release(sys), new_os_error(kind, cause))
            },
        }
    }
}

} // verus!
