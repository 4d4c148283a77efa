//! An allocated counter and the operations on it.
//!
//! A counter is either idle or running. Each operation comes in two halves
//! around the kernel's primitive: the first consults the health verdict and
//! the counter's state and yields a ticket that names the [`Request`] to make,
//! the second (`done`, on the ticket) takes what the kernel answered.

use crate::error::{new_error, new_os_error, Error, ErrorKind};
use crate::kernel::{Request, Subsystem};
use crate::os::Errno;
use crate::scope::Scope;
use vstd::prelude::*;

verus! {

/// The attachment of the counter `id` to the process `pid`.
#[derive(Debug)]
pub(crate) struct AttachHandle {
    pub(crate) id: u32,
    pub(crate) pid: i32,
}

impl AttachHandle {
    /// The request that ends this attachment. There is none for the calling
    /// process (`0`): detaching from it can live-lock the machine.
    pub(crate) fn release(&self) -> (r: Option<Request>)
        ensures
            r == detach_of(self.id, self.pid),
    {
        if self.pid != 0 {
            Some(Request::Detach { id: self.id, pid: self.pid })
        } else {
            None
        }
    }
}

/// The request that ends the attachment of the counter `id` to `pid`, if one is
/// to be made: none for the calling process (`0`).
pub open spec fn detach_of(id: u32, pid: i32) -> Option<Request> {
    if pid != 0 {
        Some(Request::Detach { id, pid })
    } else {
        None
    }
}

/// The requests that end the attachments of the counter `id` to `pids`: one
/// detach for each process but the calling one (`0`), in the order of `pids`.
pub open spec fn detaches(id: u32, pids: Seq<i32>) -> Seq<Request>
    decreases pids.len(),
{
    if pids.len() == 0 {
        Seq::empty()
    } else {
        let before = detaches(id, pids.drop_last());
        match detach_of(id, pids.last()) {
            Some(request) => before.push(request),
            None => before,
        }
    }
}

/// The requests that give the counter `id` back to the kernel: first the
/// attachments to `pids` are ended, then the id is released.
pub open spec fn release_plan(id: u32, pids: Option<Seq<i32>>) -> Seq<Request> {
    let attached = match pids {
        Some(pids) => pids,
        None => Seq::empty(),
    };
    detaches(id, attached).push(Request::Release { id })
}

/// What a [`Counter`] is: the kernel's id, the processes that it is attached
/// to in the order in which they were attached (`None` for a system-wide
/// counter), and whether it is running.
pub struct CounterView {
    pub id: u32,
    pub pids: Option<Seq<i32>>,
    pub running: bool,
}

impl CounterView {
    /// The scope that the counter was allocated in.
    pub open spec fn scope(self) -> Scope {
        if self.pids is Some {
            Scope::Process
        } else {
            Scope::System
        }
    }
}

/// An allocated PMC counter.
///
/// Counters are made by [`CounterConfig::allocate`](crate::CounterConfig::allocate).
#[derive(Debug)]
pub struct Counter {
    id: u32,
    attached: Option<Vec<AttachHandle>>,
    running: bool,
}

impl View for Counter {
    type V = CounterView;

    closed spec fn view(&self) -> CounterView {
        CounterView {
            id: self.id,
            pids: match self.attached {
                Some(handles) => Some(handles@.map_values(|h: AttachHandle| h.pid)),
                None => None,
            },
            running: self.running,
        }
    }
}

/// The kind of failure that the operating system's error `e` means when the
/// kernel refuses to start a counter.
pub open spec fn start_failure(e: Errno) -> ErrorKind {
    match e {
        Errno::Doofus => ErrorKind::LogFileRequired,
        Errno::NoDevice => ErrorKind::BadScope,
        _ => ErrorKind::Unknown,
    }
}

/// The kind of failure that the operating system's error `e` means when the
/// kernel refuses to set a counter: it refuses a running one as busy.
pub open spec fn set_failure(e: Errno) -> ErrorKind {
    match e {
        Errno::Busy => ErrorKind::Running,
        _ => ErrorKind::Unknown,
    }
}

/// Whether a start of the counter `c` goes on to the kernel: not under a
/// health verdict with an error, which is handed on, and not while the counter
/// is running.
pub open spec fn start_verdict(c: CounterView, health: Result<(), Error>) -> Result<(), Error> {
    match health {
        Err(e) => Err(e),
        Ok(_) => if c.running {
            Err(Error { kind: ErrorKind::Running, cause: None })
        } else {
            Ok(())
        },
    }
}

/// The counter `c` after the kernel's answer to its start: running after a
/// success; a refusal is reported by its cause.
pub open spec fn started(c: CounterView, outcome: Result<(), Errno>) -> Result<CounterView, Error> {
    match outcome {
        Ok(_) => Ok(CounterView { running: true, ..c }),
        Err(cause) => Err(Error { kind: start_failure(cause), cause: Some(cause) }),
    }
}

/// The counter `c` after it was stopped: idle.
pub open spec fn stopped(c: CounterView) -> CounterView {
    CounterView { running: false, ..c }
}

/// The request that stops the counter `c`: none under a health verdict with an
/// error.
pub open spec fn stop_request(c: CounterView, health: Result<(), Error>) -> Option<Request> {
    if health is Ok {
        Some(Request::Stop { id: c.id })
    } else {
        None
    }
}

/// The ticket of a read of the counter `c`, or the health verdict's error.
pub open spec fn read_ticket(c: CounterView, health: Result<(), Error>) -> Result<Reading, Error> {
    match health {
        Err(e) => Err(e),
        Ok(_) => Ok(Reading { id: c.id }),
    }
}

/// The ticket that sets the counter `c` to `value`, or the health verdict's
/// error. Whether the counter is running plays no part.
pub open spec fn set_ticket(c: CounterView, health: Result<(), Error>, value: u64) -> Result<
    Setting,
    Error,
> {
    match health {
        Err(e) => Err(e),
        Ok(_) => Ok(Setting { id: c.id, value }),
    }
}

impl Counter {
    /// Every attachment is one of this counter.
    #[verifier::type_invariant]
    spec fn well_formed(&self) -> bool {
        match self.attached {
            Some(handles) => forall|i: int| 0 <= i < handles@.len() ==> handles@[i].id == self.id,
            None => true,
        }
    }

    /// An idle counter with the kernel's id `id` and the given attachments.
    pub(crate) fn new(id: u32, attached: Option<Vec<AttachHandle>>) -> (r: Counter)
        requires
            match attached {
                Some(handles) => forall|i: int| 0 <= i < handles@.len() ==> handles@[i].id == id,
                None => true,
            },
        ensures
            r@.id == id,
            !r@.running,
            r@.pids == match attached {
                Some(handles) => Some(handles@.map_values(|h: AttachHandle| h.pid)),
                None => None,
            },
    {
        Counter { id, attached, running: false }
    }

    /// Records whether the counter runs.
    pub(crate) fn mark(&mut self, running: bool)
        ensures
            final(self)@ == (CounterView { running, ..old(self)@ }),
    {
        proof {
            use_type_invariant(&*self);
        }
        self.running = running;
    }

    /// The id that the kernel gave to this counter.
    pub fn id(&self) -> (r: u32)
        ensures
            r == self@.id,
    {
        self.id
    }

    /// Whether the counter is running.
    pub fn is_running(&self) -> (r: bool)
        ensures
            r == self@.running,
    {
        self.running
    }

    /// Start this counter.
    ///
    /// Fails with the health verdict's error if there is one, and with
    /// `Running` if the counter is running already. Else the ticket asks for
    /// the kernel's start primitive.
    pub fn start(&mut self, health: Result<(), Error>) -> (r: Result<Starting<'_>, Error>)
        ensures
            match r {
                Ok(ticket) => {
                    &&& start_verdict(old(self)@, health) is Ok
                    &&& *ticket.borrowed() == *old(self)
                    &&& *final(ticket.borrowed()) == *final(self)
                },
                Err(e) => {
                    &&& start_verdict(old(self)@, health) == Err::<(), Error>(e)
                    &&& *final(self) == *old(self)
                },
            },
    {
        match health {
            Err(e) => Err(e),
            Ok(_) => {
                if self.running {
                    Err(new_error(ErrorKind::Running))
                } else {
                    Ok(Starting { counter: self })
                }
            },
        }
    }

    /// Read the counter value.
    ///
    /// This is valid for running, stopped and unused counters alike. Fails with
    /// the health verdict's error if there is one; else the ticket asks for the
    /// kernel's read primitive on this counter.
    pub fn read(&self, health: Result<(), Error>) -> (r: Result<Reading, Error>)
        ensures
            r == read_ticket(self@, health),
    {
        match health {
            Err(e) => Err(e),
            Ok(_) => Ok(Reading { id: self.id }),
        }
    }

    /// Set an explicit counter value.
    ///
    /// Fails with the health verdict's error if there is one; else the ticket
    /// asks for the kernel's read-and-set primitive with `value`. The counter's
    /// state is not consulted: whether a running counter can be set is for the
    /// kernel to say.
    pub fn set(&mut self, health: Result<(), Error>, value: u64) -> (r: Result<Setting, Error>)
        ensures
            *final(self) == *old(self),
            r == set_ticket(old(self)@, health, value),
    {
        match health {
            Err(e) => Err(e),
            Ok(_) => Ok(Setting { id: self.id, value }),
        }
    }

    /// Gives the counter back: the requests that the caller is to make, in
    /// this order and whatever the kernel answers to each. The attachments are
    /// ended first, but for the one to the calling process (`0`), then the id
    /// is released.
    ///
    /// The release changes the table that allocation works on: the
    /// `Subsystem` is asked for because the caller must hold its lock while
    /// the requests are made.
    pub fn release(self, _sys: &Subsystem) -> (r: Vec<Request>)
        ensures
            r@ == release_plan(self@.id, self@.pids),
    {
        proof {
            use_type_invariant(&self);
        }
        let mut plan: Vec<Request> = Vec::new();
        match &self.attached {
            Some(handles) => {
                let ghost pids = handles@.map_values(|h: AttachHandle| h.pid);
                let mut i: usize = 0;
                assert(pids.take(0) =~= Seq::<i32>::empty());
                while i < handles.len()
                    invariant
                        0 <= i <= handles@.len(),
                        pids == handles@.map_values(|h: AttachHandle| h.pid),
                        forall|k: int| 0 <= k < handles@.len() ==> handles@[k].id == self.id,
                        plan@ == detaches(self.id, pids.take(i as int)),
                    decreases handles@.len() - i,
                {
                    proof {
                        let next = pids.take(i + 1);
                        assert(next.drop_last() =~= pids.take(i as int));
                        assert(next.last() == handles@[i as int].pid);
                    }
                    match handles[i].release() {
                        Some(request) => {
                            plan.push(request);
                        },
                        None => {},
                    }
                    i = i + 1;
                }
                assert(pids.take(i as int) =~= pids);
            },
            None => {},
        }
        plan.push(Request::Release { id: self.id });
        plan
    }
}

/// The ticket of a start: the kernel's start primitive is to be invoked on the
/// counter.
pub struct Starting<'a> {
    counter: &'a mut Counter,
}

impl<'a> Starting<'a> {
    /// The borrow of the counter that this ticket holds.
    pub closed spec fn borrowed(&self) -> &'a mut Counter {
        self.counter
    }

    /// The primitive to invoke.
    pub fn request(&self) -> (r: Request)
        ensures
            r == (Request::Start { id: self.borrowed()@.id }),
    {
        Request::Start { id: self.counter.id }
    }

    /// Takes the kernel's answer to the start.
    ///
    /// On success the counter is running, and the handle that is returned holds
    /// it until it is stopped. A refusal leaves the counter idle and is
    /// reported as `LogFileRequired`, `BadScope` or `Unknown`, by its cause.
    pub fn done(self, outcome: Result<(), Errno>) -> (r: Result<Running<'a>, Error>)
        ensures
            match r {
                Ok(handle) => {
                    &&& started(self.borrowed()@, outcome) == Ok::<CounterView, Error>(
                        handle.borrowed()@,
                    )
                    &&& *final(handle.borrowed()) == *final(self.borrowed())
                },
                Err(e) => {
                    &&& started(self.borrowed()@, outcome) == Err::<CounterView, Error>(e)
                    &&& *final(self.borrowed()) == *self.borrowed()
                },
            },
    {
        match outcome {
            Ok(_) => {
                self.counter.mark(true);
                Ok(Running { counter: self.counter })
            },
            Err(cause) => {
                let kind = match cause {
                    Errno::Doofus => ErrorKind::LogFileRequired,
                    Errno::NoDevice => ErrorKind::BadScope,
                    _ => ErrorKind::Unknown,
                };
                Err(new_os_error(kind, cause))
            },
        }
    }
}

/// A handle to a running PMC counter.
///
/// The handle holds the counter for as long as it runs; stopping gives the
/// counter back.
pub struct Running<'a> {
    counter: &'a mut Counter,
}

impl<'a> Running<'a> {
    /// The borrow of the counter that this handle holds.
    pub closed spec fn borrowed(&self) -> &'a mut Counter {
        self.counter
    }

    /// Read the current counter value: see [`Counter::read`].
    pub fn read(&self, health: Result<(), Error>) -> (r: Result<Reading, Error>)
        ensures
            r == read_ticket(self.borrowed()@, health),
    {
        self.counter.read(health)
    }

    /// Set the value of the counter: see [`Counter::set`]. The kernel refuses
    /// this while the counter runs; the refusal is reported by
    /// [`Setting::done`].
    pub fn set(&mut self, health: Result<(), Error>, value: u64) -> (r: Result<Setting, Error>)
        ensures
            *final(final(self).borrowed()) == *final(old(self).borrowed()),
            *final(self).borrowed() == *old(self).borrowed(),
            r == set_ticket(old(self).borrowed()@, health, value),
    {
        self.counter.set(health, value)
    }

    /// Stop the counter from recording new events.
    ///
    /// The counter is idle afterwards, whatever the kernel answers. Under a
    /// health verdict with an error the kernel is not to be touched, and there
    /// is no request; else the request is the kernel's stop primitive.
    pub fn stop(self, health: Result<(), Error>) -> (r: Option<Request>)
        ensures
            final(self.borrowed())@ == stopped(self.borrowed()@),
            r == stop_request(self.borrowed()@, health),
    {
        self.counter.mark(false);
        match health {
            Ok(_) => Some(Request::Stop { id: self.counter.id }),
            Err(_) => None,
        }
    }
}

/// The ticket of a read: the kernel's read primitive is to be invoked on the
/// counter `id`.
#[derive(Debug, Clone, Copy, PartialEq, Eq, Structural)]
pub struct Reading {
    pub id: u32,
}

/// What a read returns for the kernel's answer `outcome`.
pub open spec fn read_result(outcome: Result<u64, Errno>) -> Result<u64, Error> {
    match outcome {
        Ok(value) => Ok(value),
        Err(cause) => Err(Error { kind: ErrorKind::Unknown, cause: Some(cause) }),
    }
}

impl Reading {
    /// The primitive to invoke.
    pub fn request(&self) -> (r: Request)
        ensures
            r == (Request::Read { id: self.id }),
    {
        Request::Read { id: self.id }
    }

    /// Takes the kernel's answer to the read: the value as the kernel gave it,
    /// or `Unknown` with the cause.
    pub fn done(self, outcome: Result<u64, Errno>) -> (r: Result<u64, Error>)
        ensures
            r == read_result(outcome),
    {
        match outcome {
            Ok(value) => Ok(value),
            Err(cause) => Err(new_os_error(ErrorKind::Unknown, cause)),
        }
    }
}

/// The ticket of a set: the kernel's read-and-set primitive is to be invoked
/// on the counter `id` with `value`.
#[derive(Debug, Clone, Copy, PartialEq, Eq, Structural)]
pub struct Setting {
    pub id: u32,
    pub value: u64,
}

/// What a set returns for the kernel's answer `outcome`.
pub open spec fn set_result(outcome: Result<u64, Errno>) -> Result<u64, Error> {
    match outcome {
        Ok(previous) => Ok(previous),
        Err(cause) => Err(Error { kind: set_failure(cause), cause: Some(cause) }),
    }
}

impl Setting {
    /// The primitive to invoke.
    pub fn request(&self) -> (r: Request)
        ensures
            r == (Request::Write { id: self.id, value: self.value }),
    {
        Request::Write { id: self.id, value: self.value }
    }

    /// Takes the kernel's answer to the set: the value that the counter had, as
    /// the kernel gave it; `Running` where the kernel refused because the
    /// counter is busy; `Unknown` for any other refusal.
    pub fn done(self, outcome: Result<u64, Errno>) -> (r: Result<u64, Error>)
        ensures
            r == set_result(outcome),
    {
        match outcome {
            Ok(previous) => Ok(previous),
            Err(cause) => {
                let kind = match cause {
                    Errno::Busy => ErrorKind::Running,
                    _ => ErrorKind::Unknown,
                };
                Err(new_os_error(kind, cause))
            },
        }
    }
}

} // verus!
