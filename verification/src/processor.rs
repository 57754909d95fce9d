//! The dispatch core: a bounded worker pool fed by a FIFO queue, with
//! health accounting and a cooperative shutdown.
//!
//! The processor here is the decision part alone: a state machine that
//! maps each incoming message to the next state and to the action the
//! surrounding runtime must take (hand a job to a worker, answer a
//! health query, or confirm that the drain is complete). The runtime
//! owns the threads and channels and calls [`Processor::handle`] for
//! every message its dispatcher receives.

use crate::env_builder::EnvBuilder;
use crate::errors::FisherError;
use crate::hook::{Hook, HookV};
use crate::providers::{build_env_pre_exec, provider_build_env_pre, provider_build_env_spec};
use crate::requests::{Request, RequestV};
use vstd::prelude::*;

verus! {

/// Abstract value of a [`Job`].
pub ghost struct JobV {
    pub hook: HookV,
    pub request: RequestV,
    pub provider: Option<usize>,
}

/// One accepted unit of work: the hook, the request that passed its
/// validation, and the index of the provider chosen at validation time
/// (`None` for the implicit Standalone), so that `build_env` runs on the
/// same provider.
pub struct Job {
    pub hook: Hook,
    pub request: Request,
    pub provider: Option<usize>,
}

impl View for Job {
    type V = JobV;

    open spec fn view(&self) -> JobV {
        JobV { hook: self.hook@, request: self.request@, provider: self.provider }
    }
}

impl DeepView for Job {
    type V = JobV;

    open spec fn deep_view(&self) -> JobV {
        self@
    }
}

impl Job {
    /// Bind a validated request to its hook and chosen provider.
    pub fn new(hook: Hook, request: Request, provider: Option<usize>) -> (r: Self)
        ensures
            r@.hook == hook@,
            r@.request == request@,
            r@.provider == provider,
    {
        Job { hook, request, provider }
    }
}

/// Run the chosen provider's `build_env` for a job. The provider chosen
/// at validation time is the one that runs; a job whose provider index
/// names no provider, or whose request does not carry the headers the
/// provider reads, is refused instead of read blindly — validation never
/// produces such a job.
pub fn job_build_env(job: &Job, builder: &mut EnvBuilder) -> (r: Result<(), FisherError>)
    ensures
        ({
            let jv = job@;
            match jv.provider {
                None => r is Ok && final(builder)@ == old(builder)@,
                Some(i) => {
                    if i < jv.hook.providers.len() && provider_build_env_pre(
                        jv.hook.providers[i as int].1,
                        jv.request,
                    ) {
                        &&& final(builder)@ == provider_build_env_spec(
                            jv.hook.providers[i as int].1,
                            jv.request,
                            old(builder)@,
                        ).0
                        &&& (match r {
                            Ok(()) => provider_build_env_spec(
                                jv.hook.providers[i as int].1,
                                jv.request,
                                old(builder)@,
                            ).1 is Ok,
                            Err(e) => provider_build_env_spec(
                                jv.hook.providers[i as int].1,
                                jv.request,
                                old(builder)@,
                            ).1 == Err::<(), _>(e@),
                        })
                    } else {
                        r is Err && final(builder)@ == old(builder)@
                    }
                },
            }
        }),
{
    let i = match job.provider {
        Some(i) => i,
        None => {
            return Ok(());
        },
    };
    if i >= job.hook.providers.len() {
        return Err(FisherError::IoError("the job names no provider".to_owned()));
    }
    let p = &job.hook.providers[i].1;
    proof {
        assert(job@.hook.providers[i as int].1 == p@);
    }
    if !build_env_pre_exec(p, &job.request) {
        return Err(FisherError::IoError("the request lacks a header its provider reads".to_owned()));
    }
    p.build_env(&job.request, builder)
}

/// A snapshot of the processor's load: how many jobs run right now and
/// how many wait in the queue.
pub struct HealthDetails {
    pub active_jobs: u16,
    pub queue_size: usize,
}

/// Abstract value of a [`Processor`].
pub ghost struct ProcessorV {
    pub max_threads: int,
    pub active: int,
    pub queue: Seq<JobV>,
    pub stopping: bool,
    pub accepted: nat,
    pub completed: nat,
}

/// A message the dispatcher receives.
pub enum ProcessorInput {
    /// Enqueue a job for execution.
    Job(Job),
    /// Ask for a health snapshot.
    HealthStatus,
    /// A worker finished a job.
    JobEnded,
    /// Drain and shut down.
    StopSignal,
}

/// Abstract value of a [`ProcessorInput`].
pub ghost enum ProcessorInputV {
    Job(JobV),
    HealthStatus,
    JobEnded,
    StopSignal,
}

impl View for ProcessorInput {
    type V = ProcessorInputV;

    open spec fn view(&self) -> ProcessorInputV {
        match self {
            ProcessorInput::Job(j) => ProcessorInputV::Job(j@),
            ProcessorInput::HealthStatus => ProcessorInputV::HealthStatus,
            ProcessorInput::JobEnded => ProcessorInputV::JobEnded,
            ProcessorInput::StopSignal => ProcessorInputV::StopSignal,
        }
    }
}

/// What the runtime must do after one message is handled.
pub enum ProcessorAction {
    /// Hand this job to a free worker.
    Dispatch(Job),
    /// Answer the health query with this snapshot.
    Health(HealthDetails),
    /// The drain is complete: every worker is idle and no job waits.
    Finished,
    /// Nothing.
    Nothing,
}

/// Abstract value of a [`ProcessorAction`].
pub ghost enum ProcessorActionV {
    Dispatch(JobV),
    Health(int, int),
    Finished,
    Nothing,
}

impl View for ProcessorAction {
    type V = ProcessorActionV;

    open spec fn view(&self) -> ProcessorActionV {
        match self {
            ProcessorAction::Dispatch(j) => ProcessorActionV::Dispatch(j@),
            ProcessorAction::Health(d) => ProcessorActionV::Health(
                d.active_jobs as int,
                d.queue_size as int,
            ),
            ProcessorAction::Finished => ProcessorActionV::Finished,
            ProcessorAction::Nothing => ProcessorActionV::Nothing,
        }
    }
}

/// The dispatcher's well-formedness: never more active jobs than worker
/// threads, and the counters account for every job accepted and not yet
/// completed — they are all either active or queued.
pub open spec fn processor_wf(s: ProcessorV) -> bool {
    &&& 0 <= s.active <= s.max_threads
    &&& s.accepted == s.completed + s.active + s.queue.len()
}

/// The dispatcher's next state for one message.
pub open spec fn step_state(s: ProcessorV, i: ProcessorInputV) -> ProcessorV {
    match i {
        ProcessorInputV::Job(j) => {
            if s.stopping {
                s
            } else if s.active < s.max_threads {
                ProcessorV { active: s.active + 1, accepted: s.accepted + 1, ..s }
            } else {
                ProcessorV { queue: s.queue.push(j), accepted: s.accepted + 1, ..s }
            }
        },
        ProcessorInputV::HealthStatus => s,
        ProcessorInputV::JobEnded => {
            if s.queue.len() > 0 {
                ProcessorV { queue: s.queue.drop_first(), completed: s.completed + 1, ..s }
            } else {
                ProcessorV { active: s.active - 1, completed: s.completed + 1, ..s }
            }
        },
        ProcessorInputV::StopSignal => ProcessorV { stopping: true, ..s },
    }
}

/// The action the runtime must take for one message.
pub open spec fn step_action(s: ProcessorV, i: ProcessorInputV) -> ProcessorActionV {
    match i {
        ProcessorInputV::Job(j) => {
            if s.stopping {
                ProcessorActionV::Nothing
            } else if s.active < s.max_threads {
                ProcessorActionV::Dispatch(j)
            } else {
                ProcessorActionV::Nothing
            }
        },
        ProcessorInputV::HealthStatus => ProcessorActionV::Health(s.active, s.queue.len() as int),
        ProcessorInputV::JobEnded => {
            if s.queue.len() > 0 {
                ProcessorActionV::Dispatch(s.queue[0])
            } else if s.stopping && s.active == 1 {
                ProcessorActionV::Finished
            } else {
                ProcessorActionV::Nothing
            }
        },
        ProcessorInputV::StopSignal => {
            if s.active == 0 {
                ProcessorActionV::Finished
            } else {
                ProcessorActionV::Nothing
            }
        },
    }
}

/// Every step preserves well-formedness, and a job message is accounted
/// exactly once: accepted when not stopping, dropped otherwise.
pub proof fn lemma_step_preserves_wf(s: ProcessorV, i: ProcessorInputV)
    requires
        processor_wf(s),
        i is JobEnded ==> s.active > 0,
    ensures
        processor_wf(step_state(s, i)),
{
}

/// A health reply is an exact account: at most `max_threads` jobs run,
/// and active plus queued jobs equal the jobs accepted and not yet
/// completed.
pub proof fn lemma_health_exact(s: ProcessorV)
    requires
        processor_wf(s),
    ensures
        step_action(s, ProcessorInputV::HealthStatus) matches ProcessorActionV::Health(a, q)
            && a <= s.max_threads && a + q == s.accepted - s.completed,
        step_state(s, ProcessorInputV::HealthStatus) == s,
{
}

/// Stopping twice is the same as stopping once: the state after the
/// second stop signal is the state after the first, and the second
/// answer repeats the first.
pub proof fn lemma_stop_idempotent(s: ProcessorV)
    ensures
        step_state(step_state(s, ProcessorInputV::StopSignal), ProcessorInputV::StopSignal)
            == step_state(s, ProcessorInputV::StopSignal),
        step_action(step_state(s, ProcessorInputV::StopSignal), ProcessorInputV::StopSignal)
            == step_action(s, ProcessorInputV::StopSignal),
{
}

/// Queued jobs leave in arrival order: while the queue is busy, each
/// finished job dispatches exactly the head of the queue, and the rest
/// keep their order.
pub proof fn lemma_fifo_dispatch(s: ProcessorV)
    requires
        s.queue.len() > 0,
    ensures
        step_action(s, ProcessorInputV::JobEnded) == ProcessorActionV::Dispatch(s.queue[0]),
        step_state(s, ProcessorInputV::JobEnded).queue =~= s.queue.skip(1),
{
}

/// The dispatcher's state: the worker cap, the live counters, the FIFO
/// queue, and whether a stop was requested. The ghost counters carry the
/// accounting the health law speaks of.
pub struct Processor {
    max_threads: u16,
    active: u16,
    queue: Vec<Job>,
    stopping: bool,
    accepted: Ghost<nat>,
    completed: Ghost<nat>,
}

impl View for Processor {
    type V = ProcessorV;

    closed spec fn view(&self) -> ProcessorV {
        ProcessorV {
            max_threads: self.max_threads as int,
            active: self.active as int,
            queue: self.queue.deep_view(),
            stopping: self.stopping,
            accepted: self.accepted@,
            completed: self.completed@,
        }
    }
}

impl Processor {
    /// A fresh dispatcher that may run up to `max_threads` jobs at once.
    pub fn start(max_threads: u16) -> (r: Self)
        ensures
            processor_wf(r@),
            r@.max_threads == max_threads as int,
            r@.active == 0,
            r@.queue =~= Seq::<JobV>::empty(),
            !r@.stopping,
            r@.accepted == 0,
            r@.completed == 0,
    {
        let r = Processor {
            max_threads,
            active: 0,
            queue: Vec::new(),
            stopping: false,
            accepted: Ghost(0),
            completed: Ghost(0),
        };
        proof {
            assert(r@.queue =~= Seq::<JobV>::empty());
        }
        r
    }

    /// Handle one message: move to the next state and say what the
    /// runtime must do. A `JobEnded` message only ever comes from a
    /// worker that runs a job, so at least one job is active.
    pub fn handle(&mut self, input: ProcessorInput) -> (action: ProcessorAction)
        requires
            processor_wf(old(self)@),
            input@ is JobEnded ==> old(self)@.active > 0,
        ensures
            processor_wf(final(self)@),
            final(self)@ == step_state(old(self)@, input@),
            action@ == step_action(old(self)@, input@),
    {
        match input {
            ProcessorInput::Job(job) => {
                if self.stopping {
                    ProcessorAction::Nothing
                } else if self.active < self.max_threads {
                    self.active = self.active + 1;
                    proof {
                        self.accepted@ = self.accepted@ + 1;
                    }
                    ProcessorAction::Dispatch(job)
                } else {
                    let ghost pre = self.queue.deep_view();
                    let ghost jv = job@;
                    self.queue.push(job);
                    proof {
                        self.accepted@ = self.accepted@ + 1;
                        assert(self.queue.deep_view() =~= pre.push(jv));
                    }
                    ProcessorAction::Nothing
                }
            },
            ProcessorInput::HealthStatus => {
                ProcessorAction::Health(
                    HealthDetails { active_jobs: self.active, queue_size: self.queue.len() },
                )
            },
            ProcessorInput::JobEnded => {
                proof {
                    self.completed@ = self.completed@ + 1;
                }
                if self.queue.len() > 0 {
                    let ghost pre = self.queue.deep_view();
                    let head = self.queue.remove(0);
                    proof {
                        assert(self.queue.deep_view() =~= pre.drop_first());
                        assert(head@ == pre[0]);
                    }
                    ProcessorAction::Dispatch(head)
                } else {
                    self.active = self.active - 1;
                    if self.stopping && self.active == 0 {
                        ProcessorAction::Finished
                    } else {
                        ProcessorAction::Nothing
                    }
                }
            },
            ProcessorInput::StopSignal => {
                self.stopping = true;
                if self.active == 0 {
                    ProcessorAction::Finished
                } else {
                    ProcessorAction::Nothing
                }
            },
        }
    }

    /// Whether a stop was requested.
    pub fn stopping(&self) -> (r: bool)
        ensures
            r == self@.stopping,
    {
        self.stopping
    }

    /// How many jobs run right now.
    pub fn active(&self) -> (r: u16)
        ensures
            r as int == self@.active,
    {
        self.active
    }
}

} // verus!
