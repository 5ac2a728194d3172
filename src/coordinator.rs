//! The coordinator's decisions: which worker to spawn next, which to signal on
//! the abort path, how many terminations to wait for, and the run's outcome.
//! The caller performs each action and reports back what happened.
use vstd::prelude::*;
use crate::config::RunConfig;

verus! {

/// A spawned worker: its identity in the run and its process identifier.
#[derive(Clone, Copy, Debug, PartialEq, Eq, Structural)]
pub struct WorkerHandle {
    pub worker_id: u32,
    pub pid: i32,
}

/// Where the coordinator stands.
#[derive(Clone, Copy, Debug, PartialEq, Eq, Structural)]
pub enum Phase {
    Spawning,
    Aborting,
    Waiting,
    Done,
}

/// What the coordinator asks its caller to do next.
#[derive(Clone, Copy, Debug, PartialEq, Eq, Structural)]
pub enum Action {
    /// Duplicate the process; the duplicate runs worker `worker_id`.
    Spawn { worker_id: u32 },
    /// Send a termination signal to the worker with this process identifier.
    Signal { pid: i32 },
    /// Wait for any one child to terminate.
    Wait,
    /// Nothing is left to do: end the process with this outcome.
    Exit { success: bool },
}

/// The coordinator's state as plain values.
pub struct CoordinatorView {
    pub process_count: nat,
    pub next_id: nat,
    pub handles: Seq<WorkerHandle>,
    pub spawn_failures: nat,
    pub aborted: bool,
    pub signalled: nat,
    pub waited: nat,
    pub wait_failures: nat,
}

/// The coordinator of one run.
pub struct Coordinator {
    process_count: u32,
    next_id: u32,
    handles: Vec<WorkerHandle>,
    spawn_failures: u32,
    aborted: bool,
    signalled: usize,
    waited: usize,
    wait_failures: usize,
}

impl View for Coordinator {
    type V = CoordinatorView;

    closed spec fn view(&self) -> CoordinatorView {
        CoordinatorView {
            process_count: self.process_count as nat,
            next_id: self.next_id as nat,
            handles: self.handles@,
            spawn_failures: self.spawn_failures as nat,
            aborted: self.aborted,
            signalled: self.signalled as nat,
            waited: self.waited as nat,
            wait_failures: self.wait_failures as nat,
        }
    }
}

impl CoordinatorView {
    /// Every worker id has been attempted, unless the run was aborted first.
    pub open spec fn spawning_over(self) -> bool {
        self.aborted || self.next_id == self.process_count
    }

    pub open spec fn wf(self) -> bool {
        &&& self.next_id <= self.process_count
        &&& self.process_count <= u32::MAX
        &&& self.handles.len() + self.spawn_failures == self.next_id
        &&& forall|i: int|
            0 <= i < self.handles.len() ==> (#[trigger] self.handles[i]).worker_id < self.next_id
        &&& forall|i: int, j: int|
            0 <= i < j < self.handles.len() ==> (#[trigger] self.handles[i]).worker_id
                < (#[trigger] self.handles[j]).worker_id
        &&& self.signalled <= self.handles.len()
        &&& !self.aborted ==> self.signalled == 0
        &&& self.waited <= self.handles.len()
        &&& self.wait_failures <= self.waited
        &&& self.waited > 0 ==> self.spawning_over()
        &&& self.waited > 0 && self.aborted ==> self.signalled == self.handles.len()
    }

    pub open spec fn phase(self) -> Phase {
        if !self.spawning_over() {
            Phase::Spawning
        } else if self.aborted && self.signalled < self.handles.len() {
            Phase::Aborting
        } else if self.waited < self.handles.len() {
            Phase::Waiting
        } else {
            Phase::Done
        }
    }

    /// The run succeeded: it was not aborted, every worker was spawned and
    /// every wait for one completed without error.
    pub open spec fn succeeded(self) -> bool {
        !self.aborted && self.spawn_failures == 0 && self.wait_failures == 0
    }

    pub open spec fn next_action(self) -> Action {
        match self.phase() {
            Phase::Spawning => Action::Spawn { worker_id: self.next_id as u32 },
            Phase::Aborting => Action::Signal { pid: self.handles[self.signalled as int].pid },
            Phase::Waiting => Action::Wait,
            Phase::Done => Action::Exit { success: self.succeeded() },
        }
    }

    /// Actions left before `Exit`, bounded while the run is not aborted.
    pub open spec fn steps_left(self) -> nat {
        ((if self.spawning_over() {
            0
        } else {
            3 * (self.process_count - self.next_id)
        }) + (if self.aborted {
            self.handles.len() - self.signalled
        } else {
            0
        }) + (self.handles.len() - self.waited)) as nat
    }

    pub open spec fn initial(process_count: nat) -> CoordinatorView {
        CoordinatorView {
            process_count,
            next_id: 0,
            handles: Seq::empty(),
            spawn_failures: 0,
            aborted: false,
            signalled: 0,
            waited: 0,
            wait_failures: 0,
        }
    }
}

/// The coordinator runs to an end: no actions are left exactly when it is
/// done, and every report of an action's outcome lowers the count of actions
/// left (see the `ensures` of the `record_` methods).
pub proof fn lemma_done_iff_no_steps_left(v: CoordinatorView)
    requires
        v.wf(),
    ensures
        v.phase() == Phase::Done <==> v.steps_left() == 0,
{
}

/// When the coordinator is done, it has waited once for every worker that was
/// spawned, whatever failed before; every worker id was attempted unless the
/// run was aborted; and the run ends in failure if a duplication failed, a
/// wait failed, or the run was aborted.
pub proof fn lemma_exit_accounts_for_cohort(v: CoordinatorView)
    requires
        v.wf(),
        v.phase() == Phase::Done,
    ensures
        v.waited == v.handles.len(),
        !v.aborted ==> v.handles.len() + v.spawn_failures == v.process_count,
        v.next_action() == (Action::Exit { success: v.succeeded() }),
        v.spawn_failures > 0 ==> v.next_action() == (Action::Exit { success: false }),
        v.wait_failures > 0 ==> v.next_action() == (Action::Exit { success: false }),
{
}

impl Coordinator {
    /// A coordinator that has spawned nothing yet.
    pub fn new(config: &RunConfig) -> (r: Coordinator)
        requires
            config.valid(),
        ensures
            r@ == CoordinatorView::initial(config.process_count as nat),
            r@.wf(),
    {
        Coordinator {
            process_count: config.process_count,
            next_id: 0,
            handles: Vec::new(),
            spawn_failures: 0,
            aborted: false,
            signalled: 0,
            waited: 0,
            wait_failures: 0,
        }
    }

    pub fn phase(&self) -> (r: Phase)
        requires
            self@.wf(),
        ensures
            r == self@.phase(),
    {
        if !(self.aborted || self.next_id == self.process_count) {
            Phase::Spawning
        } else if self.aborted && self.signalled < self.handles.len() {
            Phase::Aborting
        } else if self.waited < self.handles.len() {
            Phase::Waiting
        } else {
            Phase::Done
        }
    }

    /// What the caller is to do next.
    pub fn next_action(&self) -> (r: Action)
        requires
            self@.wf(),
        ensures
            r == self@.next_action(),
    {
        match self.phase() {
            Phase::Spawning => Action::Spawn { worker_id: self.next_id },
            Phase::Aborting => Action::Signal { pid: self.handles[self.signalled].pid },
            Phase::Waiting => Action::Wait,
            Phase::Done => Action::Exit {
                success: !self.aborted && self.spawn_failures == 0 && self.wait_failures == 0,
            },
        }
    }

    /// The worker handles held so far, in order of worker id.
    pub fn handles(&self) -> (r: &Vec<WorkerHandle>)
        ensures
            r@ == self@.handles,
    {
        &self.handles
    }

    /// The duplicate asked for by `Spawn` exists, with process identifier `pid`.
    pub fn record_spawned(&mut self, pid: i32)
        requires
            old(self)@.wf(),
            old(self)@.phase() == Phase::Spawning,
        ensures
            final(self)@ == (CoordinatorView {
                next_id: old(self)@.next_id + 1,
                handles: old(self)@.handles.push(WorkerHandle { worker_id: old(self)@.next_id as u32, pid }),
                ..old(self)@
            }),
            final(self)@.wf(),
            final(self)@.steps_left() < old(self)@.steps_left(),
    {
        self.handles.push(WorkerHandle { worker_id: self.next_id, pid });
        self.next_id = self.next_id + 1;
    }

    /// The duplication asked for by `Spawn` failed: that worker is left out of
    /// the cohort and the remaining ones are still attempted.
    pub fn record_spawn_failed(&mut self)
        requires
            old(self)@.wf(),
            old(self)@.phase() == Phase::Spawning,
        ensures
            final(self)@ == (CoordinatorView {
                next_id: old(self)@.next_id + 1,
                spawn_failures: old(self)@.spawn_failures + 1,
                ..old(self)@
            }),
            final(self)@.wf(),
            final(self)@.steps_left() < old(self)@.steps_left(),
    {
        self.spawn_failures = self.spawn_failures + 1;
        self.next_id = self.next_id + 1;
    }

    /// Takes the abort path after an unrecoverable setup failure: no further
    /// worker is spawned, every spawned one is signalled, then all are waited for.
    pub fn abort_all(&mut self)
        requires
            old(self)@.wf(),
            old(self)@.waited == 0,
        ensures
            final(self)@ == (CoordinatorView { aborted: true, ..old(self)@ }),
            final(self)@.wf(),
    {
        self.aborted = true;
    }

    /// The signal asked for by `Signal` was sent, or failed and was reported.
    pub fn record_signalled(&mut self)
        requires
            old(self)@.wf(),
            old(self)@.phase() == Phase::Aborting,
        ensures
            final(self)@ == (CoordinatorView { signalled: old(self)@.signalled + 1, ..old(self)@ }),
            final(self)@.wf(),
            final(self)@.steps_left() < old(self)@.steps_left(),
    {
        self.signalled = self.signalled + 1;
    }

    /// The wait asked for by `Wait` returned; `ok` is false where it failed.
    pub fn record_wait(&mut self, ok: bool)
        requires
            old(self)@.wf(),
            old(self)@.phase() == Phase::Waiting,
        ensures
            final(self)@ == (CoordinatorView {
                waited: old(self)@.waited + 1,
                wait_failures: if ok {
                    old(self)@.wait_failures
                } else {
                    old(self)@.wait_failures + 1
                },
                ..old(self)@
            }),
            final(self)@.wf(),
            final(self)@.steps_left() < old(self)@.steps_left(),
    {
        self.waited = self.waited + 1;
        if !ok {
            self.wait_failures = self.wait_failures + 1;
        }
    }
}

} // verus!
