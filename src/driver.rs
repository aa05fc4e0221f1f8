//! The cooperative driver: the state machine of one bridged task, polled
//! only from host calls, never re-entered and never polled once finished.
use vstd::prelude::*;

verus! {

/// Where a bridged task stands.
#[derive(Clone, Copy, Debug, PartialEq, Eq, Structural)]
pub enum TaskState {
    /// Built, not polled yet.
    Created,
    /// Being polled; `rewake` records a wake that arrived meanwhile.
    Running { rewake: bool },
    /// Waiting on the host; `woken` once a continuation has signalled progress.
    Suspended { woken: bool },
    /// Finished with a result.
    Completed,
    /// A poll panicked.
    Panicked,
}

/// What one poll of the task reported.
#[derive(Clone, Copy, Debug, PartialEq, Eq, Structural)]
pub enum PollResult {
    Pending,
    Ready,
    Panic,
}

/// Why a poll was refused.
#[derive(Clone, Copy, Debug, PartialEq, Eq, Structural)]
pub enum PollRefusal {
    /// The task is being polled already.
    Reentrant,
    /// The task is suspended and nothing has woken it.
    NotWoken,
    /// The task has completed or panicked.
    Finished,
}

pub open spec fn is_finished(s: TaskState) -> bool {
    s == TaskState::Completed || s == TaskState::Panicked
}

/// The state after a poll is asked for, and whether it may go ahead.
pub open spec fn begin_poll_step(s: TaskState) -> (TaskState, Result<(), PollRefusal>) {
    match s {
        TaskState::Created => (TaskState::Running { rewake: false }, Ok(())),
        TaskState::Suspended { woken } => if woken {
            (TaskState::Running { rewake: false }, Ok(()))
        } else {
            (s, Err(PollRefusal::NotWoken))
        },
        TaskState::Running { .. } => (s, Err(PollRefusal::Reentrant)),
        _ => (s, Err(PollRefusal::Finished)),
    }
}

/// The state once a poll has returned.
pub open spec fn end_poll_step(rewake: bool, p: PollResult) -> TaskState {
    match p {
        PollResult::Pending => TaskState::Suspended { woken: rewake },
        PollResult::Ready => TaskState::Completed,
        PollResult::Panic => TaskState::Panicked,
    }
}

/// The state after a host continuation signals progress, and whether a poll
/// is to be scheduled for it.
pub open spec fn wake_step(s: TaskState) -> (TaskState, bool) {
    match s {
        TaskState::Suspended { woken } => (TaskState::Suspended { woken: true }, !woken),
        TaskState::Running { .. } => (TaskState::Running { rewake: true }, false),
        _ => (s, false),
    }
}

/// The driver's record of one bridged task.
pub struct TaskDriver {
    state: TaskState,
}

impl TaskDriver {
    pub closed spec fn state(&self) -> TaskState {
        self.state
    }

    /// A task that has not been polled yet.
    pub fn new() -> (r: TaskDriver)
        ensures
            r.state() == TaskState::Created,
    {
        TaskDriver { state: TaskState::Created }
    }

    pub fn current(&self) -> (r: TaskState)
        ensures
            r == self.state(),
    {
        self.state
    }

    /// Asks to poll the task; on `Ok` the task is running and the caller polls it.
    pub fn begin_poll(&mut self) -> (r: Result<(), PollRefusal>)
        ensures
            (final(self).state(), r) == begin_poll_step(old(self).state()),
    {
        match self.state {
            TaskState::Created => {
                self.state = TaskState::Running { rewake: false };
                Ok(())
            },
            TaskState::Suspended { woken } => {
                if woken {
                    self.state = TaskState::Running { rewake: false };
                    Ok(())
                } else {
                    Err(PollRefusal::NotWoken)
                }
            },
            TaskState::Running { .. } => Err(PollRefusal::Reentrant),
            _ => Err(PollRefusal::Finished),
        }
    }

    /// Records what the poll begun by `begin_poll` reported.
    pub fn end_poll(&mut self, p: PollResult)
        requires
            old(self).state() is Running,
        ensures
            final(self).state() == end_poll_step(old(self).state()->rewake, p),
    {
        let rewake = match self.state {
            TaskState::Running { rewake } => rewake,
            _ => false,
        };
        self.state = match p {
            PollResult::Pending => TaskState::Suspended { woken: rewake },
            PollResult::Ready => TaskState::Completed,
            PollResult::Panic => TaskState::Panicked,
        };
    }

    /// A host continuation signals progress; returns whether a poll is to be
    /// scheduled.
    pub fn wake(&mut self) -> (r: bool)
        ensures
            (final(self).state(), r) == wake_step(old(self).state()),
    {
        match self.state {
            TaskState::Suspended { woken } => {
                self.state = TaskState::Suspended { woken: true };
                !woken
            },
            TaskState::Running { .. } => {
                self.state = TaskState::Running { rewake: true };
                false
            },
            _ => false,
        }
    }
}

/// A task being polled is never polled again before that poll returns.
pub proof fn lemma_no_reentrant_poll(s: TaskState)
    requires
        s is Running,
    ensures
        begin_poll_step(s) == (s, Err::<(), PollRefusal>(PollRefusal::Reentrant)),
{
}

/// A task that completed or panicked stays so and is never polled again,
/// whatever wakes arrive.
pub proof fn lemma_finished_is_final(s: TaskState)
    requires
        is_finished(s),
    ensures
        begin_poll_step(s) == (s, Err::<(), PollRefusal>(PollRefusal::Finished)),
        wake_step(s) == (s, false),
{
}

/// A suspended task runs again only after it has been woken.
pub proof fn lemma_resume_only_when_woken(s: TaskState)
    requires
        s is Suspended,
        begin_poll_step(s).1 is Ok,
    ensures
        s->woken,
{
}

} // verus!
