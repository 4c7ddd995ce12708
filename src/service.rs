use vstd::prelude::*;
use std::sync::mpsc::Sender;
use crate::channel::post;
use crate::error::{DeliveryError, PollError};

verus! {

/// The outcome of one poll: no change, a change without newly free items, or a
/// change with at least one newly free item. The text is the report to send.
#[derive(Debug)]
pub enum PollResult {
    Unchanged,
    Normal(String),
    Urgent(String),
}

/// Something that observes availability once per call and says what changed.
pub trait ServiceProvider {
    fn poll_once(&mut self) -> Result<PollResult, PollError>;
}

/// Where a poll worker stands in its cycle of polling, notifying and sleeping.
/// While sleeping it counts whole seconds slept in this cycle.
#[derive(Debug)]
pub enum WorkerPhase {
    Polling,
    Notifying { urgent: bool, message: String },
    Sleeping { elapsed: u32 },
    Terminated,
}

/// The phase a worker rests in after a cycle: sleeping, with nothing slept
/// yet. With an interval of zero the sleep lasts no time but still holds the
/// one look at the shutdown signal.
pub open spec fn resting(interval: u32) -> WorkerPhase {
    WorkerPhase::Sleeping { elapsed: 0 }
}

/// The phase after one tick of sleep with `elapsed` seconds already slept: a
/// pending signal ends the worker; otherwise it polls once the interval is
/// slept, and sleeps on before that.
pub open spec fn tick_phase(interval: u32, elapsed: u32, kill: bool) -> WorkerPhase {
    if kill {
        WorkerPhase::Terminated
    } else if elapsed + 1 >= interval {
        WorkerPhase::Polling
    } else {
        WorkerPhase::Sleeping { elapsed: (elapsed + 1) as u32 }
    }
}

/// The phase after `n` ticks without a signal, starting asleep with `elapsed`
/// seconds slept; ticks stop once the worker polls.
pub open spec fn quiet_ticks(interval: u32, elapsed: u32, n: nat) -> WorkerPhase
    decreases n,
{
    if n == 0 {
        WorkerPhase::Sleeping { elapsed }
    } else if elapsed + 1 >= interval {
        WorkerPhase::Polling
    } else {
        quiet_ticks(interval, (elapsed + 1) as u32, (n - 1) as nat)
    }
}

proof fn lemma_quiet_ticks(interval: u32, elapsed: u32, n: nat)
    requires
        elapsed + n <= interval,
        elapsed < interval,
    ensures
        elapsed + n < interval ==> quiet_ticks(interval, elapsed, n) == (WorkerPhase::Sleeping {
            elapsed: (elapsed + n) as u32,
        }),
        elapsed + n == interval ==> quiet_ticks(interval, elapsed, n) == WorkerPhase::Polling,
    decreases n,
{
    if n > 0 && elapsed + 1 < interval {
        lemma_quiet_ticks(interval, (elapsed + 1) as u32, (n - 1) as nat);
    }
}

/// A worker that rests after a poll, failed or not, sleeps one tick per second
/// of its interval and polls again exactly when the interval is slept.
pub proof fn law_retry_on_schedule(interval: u32)
    requires
        interval >= 1,
    ensures
        forall|k: nat| k < interval ==> #[trigger] quiet_ticks(interval, 0, k) == (WorkerPhase::Sleeping {
            elapsed: k as u32,
        }),
        quiet_ticks(interval, 0, interval as nat) == WorkerPhase::Polling,
{
    assert forall|k: nat| k < interval implies #[trigger] quiet_ticks(interval, 0, k) == (WorkerPhase::Sleeping {
        elapsed: k as u32,
    }) by {
        lemma_quiet_ticks(interval, 0, k);
    }
    lemma_quiet_ticks(interval, 0, interval as nat);
}

/// Wherever in its sleep a worker is, a shutdown signal pending at the next
/// tick ends it there, without more sleep or another poll.
pub proof fn law_shutdown_within_one_tick(interval: u32, k: nat)
    requires
        k < interval,
    ensures
        quiet_ticks(interval, 0, k) == (WorkerPhase::Sleeping { elapsed: k as u32 }),
        tick_phase(interval, k as u32, true) == WorkerPhase::Terminated,
{
    lemma_quiet_ticks(interval, 0, k);
}

/// The decisions of one poll worker. The caller performs the work that the
/// phase asks for (a poll, a delivery, one second of sleep with a look at the
/// shutdown signal) and hands the outcome back.
#[derive(Debug)]
pub struct PollWorker {
    title: String,
    interval: u32,
    phase: WorkerPhase,
}

impl PollWorker {
    pub closed spec fn phase(&self) -> WorkerPhase {
        self.phase
    }

    pub closed spec fn interval(&self) -> u32 {
        self.interval
    }

    pub closed spec fn title(&self) -> Seq<char> {
        self.title@
    }

    /// A sleeping worker has slept less than its interval, or nothing at all.
    pub open spec fn wf(&self) -> bool {
        self.phase() matches WorkerPhase::Sleeping { elapsed } ==> (elapsed == 0 || elapsed
            < self.interval())
    }

    pub fn new(title: String, interval: u32) -> (r: PollWorker)
        ensures
            r.phase() == WorkerPhase::Polling,
            r.interval() == interval,
            r.title() == title@,
            r.wf(),
    {
        PollWorker { title, interval, phase: WorkerPhase::Polling }
    }

    pub fn current_phase(&self) -> (r: &WorkerPhase)
        ensures
            *r == self.phase(),
    {
        &self.phase
    }

    pub fn title_str(&self) -> (r: &str)
        ensures
            r@ == self.title(),
    {
        self.title.as_str()
    }

    /// Takes the outcome of a poll. A change moves to notifying with the report;
    /// no change moves to rest; a failure moves to rest too and hands back the
    /// text to forward to the admin channel.
    pub fn on_polled(&mut self, polled: Result<PollResult, PollError>) -> (report: Option<String>)
        requires
            old(self).phase() == WorkerPhase::Polling,
        ensures
            final(self).interval() == old(self).interval(),
            final(self).title() == old(self).title(),
            final(self).wf(),
            match polled {
                Ok(PollResult::Unchanged) => final(self).phase() == resting(old(self).interval())
                    && report is None,
                Ok(PollResult::Normal(t)) => (final(self).phase() matches WorkerPhase::Notifying {
                    urgent,
                    message,
                } && !urgent && message@ == t@) && report is None,
                Ok(PollResult::Urgent(t)) => (final(self).phase() matches WorkerPhase::Notifying {
                    urgent,
                    message,
                } && urgent && message@ == t@) && report is None,
                Err(e) => final(self).phase() == resting(old(self).interval()) && (report matches Some(
                    x,
                ) && x@ == e.text()),
            },
    {
        match polled {
            Ok(PollResult::Unchanged) => {
                self.rest();
                None
            },
            Ok(PollResult::Normal(t)) => {
                self.phase = WorkerPhase::Notifying { urgent: false, message: t };
                None
            },
            Ok(PollResult::Urgent(t)) => {
                self.phase = WorkerPhase::Notifying { urgent: true, message: t };
                None
            },
            Err(e) => {
                self.rest();
                Some(e.describe())
            },
        }
    }

    /// Takes the outcome of a delivery and moves to rest. A failure is not
    /// retried; its text is handed back to forward to the admin channel.
    pub fn on_notified(&mut self, delivered: Result<(), DeliveryError>) -> (report: Option<String>)
        requires
            old(self).phase() is Notifying,
        ensures
            final(self).interval() == old(self).interval(),
            final(self).title() == old(self).title(),
            final(self).wf(),
            final(self).phase() == resting(old(self).interval()),
            match delivered {
                Ok(()) => report is None,
                Err(e) => report matches Some(x) && x@ == e.text(),
            },
    {
        self.rest();
        match delivered {
            Ok(()) => None,
            Err(e) => Some(e.describe()),
        }
    }

    /// Takes the outcome of one tick of sleep (see `tick_seconds`): whether a
    /// shutdown signal was pending. A signal ends the worker at once; otherwise
    /// it polls again once the interval has been slept.
    pub fn on_tick(&mut self, kill: bool)
        requires
            old(self).wf(),
            old(self).phase() is Sleeping,
        ensures
            final(self).interval() == old(self).interval(),
            final(self).title() == old(self).title(),
            final(self).wf(),
            old(self).phase() matches WorkerPhase::Sleeping { elapsed } ==> final(self).phase()
                == tick_phase(old(self).interval(), elapsed, kill),
    {
        match self.phase {
            WorkerPhase::Sleeping { elapsed } => {
                if kill {
                    self.phase = WorkerPhase::Terminated;
                } else if elapsed >= self.interval || elapsed + 1 == self.interval {
                    self.phase = WorkerPhase::Polling;
                } else {
                    self.phase = WorkerPhase::Sleeping { elapsed: elapsed + 1 };
                }
            },
            _ => {},
        }
    }

    /// How long one tick of sleep lasts, in seconds: one, or none when the
    /// interval is zero.
    pub fn tick_seconds(&self) -> (r: u32)
        ensures
            r == if self.interval() == 0 {
                0u32
            } else {
                1u32
            },
    {
        if self.interval == 0 {
            0
        } else {
            1
        }
    }

    fn rest(&mut self)
        ensures
            final(self).interval() == old(self).interval(),
            final(self).title() == old(self).title(),
            final(self).phase() == resting(old(self).interval()),
            final(self).wf(),
    {
        self.phase = WorkerPhase::Sleeping { elapsed: 0 };
    }
}

/// The shutdown handles of all poll workers.
#[derive(Debug)]
pub struct ServiceKillers {
    kill_tx: Vec<Sender<bool>>,
}

impl ServiceKillers {
    pub fn new(kill_tx: Vec<Sender<bool>>) -> (r: ServiceKillers) {
        ServiceKillers { kill_tx }
    }

    /// Signals every worker to stop; a worker that has already stopped ignores
    /// it.
    pub fn kill_all(&self) {
        let mut i: usize = 0;
        while i < self.kill_tx.len()
            invariant
                i <= self.kill_tx.len(),
            decreases self.kill_tx.len() - i,
        {
            let _ = post(&self.kill_tx[i], true);
            i += 1;
        }
    }
}

/// The steps of an orderly shutdown, in the order they are taken: signal every
/// worker, wait for every worker to end, send the final message through the
/// admin channel, signal the admin channel, wait for it to end.
#[derive(Debug, Clone, Copy, PartialEq, Eq, Structural)]
pub enum ShutdownStep {
    SignalWorkers,
    JoinWorkers,
    AnnounceTermination,
    StopAdmin,
    JoinAdmin,
    Done,
}

/// The step taken at position `stage` of a shutdown.
pub open spec fn shutdown_step(stage: nat) -> ShutdownStep {
    if stage == 0 {
        ShutdownStep::SignalWorkers
    } else if stage == 1 {
        ShutdownStep::JoinWorkers
    } else if stage == 2 {
        ShutdownStep::AnnounceTermination
    } else if stage == 3 {
        ShutdownStep::StopAdmin
    } else if stage == 4 {
        ShutdownStep::JoinAdmin
    } else {
        ShutdownStep::Done
    }
}

/// Walks through the steps of a shutdown, one per call.
#[derive(Debug)]
pub struct ShutdownCoordinator {
    stage: usize,
}

impl ShutdownCoordinator {
    pub closed spec fn stage(&self) -> nat {
        self.stage as nat
    }

    pub fn new() -> (r: ShutdownCoordinator)
        ensures
            r.stage() == 0,
    {
        ShutdownCoordinator { stage: 0 }
    }

    /// The step to take now; after the last one, `Done` on every call.
    pub fn next_step(&mut self) -> (r: ShutdownStep)
        ensures
            r == shutdown_step(old(self).stage()),
            final(self).stage() == if old(self).stage() < 5 {
                old(self).stage() + 1
            } else {
                old(self).stage()
            },
    {
        let r = if self.stage == 0 {
            ShutdownStep::SignalWorkers
        } else if self.stage == 1 {
            ShutdownStep::JoinWorkers
        } else if self.stage == 2 {
            ShutdownStep::AnnounceTermination
        } else if self.stage == 3 {
            ShutdownStep::StopAdmin
        } else if self.stage == 4 {
            ShutdownStep::JoinAdmin
        } else {
            ShutdownStep::Done
        };
        if self.stage < 5 {
            self.stage = self.stage + 1;
        }
        r
    }
}

/// An orderly shutdown of any number of sleeping workers: once signalled, each
/// ends at its next tick wherever it is in its sleep; the steps then run in
/// order, with the final admin message announced exactly once, after the
/// workers have been joined and before the admin channel is stopped.
pub proof fn law_shutdown_sequence(intervals: Seq<u32>, slept: Seq<u32>)
    requires
        intervals.len() == slept.len(),
        forall|i: int| 0 <= i < slept.len() ==> #[trigger] slept[i] < intervals[i],
    ensures
        forall|i: int|
            0 <= i < slept.len() ==> #[trigger] tick_phase(intervals[i], slept[i], true)
                == WorkerPhase::Terminated,
        shutdown_step(0) == ShutdownStep::SignalWorkers,
        shutdown_step(1) == ShutdownStep::JoinWorkers,
        shutdown_step(2) == ShutdownStep::AnnounceTermination,
        shutdown_step(3) == ShutdownStep::StopAdmin,
        shutdown_step(4) == ShutdownStep::JoinAdmin,
        forall|k: nat| k >= 5 ==> #[trigger] shutdown_step(k) == ShutdownStep::Done,
        forall|k: nat| #[trigger] shutdown_step(k) == ShutdownStep::AnnounceTermination ==> k == 2,
{
}

} // verus!
