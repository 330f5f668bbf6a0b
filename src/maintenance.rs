//! The decisions of an index's maintenance loop.
//!
//! The loop waits for whichever comes first of its timer's tick and its
//! shutdown signal. On a tick it commits when writes are pending and does
//! nothing otherwise. The shutdown signal, or a failure of the timer, ends
//! it for good, without a last commit.
use vstd::prelude::*;
use crate::idx::{count_after_adds, count_after_commit};

verus! {

/// What woke the loop.
#[derive(Debug, Copy, Clone, PartialEq, Eq, Structural)]
pub enum MaintenanceEvent {
    Tick,
    Shutdown,
    TimerFailed,
}

/// What the loop does next.
#[derive(Debug, Copy, Clone, PartialEq, Eq, Structural)]
pub enum MaintenanceAction {
    /// Take the writer's lock and commit.
    Commit,
    /// Wait for the next event.
    Idle,
    /// Leave the loop.
    Exit,
}

/// The loop's step: whether it is stopped after the event, and its action,
/// given whether it was stopped, the event and the pending count.
pub open spec fn maintenance_step(stopped: bool, event: MaintenanceEvent, pending: u64) -> (
    bool,
    MaintenanceAction,
) {
    if stopped {
        (true, MaintenanceAction::Exit)
    } else {
        match event {
            MaintenanceEvent::Tick => (false, if pending > 0 {
                MaintenanceAction::Commit
            } else {
                MaintenanceAction::Idle
            }),
            MaintenanceEvent::Shutdown => (true, MaintenanceAction::Exit),
            MaintenanceEvent::TimerFailed => (true, MaintenanceAction::Exit),
        }
    }
}

/// The number of commits that a loop, stopped or not, makes over `events`,
/// each with the pending count it sees.
pub open spec fn commits_over(stopped: bool, events: Seq<(MaintenanceEvent, u64)>) -> nat
    decreases events.len(),
{
    if events.len() == 0 {
        0
    } else {
        let (s, a) = maintenance_step(stopped, events[0].0, events[0].1);
        (if a == MaintenanceAction::Commit {
            1nat
        } else {
            0nat
        }) + commits_over(s, events.drop_first())
    }
}

/// The state of one index's maintenance loop.
pub struct Maintainer {
    tick_interval: u64,
    stopped: bool,
}

impl Maintainer {
    pub closed spec fn stopped(&self) -> bool {
        self.stopped
    }

    pub closed spec fn interval(&self) -> u64 {
        self.tick_interval
    }

    /// A loop that ticks every `tick_interval` milliseconds.
    pub fn new(tick_interval: u64) -> (r: Self)
        ensures
            !r.stopped(),
            r.interval() == tick_interval,
    {
        Self { tick_interval, stopped: false }
    }

    pub fn tick_interval(&self) -> (r: u64)
        ensures
            r == self.interval(),
    {
        self.tick_interval
    }

    pub fn is_stopped(&self) -> (r: bool)
        ensures
            r == self.stopped(),
    {
        self.stopped
    }

    /// Decides what to do on `event`, with `pending` writes uncommitted.
    pub fn on_event(&mut self, event: MaintenanceEvent, pending: u64) -> (r: MaintenanceAction)
        ensures
            (final(self).stopped(), r) == maintenance_step(old(self).stopped(), event, pending),
            final(self).interval() == old(self).interval(),
    {
        if self.stopped {
            return MaintenanceAction::Exit;
        }
        match event {
            MaintenanceEvent::Tick => {
                if pending > 0 {
                    MaintenanceAction::Commit
                } else {
                    MaintenanceAction::Idle
                }
            },
            MaintenanceEvent::Shutdown => {
                self.stopped = true;
                MaintenanceAction::Exit
            },
            MaintenanceEvent::TimerFailed => {
                self.stopped = true;
                MaintenanceAction::Exit
            },
        }
    }
}

/// After `m >= 1` uncommitted adds, a tick of a running loop commits once;
/// once that commit succeeds nothing is pending, and the next tick commits
/// nothing.
pub proof fn lemma_tick_commits_pending(c: u64, m: nat)
    requires
        m >= 1,
    ensures
        count_after_adds(c, m) > 0,
        maintenance_step(false, MaintenanceEvent::Tick, count_after_adds(c, m)) == (
            false,
            MaintenanceAction::Commit,
        ),
        count_after_commit(count_after_adds(c, m), true) == 0,
        maintenance_step(false, MaintenanceEvent::Tick, count_after_commit(count_after_adds(c, m), true))
            == (false, MaintenanceAction::Idle),
        commits_over(
            false,
            seq![
                (MaintenanceEvent::Tick, count_after_adds(c, m)),
                (MaintenanceEvent::Tick, count_after_commit(count_after_adds(c, m), true)),
            ],
        ) == 1,
    decreases m,
{
    if m > 1 {
        lemma_tick_commits_pending(c, (m - 1) as nat);
    }
    let evs = seq![
        (MaintenanceEvent::Tick, count_after_adds(c, m)),
        (MaintenanceEvent::Tick, 0u64),
    ];
    let rest = seq![(MaintenanceEvent::Tick, 0u64)];
    assert(evs.drop_first() =~= rest);
    assert(rest.drop_first() =~= Seq::<(MaintenanceEvent, u64)>::empty());
    assert(commits_over(false, rest.drop_first()) == 0);
    assert(rest[0] == (MaintenanceEvent::Tick, 0u64));
    assert(commits_over(false, rest) == 0);
    assert(evs[0] == (MaintenanceEvent::Tick, count_after_adds(c, m)));
    assert(commits_over(false, evs) == 1);
}

/// A stopped loop commits nothing, whatever comes and whatever is pending.
pub proof fn lemma_stopped_commits_nothing(events: Seq<(MaintenanceEvent, u64)>)
    ensures
        commits_over(true, events) == 0,
    decreases events.len(),
{
    if events.len() > 0 {
        lemma_stopped_commits_nothing(events.drop_first());
    }
}

/// Once a running loop has seen its shutdown signal, no later event makes it
/// commit, however many writes are added and left pending.
pub proof fn lemma_no_commit_after_shutdown(pending: u64, later: Seq<(MaintenanceEvent, u64)>)
    ensures
        maintenance_step(false, MaintenanceEvent::Shutdown, pending).0,
        commits_over(false, seq![(MaintenanceEvent::Shutdown, pending)] + later) == 0,
{
    let evs = seq![(MaintenanceEvent::Shutdown, pending)] + later;
    assert(evs.drop_first() =~= later);
    lemma_stopped_commits_nothing(later);
}

} // verus!
