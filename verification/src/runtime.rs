//! The decisions of the background flush task: what to do at each wakeup.
use vstd::prelude::*;

verus! {

/// What the flush task does at a wakeup.
#[derive(Debug, Clone, Copy, PartialEq, Eq)]
pub enum TickAction {
    /// Wait for the next wakeup.
    Wait,
    /// Flush, then wait for the next wakeup.
    Flush,
    /// End the task.
    Stop,
}

/// The state of the flush task between two wakeups.
#[derive(Debug)]
pub struct FlushSchedule {
    skip_next: bool,
}

impl FlushSchedule {
    /// Whether the next wakeup is passed over.
    pub closed spec fn skips_next(&self) -> bool {
        self.skip_next
    }

    /// A schedule for a ticker whose first tick fires immediately. That tick
    /// is passed over, so that nothing is flushed right after the start.
    pub fn immediate_ticker() -> (r: Self)
        ensures
            r.skips_next(),
    {
        FlushSchedule { skip_next: true }
    }

    /// A schedule for a task that sleeps for an interval before each wakeup.
    pub fn sleeper() -> (r: Self)
        ensures
            !r.skips_next(),
    {
        FlushSchedule { skip_next: false }
    }

    /// A wakeup, with the stop signal given (`stopped`) or not.
    pub fn on_tick(&mut self, stopped: bool) -> (r: TickAction)
        ensures
            !final(self).skips_next(),
            r == tick_action(old(self).skips_next(), stopped),
    {
        if self.skip_next {
            self.skip_next = false;
            TickAction::Wait
        } else if stopped {
            TickAction::Stop
        } else {
            TickAction::Flush
        }
    }
}

/// What a sequence of wakeups leads to, each with the stop signal given or not,
/// for a schedule that passes over the first one (`skips`) or not.
pub open spec fn tick_actions(skips: bool, stopped: Seq<bool>) -> Seq<TickAction>
    decreases stopped.len(),
{
    if stopped.len() == 0 {
        Seq::empty()
    } else {
        seq![tick_action(skips, stopped.first())] + tick_actions(false, stopped.drop_first())
    }
}

/// A task flushes at every wakeup until the stop signal is given; only a
/// ticker's first tick, which fires at the start, is passed over.
pub proof fn law_a_task_flushes_until_it_is_stopped(skips: bool, stopped: Seq<bool>, i: int)
    requires
        0 <= i < stopped.len(),
    ensures
        tick_actions(skips, stopped).len() == stopped.len(),
        tick_actions(skips, stopped)[i] == if skips && i == 0 {
            TickAction::Wait
        } else if stopped[i] {
            TickAction::Stop
        } else {
            TickAction::Flush
        },
    decreases stopped.len(),
{
    if i > 0 {
        law_a_task_flushes_until_it_is_stopped(false, stopped.drop_first(), i - 1);
    } else if stopped.len() > 1 {
        law_a_task_flushes_until_it_is_stopped(false, stopped.drop_first(), 0);
    }
}

/// A wakeup that is passed over leads to nothing, with the stop signal or
/// without; any other ends the task once the signal is given, and flushes
/// before that.
pub proof fn law_a_wakeup_flushes_unless_told_otherwise(skipped: bool, stopped: bool)
    ensures
        tick_action(skipped, stopped) == TickAction::Wait <==> skipped,
        tick_action(skipped, stopped) == TickAction::Stop <==> !skipped && stopped,
        tick_action(skipped, stopped) == TickAction::Flush <==> !skipped && !stopped,
{
}

/// What a wakeup leads to.
pub open spec fn tick_action(skipped: bool, stopped: bool) -> TickAction {
    if skipped {
        TickAction::Wait
    } else if stopped {
        TickAction::Stop
    } else {
        TickAction::Flush
    }
}

} // verus!
