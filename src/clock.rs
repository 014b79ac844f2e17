//! The run/idle state machine that paces free-running execution.
use vstd::prelude::*;

verus! {

/// Shortest tick period the operator can choose, in milliseconds.
pub const MIN_PERIOD: u64 = 100;

/// Longest tick period the operator can choose, in milliseconds.
pub const MAX_PERIOD: u64 = 1000;

/// Whether the processor runs on its own.
#[derive(Clone, Copy, Debug, PartialEq, Eq, Structural)]
pub enum RunState {
    Idle,
    Active,
}

/// `ms` brought into the range of periods the clock accepts.
pub open spec fn clamp_period(ms: u64) -> u64 {
    if ms < MIN_PERIOD {
        MIN_PERIOD
    } else if ms > MAX_PERIOD {
        MAX_PERIOD
    } else {
        ms
    }
}

/// How many advance signals fall in the next `ms` milliseconds, when the
/// next one is due in `until_next` and the following ones come `period` apart.
pub open spec fn signals(until_next: int, period: int, ms: int) -> int {
    if ms < until_next {
        0
    } else {
        1 + (ms - until_next) / period
    }
}

/// How long after those `ms` milliseconds the next signal is due.
pub open spec fn due_after(until_next: int, period: int, ms: int) -> int {
    if ms < until_next {
        until_next - ms
    } else {
        period - (ms - until_next) % period
    }
}

/// The scheduler: its run state, its period and, while it runs, the time
/// left until the next advance signal.
#[derive(Clone, Copy, Debug, PartialEq, Eq, Structural)]
pub struct Clock {
    pub state: RunState,
    pub period: u64,
    pub until_next: u64,
}

impl Clock {
    pub open spec fn wf(self) -> bool {
        &&& MIN_PERIOD <= self.period <= MAX_PERIOD
        &&& 1 <= self.until_next <= MAX_PERIOD
    }

    /// The clock after a run request: an idle clock starts, a full period
    /// before its first signal; a running one is left as it is.
    pub open spec fn ran(self) -> Clock {
        match self.state {
            RunState::Idle => Clock {
                state: RunState::Active,
                period: self.period,
                until_next: self.period,
            },
            RunState::Active => self,
        }
    }

    /// The clock after a stop request: a running clock stops and drops the
    /// signal it had pending; an idle one is left as it is.
    pub open spec fn stopped(self) -> Clock {
        match self.state {
            RunState::Idle => self,
            RunState::Active => Clock {
                state: RunState::Idle,
                period: self.period,
                until_next: self.period,
            },
        }
    }

    /// The clock with a new period; the signal already pending keeps its time.
    pub open spec fn with_period(self, ms: u64) -> Clock {
        Clock { period: clamp_period(ms), ..self }
    }

    /// The clock after `ms` milliseconds have passed.
    pub open spec fn elapsed(self, ms: u64) -> Clock {
        match self.state {
            RunState::Idle => self,
            RunState::Active => Clock {
                until_next: due_after(self.until_next as int, self.period as int, ms as int) as u64,
                ..self
            },
        }
    }

    /// How many advance signals the clock gives in the next `ms` milliseconds.
    pub open spec fn signals_in(self, ms: u64) -> int {
        match self.state {
            RunState::Idle => 0,
            RunState::Active => signals(self.until_next as int, self.period as int, ms as int),
        }
    }

    /// An idle clock with the period `ms`, clamped.
    pub fn new(ms: u64) -> (r: Clock)
        ensures
            r.wf(),
            r.state == RunState::Idle,
            r.period == clamp_period(ms),
    {
        let period = if ms < MIN_PERIOD {
            MIN_PERIOD
        } else if ms > MAX_PERIOD {
            MAX_PERIOD
        } else {
            ms
        };
        Clock { state: RunState::Idle, period, until_next: period }
    }

    pub fn state(&self) -> (r: RunState)
        ensures
            r == self.state,
    {
        self.state
    }

    pub fn period(&self) -> (r: u64)
        ensures
            r == self.period,
    {
        self.period
    }

    pub fn is_active(&self) -> (r: bool)
        ensures
            r == (self.state == RunState::Active),
    {
        match self.state {
            RunState::Idle => false,
            RunState::Active => true,
        }
    }

    pub fn run(&mut self)
        requires
            old(self).wf(),
        ensures
            final(self).wf(),
            *final(self) == old(self).ran(),
    {
        if !self.is_active() {
            self.state = RunState::Active;
            self.until_next = self.period;
        }
    }

    pub fn stop(&mut self)
        requires
            old(self).wf(),
        ensures
            final(self).wf(),
            *final(self) == old(self).stopped(),
    {
        if self.is_active() {
            self.state = RunState::Idle;
            self.until_next = self.period;
        }
    }

    /// Sets the period, clamped into `MIN_PERIOD..=MAX_PERIOD`, in either state.
    pub fn set_period(&mut self, ms: u64)
        requires
            old(self).wf(),
        ensures
            final(self).wf(),
            *final(self) == old(self).with_period(ms),
    {
        self.period = if ms < MIN_PERIOD {
            MIN_PERIOD
        } else if ms > MAX_PERIOD {
            MAX_PERIOD
        } else {
            ms
        };
    }

    /// The period at which the clock signals, or `None` while it is idle.
    pub fn tick_period(&self) -> (r: Option<u64>)
        ensures
            r == (match self.state {
                RunState::Idle => None,
                RunState::Active => Some(self.period),
            }),
    {
        if self.is_active() {
            Some(self.period)
        } else {
            None
        }
    }

    /// Lets `ms` milliseconds pass and returns how many advance signals fell
    /// in them. An idle clock gives none, however long it waits.
    pub fn elapse(&mut self, ms: u64) -> (n: u64)
        requires
            old(self).wf(),
        ensures
            final(self).wf(),
            *final(self) == old(self).elapsed(ms),
            n == old(self).signals_in(ms),
            old(self).state == RunState::Idle ==> n == 0,
    {
        if !self.is_active() {
            return 0;
        }
        if ms < self.until_next {
            self.until_next = self.until_next - ms;
            return 0;
        }
        let rest = ms - self.until_next;
        let n = 1 + rest / self.period;
        proof {
            let p = self.period as int;
            let r = rest as int;
            assert(r % p < p && r % p >= 0 && r / p <= r) by (nonlinear_arith)
                requires
                    p >= 1,
                    r >= 0,
            ;
        }
        self.until_next = self.period - rest % self.period;
        n
    }
}

/// The run state changes only on a run request while idle, which makes it
/// active, and on a stop request while active, which makes it idle; time
/// passing and a change of period never change it.
pub proof fn lemma_run_state_transitions(c: Clock, ms: u64)
    requires
        c.wf(),
    ensures
        c.ran().state == RunState::Active,
        c.state == RunState::Active ==> c.ran() == c,
        c.stopped().state == RunState::Idle,
        c.state == RunState::Idle ==> c.stopped() == c,
        c.with_period(ms).state == c.state,
        c.elapsed(ms).state == c.state,
{
}

/// An idle clock gives no advance signal over any stretch of time, however
/// many periods it spans, and stays as it was.
pub proof fn lemma_idle_is_silent(c: Clock, ms: u64)
    requires
        c.wf(),
        c.state == RunState::Idle,
    ensures
        c.signals_in(ms) == 0,
        c.elapsed(ms) == c,
{
}

/// After a stop, a new run starts afresh at the last period set: a whole
/// period passes before the first signal, whatever was pending before.
pub proof fn lemma_restart_after_stop(c: Clock)
    requires
        c.wf(),
        c.state == RunState::Active,
    ensures
        c.stopped().ran().state == RunState::Active,
        c.stopped().ran().period == c.period,
        c.stopped().ran().until_next == c.period,
{
}

} // verus!
