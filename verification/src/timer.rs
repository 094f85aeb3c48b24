//! A periodic timer whose wait accounting excludes time spent paused.
//!
//! Time is an abstract monotone `u64` clock reading supplied by the caller;
//! the timer never reads a clock itself. `tick` hands back how long the
//! caller still has to wait, so that across any number of pause/resume
//! cycles the total unpaused time between two completions is exactly the
//! configured interval.

use vstd::prelude::*;

verus! {

/// What a call to `tick` found.
#[derive(Clone, Copy, Debug, PartialEq, Eq, Structural)]
pub enum TickResult {
    /// The interval's remaining wait was scheduled; the period completes
    /// once the returned wait has elapsed.
    Completed,
    /// The timer is paused; nothing was scheduled.
    Paused,
}

/// A periodic timer that can be paused without losing partial progress.
///
/// `already_expired` remembers how much unpaused time of the current period
/// had already been consumed when the last pause began; while it is `None`
/// the period simply runs from `deadline`. `last_interaction` is the clock
/// reading of the latest transition, and `deadline` the instant at which the
/// current period would end if no pause had intervened.
pub struct PausableInterval {
    pub interval: u64,
    pub is_paused: bool,
    pub already_expired: Option<u64>,
    pub last_interaction: u64,
    pub deadline: u64,
}

impl PausableInterval {
    /// Structural invariant: consumed progress never exceeds the clock, and
    /// the deadline lies at most one interval past the last transition.
    pub open spec fn wf(self) -> bool {
        &&& (self.already_expired matches Some(e) ==> e <= self.last_interaction)
        &&& self.deadline <= self.last_interaction + self.interval
    }

    /// Unpaused time credited toward the current period at instant `now`.
    pub open spec fn consumed_at(self, now: u64) -> int {
        (match self.already_expired {
            Some(e) => e as int,
            None => 0,
        }) + if self.is_paused {
            0
        } else {
            now - self.last_interaction
        }
    }

    /// The state `pause(paused)` at instant `now` leads to.
    pub open spec fn spec_pause(self, paused: bool, now: u64) -> PausableInterval {
        if self.is_paused == paused {
            self
        } else {
            PausableInterval {
                is_paused: paused,
                already_expired: if paused {
                    Some((self.consumed_at(now)) as u64)
                } else {
                    self.already_expired
                },
                last_interaction: now,
                ..self
            }
        }
    }

    /// The wait `tick` schedules at instant `now` when the timer is not
    /// paused: the remainder of the current period, zero once the period's
    /// unpaused budget is already spent.
    pub open spec fn spec_wait(self, now: u64) -> int {
        match self.already_expired {
            Some(_) => if self.consumed_at(now) >= self.interval {
                0
            } else {
                self.interval - self.consumed_at(now)
            },
            None => if now >= self.deadline {
                0
            } else {
                self.deadline - now
            },
        }
    }

    /// The state after the period completes at instant `at`: a fresh period
    /// starts, with a full interval ahead of it.
    pub open spec fn spec_completed(self, at: u64) -> PausableInterval {
        PausableInterval {
            already_expired: None,
            last_interaction: at,
            deadline: (at + self.interval) as u64,
            ..self
        }
    }

    /// A fresh timer of period `interval` made at instant `now`.
    pub open spec fn spec_new(interval: u64, now: u64) -> PausableInterval {
        PausableInterval {
            interval,
            is_paused: false,
            already_expired: None,
            last_interaction: now,
            deadline: now,
        }
    }

    /// Create a timer of period `interval`; its first period completes
    /// immediately, so the first `tick` returns a zero wait.
    pub fn new(interval: u64, now: u64) -> (r: PausableInterval)
        ensures
            r == PausableInterval::spec_new(interval, now),
            r.wf(),
    {
        PausableInterval {
            interval,
            is_paused: false,
            already_expired: None,
            last_interaction: now,
            deadline: now,
        }
    }

    /// Whether this timer is currently paused.
    pub fn is_paused(&self) -> (r: bool)
        ensures
            r == self.is_paused,
    {
        self.is_paused
    }

    /// Schedule the rest of the current period. A paused timer reports
    /// `Paused` at once and is left untouched; otherwise the returned wait
    /// is what remains of the period at `now`, and the timer starts a fresh
    /// period that ends one interval after the completion instant.
    pub fn tick(&mut self, now: u64) -> (r: (TickResult, u64))
        requires
            old(self).wf(),
            now >= old(self).last_interaction,
            now + 2 * old(self).interval <= u64::MAX,
        ensures
            old(self).is_paused ==> r == (TickResult::Paused, 0u64) && *final(self) == *old(self),
            !old(self).is_paused ==> {
                &&& r.0 == TickResult::Completed
                &&& r.1 == old(self).spec_wait(now)
                &&& *final(self) == old(self).spec_completed((now + r.1) as u64)
            },
            final(self).wf(),
    {
        if self.is_paused {
            return (TickResult::Paused, 0);
        }

        let wait: u64 = match self.already_expired {
            Some(e) => {
                let expired = e + (now - self.last_interaction);
                if expired >= self.interval {
                    0
                } else {
                    self.interval - expired
                }
            },
            None => {
                if now >= self.deadline {
                    0
                } else {
                    self.deadline - now
                }
            },
        };

        let completion = now + wait;
        self.already_expired = None;
        self.last_interaction = completion;
        self.deadline = completion + self.interval;

        (TickResult::Completed, wait)
    }

    /// Pause or resume. A transition to paused banks the unpaused time
    /// elapsed since the last transition; a transition to resumed restarts
    /// elapsed-time accounting at `now`. Repeating the current state is a
    /// no-op, and no transition changes the time credited so far.
    pub fn pause(&mut self, paused: bool, now: u64)
        requires
            old(self).wf(),
            now >= old(self).last_interaction,
        ensures
            *final(self) == old(self).spec_pause(paused, now),
            final(self).consumed_at(now) == old(self).consumed_at(now),
            final(self).wf(),
            final(self).is_paused == paused || old(self).is_paused == paused,
    {
        if self.is_paused == paused {
            return;
        }

        self.is_paused = paused;

        if paused {
            let e = match self.already_expired {
                Some(e) => e,
                None => 0,
            };
            self.already_expired = Some(e + (now - self.last_interaction));
        }

        self.last_interaction = now;
    }

    /// Discard partial progress and restart the full interval from `now`.
    pub fn reset(&mut self, now: u64)
        requires
            old(self).wf(),
            now >= old(self).last_interaction,
            now + old(self).interval <= u64::MAX,
        ensures
            *final(self) == (PausableInterval {
                already_expired: None,
                last_interaction: now,
                deadline: (now + old(self).interval) as u64,
                ..*old(self)
            }),
            final(self).wf(),
            !final(self).is_paused ==> final(self).consumed_at(now) == 0,
    {
        self.already_expired = None;
        self.last_interaction = now;
        self.deadline = now + self.interval;
    }
}

/// The state reached by performing one `pause` call per event, in order:
/// event `(at, paused)` stands for `pause(paused)` made at instant `at`.
pub open spec fn apply_events(t: PausableInterval, events: Seq<(u64, bool)>) -> PausableInterval
    decreases events.len(),
{
    if events.len() == 0 {
        t
    } else {
        apply_events(t.spec_pause(events[0].1, events[0].0), events.drop_first())
    }
}

/// The events happen in order, no earlier than `from` and no later than `to`.
pub open spec fn events_between(from: u64, events: Seq<(u64, bool)>, to: u64) -> bool {
    &&& forall|i: int| 0 <= i < events.len() ==> from <= #[trigger] events[i].0 <= to
    &&& forall|i: int, j: int| 0 <= i < j < events.len() ==> #[trigger] events[i].0 <= #[trigger] events[j].0
}

/// The wall-clock time within `[from, to]` during which the paused flag is
/// off, starting from `paused` and toggled by the events.
pub open spec fn unpaused_total(paused: bool, from: u64, events: Seq<(u64, bool)>, to: u64) -> int
    decreases events.len(),
{
    if events.len() == 0 {
        if paused {
            0
        } else {
            to - from
        }
    } else {
        (if paused {
            0
        } else {
            events[0].0 - from
        }) + unpaused_total(events[0].1, events[0].0, events.drop_first(), to)
    }
}

/// Every sequence of pause/resume calls leaves the timer's credited
/// unpaused time equal to what it already had plus the unpaused wall-clock
/// time the events span, and touches neither period nor deadline.
pub proof fn lemma_consumed_after_events(
    t: PausableInterval,
    from: u64,
    events: Seq<(u64, bool)>,
    to: u64,
)
    requires
        t.wf(),
        t.last_interaction <= from <= to,
        events_between(from, events, to),
    ensures
        ({
            let u = apply_events(t, events);
            &&& u.wf()
            &&& u.interval == t.interval
            &&& u.deadline == t.deadline
            &&& u.last_interaction <= to
            &&& u.consumed_at(to) == t.consumed_at(from) + unpaused_total(
                t.is_paused,
                from,
                events,
                to,
            )
            &&& t.already_expired is Some ==> u.already_expired is Some
            &&& (t.already_expired is None && !t.is_paused && u.already_expired is None) ==> u == t
        }),
    decreases events.len(),
{
    if events.len() == 0 {
    } else {
        let at = events[0].0;
        let b = events[0].1;
        let t1 = t.spec_pause(b, at);
        assert(t1.consumed_at(at) == t.consumed_at(at));
        assert(t1.wf());
        assert(forall|i: int|
            0 <= i < events.drop_first().len() ==> at <= #[trigger] events.drop_first()[i].0 <= to)
            by {
            assert(forall|i: int|
                0 <= i < events.drop_first().len() ==> events.drop_first()[i] == events[i + 1]);
        }
        lemma_consumed_after_events(t1, at, events.drop_first(), to);
    }
}

/// Timer accounting: start a fresh period at `start` (the state right after
/// a completion), perform any sequence of pause/resume calls, and schedule
/// the next tick at `end` with the timer resumed. The wait that tick
/// returns is the interval minus the unpaused time already spent, floored
/// at zero; so the total unpaused time between the two completions is
/// exactly the interval whenever the spent time had not yet reached it.
pub proof fn lemma_timer_accounting(
    start: u64,
    interval: u64,
    events: Seq<(u64, bool)>,
    end: u64,
)
    requires
        start <= end,
        start + interval <= u64::MAX,
        events_between(start, events, end),
    ensures
        ({
            let t0 = PausableInterval {
                interval,
                is_paused: false,
                already_expired: None,
                last_interaction: start,
                deadline: (start + interval) as u64,
            };
            let u = apply_events(t0, events);
            let total = unpaused_total(false, start, events, end);
            &&& !u.is_paused ==> u.spec_wait(end) == (if total >= interval {
                0int
            } else {
                interval - total
            })
            &&& (!u.is_paused && total <= interval) ==> total + u.spec_wait(end) == interval
        }),
{
    let t0 = PausableInterval {
        interval,
        is_paused: false,
        already_expired: None,
        last_interaction: start,
        deadline: (start + interval) as u64,
    };
    let u = apply_events(t0, events);
    let total = unpaused_total(false, start, events, end);
    lemma_consumed_after_events(t0, start, events, end);
    assert(u.consumed_at(end) == total);
    if !u.is_paused {
        match u.already_expired {
            Some(_) => {},
            None => {
                assert(u == t0);
            },
        }
    }
}

} // verus!
