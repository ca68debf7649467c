//! Clock values, and the two trackers built on them: a [`Timer`] that fires
//! once per delay, and a [`Cooldown`] that gates an action for a duration.

use vstd::prelude::*;

verus! {

/// An instant or a span of time, in seconds, held in milliseconds.
#[derive(Clone, Copy, PartialEq, Eq, Structural, Debug)]
pub struct Seconds {
    pub millis: u64,
}

impl Seconds {
    pub fn from_millis(millis: u64) -> (r: Seconds)
        ensures
            r.millis == millis,
    {
        Seconds { millis }
    }
}

/// Fires once each time more than `delay` has passed since it last fired.
#[derive(Clone, Copy, PartialEq, Eq, Structural, Debug)]
pub struct Timer {
    /// When the timer was started or last fired.
    pub time: Seconds,
    /// How long the timer waits before firing.
    pub delay: Seconds,
}

impl Timer {
    /// Whether a tick at `now` fires: strictly more than `delay` has passed.
    pub open spec fn fires(self, now: Seconds) -> bool {
        now.millis > self.time.millis + self.delay.millis
    }

    /// The timer after a tick at `now`: it restarts from `now` when it fires.
    pub open spec fn ticked(self, now: Seconds) -> Timer {
        if self.fires(now) {
            Timer { time: now, delay: self.delay }
        } else {
            self
        }
    }

    /// Creates a timer started at `now`.
    pub fn from_seconds(delay: Seconds, now: Seconds) -> (r: Timer)
        ensures
            r.time == now,
            r.delay == delay,
    {
        Timer { time: now, delay }
    }

    /// Updates the tracked time and returns true if the delay has just been
    /// exceeded. However long ago it last fired, it fires at most once per call.
    pub fn tick_and_finished(&mut self, now: Seconds) -> (r: bool)
        ensures
            r == old(self).fires(now),
            *final(self) == old(self).ticked(now),
    {
        let finished = now.millis > self.time.millis && now.millis - self.time.millis
            > self.delay.millis;
        if finished {
            self.time = now;
        }
        finished
    }

    /// Starts the timer over from `now`.
    pub fn restart(&mut self, now: Seconds)
        ensures
            final(self).time == now,
            final(self).delay == old(self).delay,
    {
        self.time = now;
    }
}

/// Once a timer has fired at `first`, a tick at any instant up to one delay
/// later does not fire; and a timer never fires within one delay of its start.
pub proof fn lemma_timer_fires_at_most_once_per_delay(t: Timer, first: Seconds, later: Seconds)
    ensures
        t.fires(first) && later.millis <= first.millis + t.delay.millis ==> !t.ticked(
            first,
        ).fires(later),
        later.millis <= t.time.millis + t.delay.millis ==> !t.fires(later) && t.ticked(later)
            == t,
{
}

/// Gates an action: once started, it is unavailable for `duration`.
#[derive(Clone, Copy, PartialEq, Eq, Structural, Debug)]
pub struct Cooldown {
    /// Instant from which the cooldown is available.
    pub available_time: Seconds,
    /// How long the cooldown lasts once started.
    pub duration: Seconds,
}

impl Cooldown {
    /// Whether the cooldown is available at `now`.
    pub open spec fn is_available(self, now: Seconds) -> bool {
        self.available_time.millis <= now.millis
    }

    /// The cooldown after being started at `now`.
    pub open spec fn started(self, now: Seconds) -> Cooldown
        recommends
            now.millis + self.duration.millis <= u64::MAX,
    {
        Cooldown {
            available_time: Seconds { millis: (now.millis + self.duration.millis) as u64 },
            duration: self.duration,
        }
    }

    /// The cooldown after being reset.
    pub open spec fn cleared(self) -> Cooldown {
        Cooldown { available_time: Seconds { millis: 0 }, duration: self.duration }
    }

    /// Creates a cooldown that is available at start.
    pub fn from_seconds(duration: Seconds) -> (r: Cooldown)
        ensures
            r.duration == duration,
            r.available_time.millis == 0,
    {
        Cooldown { available_time: Seconds { millis: 0 }, duration }
    }

    /// Starts the cooldown, making it unavailable for its duration.
    pub fn start(&mut self, now: Seconds)
        requires
            now.millis + old(self).duration.millis <= u64::MAX,
        ensures
            *final(self) == old(self).started(now),
    {
        self.available_time = Seconds { millis: now.millis + self.duration.millis };
    }

    /// Resets the cooldown, making it available again.
    pub fn reset(&mut self)
        ensures
            *final(self) == old(self).cleared(),
    {
        self.available_time = Seconds { millis: 0 };
    }

    /// Returns true if the cooldown is available at `now`.
    pub fn available(&self, now: Seconds) -> (r: bool)
        ensures
            r == self.is_available(now),
    {
        self.available_time.millis <= now.millis
    }
}

/// A cooldown started at `start` is unavailable at every instant before
/// `start + duration` and available at every instant from then on; once
/// reset, it is available at every instant.
pub proof fn lemma_cooldown_gates_for_its_duration(c: Cooldown, start: Seconds, now: Seconds)
    requires
        start.millis + c.duration.millis <= u64::MAX,
    ensures
        c.started(start).is_available(now) <==> now.millis >= start.millis + c.duration.millis,
        c.cleared().is_available(now),
{
}

} // verus!
