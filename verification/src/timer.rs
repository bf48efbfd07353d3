//! A one-shot countdown, measured in nanoseconds.
use vstd::prelude::*;

verus! {

/// Nanoseconds in one millisecond.
pub const NANOS_PER_MILLI: u64 = 1_000_000;

/// A one-shot timer: it counts elapsed time up to its duration and then
/// stays finished until it is reset.
///
/// `finished` is only updated by `tick`, so a freshly made or freshly reset
/// timer is not finished even when its duration is zero.
pub struct Cooldown {
    duration_ns: u64,
    elapsed_ns: u64,
    finished: bool,
}

impl Cooldown {
    #[verifier::type_invariant]
    spec fn inv(self) -> bool {
        &&& self.elapsed_ns <= self.duration_ns
        &&& self.finished ==> self.elapsed_ns == self.duration_ns
    }

    /// Length of the countdown, in nanoseconds.
    pub closed spec fn duration(self) -> nat {
        self.duration_ns as nat
    }

    /// Time counted so far, in nanoseconds.
    pub closed spec fn elapsed(self) -> nat {
        self.elapsed_ns as nat
    }

    /// Whether the countdown has run out.
    pub closed spec fn done(self) -> bool {
        self.finished
    }

    /// A timer of `duration_ms` milliseconds that has not started counting.
    pub closed spec fn fresh(duration_ms: nat) -> Cooldown {
        Cooldown { duration_ns: (duration_ms * NANOS_PER_MILLI) as u64, elapsed_ns: 0, finished: false }
    }

    /// A timer of `duration_ms` milliseconds that has already run out.
    pub closed spec fn spent(duration_ms: nat) -> Cooldown {
        Cooldown {
            duration_ns: (duration_ms * NANOS_PER_MILLI) as u64,
            elapsed_ns: (duration_ms * NANOS_PER_MILLI) as u64,
            finished: true,
        }
    }

    /// The timer after `delta_ns` more nanoseconds.
    pub closed spec fn ticked(self, delta_ns: nat) -> Cooldown {
        if self.finished {
            self
        } else if self.elapsed_ns + delta_ns >= self.duration_ns {
            Cooldown { elapsed_ns: self.duration_ns, finished: true, ..self }
        } else {
            Cooldown { elapsed_ns: (self.elapsed_ns + delta_ns) as u64, ..self }
        }
    }

    /// The timer started over from zero.
    pub closed spec fn restarted(self) -> Cooldown {
        Cooldown { elapsed_ns: 0, finished: false, ..self }
    }

    /// Ticking never runs a timer backwards: elapsed time never drops, the
    /// duration stays, and a finished timer stays finished.
    pub proof fn law_tick_never_runs_backwards(self, delta_ns: nat)
        requires
            self.elapsed() <= self.duration(),
        ensures
            self.ticked(delta_ns).duration() == self.duration(),
            self.ticked(delta_ns).elapsed() >= self.elapsed(),
            self.done() ==> self.ticked(delta_ns).done(),
            self.ticked(delta_ns).elapsed() <= self.duration(),
    {
    }

    /// A timer started over finishes on the first tick that brings it to its
    /// duration, and not before.
    pub proof fn law_restarted_timer_finishes_after_duration(self, delta_ns: nat)
        requires
            self.elapsed() <= self.duration(),
        ensures
            self.restarted().ticked(delta_ns).done() <==> delta_ns >= self.duration(),
            self.restarted().ticked(delta_ns).duration() == self.duration(),
    {
    }

    /// A timer started over keeps its duration, has counted nothing and is
    /// not finished.
    pub proof fn lemma_restarted(self)
        ensures
            self.restarted().duration() == self.duration(),
            self.restarted().elapsed() == 0,
            !self.restarted().done(),
    {
    }

    /// Starting a timer over forgets every tick it had counted.
    pub proof fn law_reset_forgets_ticks(self, delta_ns: nat)
        ensures
            self.ticked(delta_ns).restarted() == self.restarted(),
    {
    }

    /// A fresh timer of `duration_ms` milliseconds, after one tick of
    /// `delta_ns`, has counted the tick up to its duration and is finished
    /// exactly when the tick reached it.
    pub proof fn lemma_fresh_ticked(duration_ms: nat, delta_ns: nat)
        requires
            duration_ms <= u64::MAX / NANOS_PER_MILLI,
        ensures
            Cooldown::fresh(duration_ms).ticked(delta_ns).duration() == duration_ms * NANOS_PER_MILLI,
            Cooldown::fresh(duration_ms).ticked(delta_ns).elapsed() == if delta_ns >= duration_ms * NANOS_PER_MILLI {
                duration_ms * NANOS_PER_MILLI
            } else {
                delta_ns as int
            },
            Cooldown::fresh(duration_ms).ticked(delta_ns).done() == (delta_ns >= duration_ms * NANOS_PER_MILLI),
    {
        assert(duration_ms * NANOS_PER_MILLI <= u64::MAX) by (nonlinear_arith)
            requires
                duration_ms <= u64::MAX / NANOS_PER_MILLI,
        ;
    }

    /// What a fresh and a spent timer of `duration_ms` milliseconds hold.
    pub proof fn lemma_fresh_spent(duration_ms: nat)
        requires
            duration_ms <= u64::MAX / NANOS_PER_MILLI,
        ensures
            Cooldown::fresh(duration_ms).duration() == duration_ms * NANOS_PER_MILLI,
            Cooldown::fresh(duration_ms).elapsed() == 0,
            !Cooldown::fresh(duration_ms).done(),
            Cooldown::spent(duration_ms).duration() == duration_ms * NANOS_PER_MILLI,
            Cooldown::spent(duration_ms).elapsed() == duration_ms * NANOS_PER_MILLI,
            Cooldown::spent(duration_ms).done(),
    {
        assert(duration_ms * NANOS_PER_MILLI <= u64::MAX) by (nonlinear_arith)
            requires
                duration_ms <= u64::MAX / NANOS_PER_MILLI,
        ;
    }

    /// A timer of `duration_ms` milliseconds that has not started counting.
    pub fn from_millis(duration_ms: u64) -> (t: Cooldown)
        requires
            duration_ms <= u64::MAX / NANOS_PER_MILLI,
        ensures
            t == Cooldown::fresh(duration_ms as nat),
            t.duration() == duration_ms * NANOS_PER_MILLI,
            t.elapsed() == 0,
            !t.done(),
    {
        Cooldown { duration_ns: duration_ms * NANOS_PER_MILLI, elapsed_ns: 0, finished: false }
    }

    /// A timer of `duration_ms` milliseconds that has already run out.
    pub fn ready(duration_ms: u64) -> (t: Cooldown)
        requires
            duration_ms <= u64::MAX / NANOS_PER_MILLI,
        ensures
            t == Cooldown::spent(duration_ms as nat),
            t.duration() == duration_ms * NANOS_PER_MILLI,
            t.elapsed() == t.duration(),
            t.done(),
    {
        let mut t = Cooldown::from_millis(duration_ms);
        let d = t.duration_ns;
        t.tick(d);
        t
    }

    /// Advances the timer by `delta_ns`. A finished timer does not move; an
    /// unfinished one counts up, stopping at its duration, and is finished
    /// once it reaches it.
    pub fn tick(&mut self, delta_ns: u64)
        ensures
            *final(self) == old(self).ticked(delta_ns as nat),
            final(self).duration() == old(self).duration(),
            old(self).done() ==> *final(self) == *old(self),
            !old(self).done() ==> {
                let sum: int = old(self).elapsed() + delta_ns;
                &&& final(self).done() == (sum >= old(self).duration())
                &&& final(self).elapsed() == if sum >= old(self).duration() {
                    old(self).duration() as int
                } else {
                    sum
                }
            },
    {
        proof {
            use_type_invariant(&*self);
        }
        if self.finished {
            return;
        }
        if delta_ns >= self.duration_ns - self.elapsed_ns {
            self.elapsed_ns = self.duration_ns;
            self.finished = true;
        } else {
            self.elapsed_ns = self.elapsed_ns + delta_ns;
        }
    }

    /// Starts the countdown again from zero.
    pub fn reset(&mut self)
        ensures
            *final(self) == old(self).restarted(),
            final(self).duration() == old(self).duration(),
            final(self).elapsed() == 0,
            !final(self).done(),
    {
        proof {
            use_type_invariant(&*self);
        }
        self.finished = false;
        self.elapsed_ns = 0;
    }

    /// Whether the countdown has run out.
    pub fn is_finished(&self) -> (b: bool)
        ensures
            b == self.done(),
    {
        self.finished
    }

    /// Time counted so far, in nanoseconds.
    pub fn elapsed_ns(&self) -> (e: u64)
        ensures
            e == self.elapsed(),
    {
        self.elapsed_ns
    }

    /// Length of the countdown, in nanoseconds.
    pub fn duration_ns(&self) -> (d: u64)
        ensures
            d == self.duration(),
    {
        self.duration_ns
    }

    /// Time left before the countdown runs out, in nanoseconds.
    pub fn remaining_ns(&self) -> (r: u64)
        ensures
            r == self.duration() - self.elapsed(),
    {
        proof {
            use_type_invariant(self);
        }
        self.duration_ns - self.elapsed_ns
    }
}

} // verus!
