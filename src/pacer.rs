use vstd::prelude::*;

verus! {

/// Target loop period, in milliseconds.
pub const DEFAULT_PERIOD_MS: u64 = 100;

/// Minimum spacing between the starts of two snapshots, in milliseconds.
pub const DEFAULT_MIN_SPACING_MS: u64 = 100;

/// Milliseconds from `from` to `to` on a monotonic clock; a reading that went
/// backwards counts as no time at all.
pub open spec fn elapsed_ms(from: u64, to: u64) -> int {
    if to >= from {
        to - from
    } else {
        0
    }
}

/// How long to wait at `now` so that a snapshot starts at least `min_spacing`
/// after the one that started at `last`.
pub open spec fn spacing_wait(last: u64, now: u64, min_spacing: u64) -> int {
    if elapsed_ms(last, now) < min_spacing {
        min_spacing - elapsed_ms(last, now)
    } else {
        0
    }
}

/// What to do once an iteration's work is over.
pub enum PaceAction {
    /// Sleep this many milliseconds to hold the target period.
    Sleep(u64),
    /// The iteration took this many milliseconds, the period or more: go on at once.
    Overrun(u64),
}

/// The action due when an iteration that started at `start` ends at `now`.
pub open spec fn end_action(start: u64, now: u64, period: u64) -> PaceAction {
    if elapsed_ms(start, now) < period {
        PaceAction::Sleep((period - elapsed_ms(start, now)) as u64)
    } else {
        PaceAction::Overrun(elapsed_ms(start, now) as u64)
    }
}

/// Keeps snapshots apart and the loop on its period. Its one piece of state
/// is the time the last snapshot started.
pub struct Pacer {
    pub min_spacing_ms: u64,
    pub period_ms: u64,
    pub last_start_ms: u64,
}

impl Pacer {
    /// A pacer that counts the moment `now_ms` as the last snapshot's start.
    pub fn new(min_spacing_ms: u64, period_ms: u64, now_ms: u64) -> (r: Pacer)
        ensures
            r.min_spacing_ms == min_spacing_ms,
            r.period_ms == period_ms,
            r.last_start_ms == now_ms,
    {
        Pacer { min_spacing_ms, period_ms, last_start_ms: now_ms }
    }

    /// How long to wait at `now_ms` before the next snapshot may start.
    pub fn spacing_delay(&self, now_ms: u64) -> (r: u64)
        ensures
            r == spacing_wait(self.last_start_ms, now_ms, self.min_spacing_ms),
    {
        let elapsed: u64 = if now_ms >= self.last_start_ms {
            now_ms - self.last_start_ms
        } else {
            0
        };
        if elapsed < self.min_spacing_ms {
            self.min_spacing_ms - elapsed
        } else {
            0
        }
    }

    /// Records that a snapshot starts at `start_ms`, before its requests go out.
    pub fn begin_snapshot(&mut self, start_ms: u64)
        ensures
            final(self).last_start_ms == start_ms,
            final(self).min_spacing_ms == old(self).min_spacing_ms,
            final(self).period_ms == old(self).period_ms,
    {
        self.last_start_ms = start_ms;
    }

    /// What to do when the iteration that started at `iteration_start_ms` ends at `now_ms`.
    pub fn finish_iteration(&self, iteration_start_ms: u64, now_ms: u64) -> (r: PaceAction)
        ensures
            r == end_action(iteration_start_ms, now_ms, self.period_ms),
    {
        let elapsed: u64 = if now_ms >= iteration_start_ms {
            now_ms - iteration_start_ms
        } else {
            0
        };
        if elapsed < self.period_ms {
            PaceAction::Sleep(self.period_ms - elapsed)
        } else {
            PaceAction::Overrun(elapsed)
        }
    }
}

/// A snapshot that starts no earlier than the end of the wait that the pacer
/// asked for starts at least the minimum spacing after the previous one.
pub proof fn lemma_spacing_kept(last: u64, now: u64, min_spacing: u64, start: u64)
    requires
        last <= now,
        start >= now + spacing_wait(last, now, min_spacing),
    ensures
        start - last >= min_spacing,
{
}

} // verus!
