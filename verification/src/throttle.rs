//! Folds repeated log lines: the first of each window is written in full, and
//! the rest are counted into the tail of the next one.

use crate::clock::{elapsed_nanos, nanos_between, Clock};
use crate::text::{decimal, decimal_text};
use vstd::prelude::*;
use vstd::string::*;

verus! {

/// How long one written line speaks for the ones after it.
pub const REFUSAL_LOG_WINDOW_SECS: u64 = 60;

const REFUSAL_LOG_WINDOW_NANOS: u128 = 60_000_000_000;

/// The window a written line opened.
#[derive(Debug, Clone, Copy)]
pub struct LogWindow {
    /// When the line was written, in nanoseconds of the throttle's clock.
    pub started: u128,
    /// Events folded in since.
    pub suppressed: u32,
}

/// One throttle per kind of event, so that a flood of one kind cannot hide the
/// first occurrence of another.
#[derive(Debug, Clone, Copy)]
pub struct LogThrottle {
    clock: Clock,
    window: Option<LogWindow>,
}

/// An event at `now` falls into the window.
pub open spec fn window_open(window: Option<LogWindow>, now: u128) -> bool {
    window matches Some(w) && nanos_between(w.started, now) < REFUSAL_LOG_WINDOW_SECS
        * 1_000_000_000
}

/// Events folded into the window so far.
pub open spec fn folded(window: Option<LogWindow>) -> u32 {
    match window {
        Some(w) => w.suppressed,
        None => 0,
    }
}

/// The window after an event at `now`.
pub open spec fn next_window(window: Option<LogWindow>, now: u128) -> Option<LogWindow> {
    if window_open(window, now) {
        Some(
            LogWindow { started: window->0.started, suppressed: (folded(window) + 1) as u32 },
        )
    } else {
        Some(LogWindow { started: now, suppressed: 0 })
    }
}

/// The tail of a written line that stands for `count` folded ones as well.
pub open spec fn folded_tail(count: u32) -> Seq<char> {
    if count == 0 {
        Seq::empty()
    } else {
        " [+"@ + decimal(count as nat) + " more in the last "@ + decimal(
            REFUSAL_LOG_WINDOW_SECS as nat,
        ) + "s]"@
    }
}

/// What a claim at `now` answers: nothing while a window is open, else the tail
/// for the line that may be written.
pub open spec fn claim_answer(window: Option<LogWindow>, now: u128, res: Option<String>) -> bool {
    if window_open(window, now) {
        res is None
    } else {
        res matches Some(tail) && tail@ == folded_tail(folded(window))
    }
}

/// The window after events at `times`, one after the other.
pub open spec fn window_after(window: Option<LogWindow>, times: Seq<u128>) -> Option<LogWindow>
    decreases times.len(),
{
    if times.len() == 0 {
        window
    } else {
        next_window(window_after(window, times.drop_last()), times.last())
    }
}

impl LogThrottle {
    /// The open window, if a line was written before.
    pub closed spec fn view(&self) -> Option<LogWindow> {
        self.window
    }

    /// The clock its moments are read from.
    pub closed spec fn source(&self) -> Clock {
        self.clock
    }

    /// A throttle that has seen nothing yet.
    pub fn new() -> (res: LogThrottle)
        ensures
            res@ is None,
    {
        LogThrottle { clock: Clock::start(), window: None }
    }

    /// How many events the current window has folded in.
    pub fn suppressed(&self) -> (res: u32)
        ensures
            res == folded(self@),
    {
        match &self.window {
            Some(w) => w.suppressed,
            None => 0,
        }
    }

    /// The clock its moments are read from.
    pub fn clock(&self) -> (res: Clock)
        ensures
            res == self.source(),
    {
        self.clock
    }

    /// Whether an event at `now` falls into the current window.
    pub fn is_open_at(&self, now: u128) -> (res: bool)
        ensures
            res == window_open(self@, now),
    {
        match &self.window {
            Some(w) => elapsed_nanos(w.started, now) < REFUSAL_LOG_WINDOW_NANOS,
            None => false,
        }
    }

    /// `Some(tail)` when an event at `now` should be logged; the tail names how
    /// many were folded in since the last line. `None` while a window is open.
    pub fn claim_at(&mut self, now: u128) -> (res: Option<String>)
        requires
            window_open(old(self)@, now) ==> folded(old(self)@) < u32::MAX,
        ensures
            claim_answer(old(self)@, now, res),
            final(self)@ == next_window(old(self)@, now),
            final(self).source() == old(self).source(),
    {
        let mut suppressed: u32 = 0;
        match self.window {
            Some(w) => {
                if elapsed_nanos(w.started, now) < REFUSAL_LOG_WINDOW_NANOS {
                    self.window =
                    Some(LogWindow { started: w.started, suppressed: w.suppressed + 1 });
                    return None;
                }
                suppressed = w.suppressed;
            },
            None => {},
        }
        self.window = Some(LogWindow { started: now, suppressed: 0 });
        if suppressed == 0 {
            return Some(String::new());
        }
        let mut tail = " [+".to_owned();
        tail.append(decimal_text(suppressed as u64).as_str());
        tail.append(" more in the last ");
        tail.append(decimal_text(REFUSAL_LOG_WINDOW_SECS).as_str());
        tail.append("s]");
        Some(tail)
    }

    /// Claims a line for an event that happens right now.
    pub fn claim(&mut self) -> (res: Option<String>)
        requires
            folded(old(self)@) < u32::MAX,
        ensures
            exists|now: u128| #[trigger]
                claim_answer(old(self)@, now, res) && final(self)@ == next_window(old(self)@, now),
            old(self)@ is None ==> (res matches Some(tail) && tail@ == Seq::<char>::empty()),
            final(self).source() == old(self).source(),
    {
        let now: u128 = self.clock.now();
        self.claim_at(now)
    }
}

/// Events inside one window are folded, each of them counted once, and the
/// window stays where it was.
pub proof fn law_window_counts_every_fold(window: LogWindow, times: Seq<u128>)
    requires
        window.suppressed + times.len() <= u32::MAX,
        forall|i: int| 0 <= i < times.len() ==> window_open(Some(window), #[trigger] times[i]),
    ensures
        window_after(Some(window), times) == Some(
            LogWindow {
                started: window.started,
                suppressed: (window.suppressed + times.len()) as u32,
            },
        ),
    decreases times.len(),
{
    if times.len() > 0 {
        assert forall|i: int| 0 <= i < times.drop_last().len() implies window_open(
            Some(window),
            #[trigger] times.drop_last()[i],
        ) by {
            assert(times.drop_last()[i] == times[i]);
        }
        law_window_counts_every_fold(window, times.drop_last());
        assert(window_open(Some(window), times[times.len() - 1]));
    }
}

/// The first line after a window names every event the window folded in: a
/// window that opened at `started` and saw events at `times` answers the next
/// claim past its end with their number.
pub proof fn law_next_line_names_the_folds(started: u128, times: Seq<u128>, now: u128, res: Option<String>)
    requires
        times.len() <= u32::MAX,
        forall|i: int| 0 <= i < times.len() ==> window_open(
            Some(LogWindow { started, suppressed: 0 }),
            #[trigger] times[i],
        ),
        !window_open(Some(LogWindow { started, suppressed: 0 }), now),
        claim_answer(
            window_after(Some(LogWindow { started, suppressed: 0 }), times),
            now,
            res,
        ),
    ensures
        res matches Some(tail) && tail@ == folded_tail(times.len() as u32),
{
    law_window_counts_every_fold(LogWindow { started, suppressed: 0 }, times);
}

/// How many lines are written for events at `times`, one after the other.
pub open spec fn lines_written(window: Option<LogWindow>, times: Seq<u128>) -> nat
    decreases times.len(),
{
    if times.len() == 0 {
        0
    } else {
        lines_written(window, times.drop_last()) + (if window_open(
            window_after(window, times.drop_last()),
            times.last(),
        ) {
            0nat
        } else {
            1
        })
    }
}

/// How many events the tails of those lines name, all together.
pub open spec fn events_named(window: Option<LogWindow>, times: Seq<u128>) -> nat
    decreases times.len(),
{
    if times.len() == 0 {
        0
    } else {
        let before = window_after(window, times.drop_last());
        events_named(window, times.drop_last()) + (if window_open(before, times.last()) {
            0nat
        } else {
            folded(before) as nat
        })
    }
}

/// No event goes unaccounted for, over any number of windows: each is written as
/// a line, named in the tail of a later one, or still folded into the current
/// window.
pub proof fn law_every_event_is_accounted_for(times: Seq<u128>)
    requires
        times.len() <= u32::MAX,
    ensures
        times.len() == lines_written(None, times) + events_named(None, times) + folded(
            window_after(None, times),
        ),
    decreases times.len(),
{
    if times.len() > 0 {
        law_every_event_is_accounted_for(times.drop_last());
    }
}

} // verus!
