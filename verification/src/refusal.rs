//! Why clients are turned away, and the log of it: every reason has a throttle of
//! its own.

use crate::throttle::{claim_answer, folded, next_window, window_open, LogThrottle, LogWindow};
use vstd::prelude::*;

verus! {

/// Why a client is turned away.
#[derive(Debug, Clone, Copy, PartialEq, Eq, Structural)]
pub enum RefusalReason {
    /// It speaks another protocol version.
    WrongVersion,
    /// It sent something before it introduced itself.
    EarlyMessage,
    /// It opens connections too fast.
    RateLimited,
}

/// One throttle per reason, so that a flood of one kind cannot hide the first
/// occurrence of another.
#[derive(Debug, Clone, Copy)]
pub struct RefusalLog {
    pub wrong_version: LogThrottle,
    pub early_message: LogThrottle,
    pub rate_limited: LogThrottle,
}

/// The window of `reason` after an event of reason `event` at `now`: only its own
/// events touch it.
pub open spec fn window_stepped(
    reason: RefusalReason,
    window: Option<LogWindow>,
    event: RefusalReason,
    now: u128,
) -> Option<LogWindow> {
    if event == reason {
        next_window(window, now)
    } else {
        window
    }
}

/// The window of `reason` after these events, one after the other.
pub open spec fn window_after_events(
    reason: RefusalReason,
    window: Option<LogWindow>,
    events: Seq<(RefusalReason, u128)>,
) -> Option<LogWindow>
    decreases events.len(),
{
    if events.len() == 0 {
        window
    } else {
        let (event, now) = events.last();
        window_stepped(
            reason,
            window_after_events(reason, window, events.drop_last()),
            event,
            now,
        )
    }
}

/// A claim for an event at `now`: its answer, and every reason's throttle before
/// and after it.
pub open spec fn claimed(
    before: RefusalLog,
    reason: RefusalReason,
    now: u128,
    after: RefusalLog,
    res: Option<String>,
) -> bool {
    &&& claim_answer(before.throttle(reason)@, now, res)
    &&& forall|other: RefusalReason| #[trigger]
        after.throttle(other)@ == window_stepped(other, before.throttle(other)@, reason, now)
}

impl RefusalLog {
    /// The throttle of a reason.
    pub open spec fn throttle(self, reason: RefusalReason) -> LogThrottle {
        match reason {
            RefusalReason::WrongVersion => self.wrong_version,
            RefusalReason::EarlyMessage => self.early_message,
            RefusalReason::RateLimited => self.rate_limited,
        }
    }

    /// The same clocks as `other`.
    pub open spec fn same_sources(self, other: RefusalLog) -> bool {
        forall|reason: RefusalReason| #[trigger]
            self.throttle(reason).source() == other.throttle(reason).source()
    }

    /// A log that has seen nothing yet.
    pub fn new() -> (res: RefusalLog)
        ensures
            forall|reason: RefusalReason| (#[trigger] res.throttle(reason))@ is None,
    {
        RefusalLog {
            wrong_version: LogThrottle::new(),
            early_message: LogThrottle::new(),
            rate_limited: LogThrottle::new(),
        }
    }

    /// The throttle of a reason.
    pub fn throttle_of(&self, reason: RefusalReason) -> (res: &LogThrottle)
        ensures
            *res == self.throttle(reason),
    {
        match reason {
            RefusalReason::WrongVersion => &self.wrong_version,
            RefusalReason::EarlyMessage => &self.early_message,
            RefusalReason::RateLimited => &self.rate_limited,
        }
    }

    /// Claims a line for a refusal at `now`, from the throttle of its reason; the
    /// others stay as they are.
    pub fn claim_at(&mut self, reason: RefusalReason, now: u128) -> (res: Option<String>)
        requires
            window_open(old(self).throttle(reason)@, now) ==> folded(old(self).throttle(reason)@)
                < u32::MAX,
        ensures
            claimed(*old(self), reason, now, *final(self), res),
            final(self).same_sources(*old(self)),
    {
        match reason {
            RefusalReason::WrongVersion => self.wrong_version.claim_at(now),
            RefusalReason::EarlyMessage => self.early_message.claim_at(now),
            RefusalReason::RateLimited => self.rate_limited.claim_at(now),
        }
    }

    /// Claims a line for a refusal that happens right now, as the clock of the
    /// reason's throttle reads it.
    pub fn claim(&mut self, reason: RefusalReason) -> (res: Option<String>)
        requires
            folded(old(self).throttle(reason)@) < u32::MAX,
        ensures
            exists|now: u128| #[trigger] claimed(*old(self), reason, now, *final(self), res),
            old(self).throttle(reason)@ is None ==> (res matches Some(tail) && tail@ == Seq::<
                char,
            >::empty()),
            final(self).same_sources(*old(self)),
    {
        let now: u128 = self.throttle_of(reason).clock().now();
        self.claim_at(reason, now)
    }
}

/// A flood of one kind cannot hide another: however many events of other reasons
/// came before, the window of `reason` is what it was, and its first event is
/// written in full.
pub proof fn law_floods_hide_no_other_reason(
    reason: RefusalReason,
    window: Option<LogWindow>,
    flood: Seq<(RefusalReason, u128)>,
    now: u128,
    res: Option<String>,
)
    requires
        forall|i: int| 0 <= i < flood.len() ==> (#[trigger] flood[i]).0 != reason,
        claim_answer(window_after_events(reason, window, flood), now, res),
    ensures
        window_after_events(reason, window, flood) == window,
        window is None ==> (res matches Some(tail) && tail@ == Seq::<char>::empty()),
{
    lemma_others_leave_the_window(reason, window, flood);
}

proof fn lemma_others_leave_the_window(
    reason: RefusalReason,
    window: Option<LogWindow>,
    flood: Seq<(RefusalReason, u128)>,
)
    requires
        forall|i: int| 0 <= i < flood.len() ==> (#[trigger] flood[i]).0 != reason,
    ensures
        window_after_events(reason, window, flood) == window,
    decreases flood.len(),
{
    if flood.len() > 0 {
        assert forall|i: int| 0 <= i < flood.drop_last().len() implies (
        #[trigger] flood.drop_last()[i]).0 != reason by {
            assert(flood.drop_last()[i] == flood[i]);
        }
        lemma_others_leave_the_window(reason, window, flood.drop_last());
        assert(flood.last() == flood[flood.len() - 1]);
    }
}

} // verus!
