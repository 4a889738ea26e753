//! How time passes for the library, and which refusals are written to the log.

use crate::clock::{elapsed_nanos, elapsed_secs};
use crate::refusal::{RefusalLog, RefusalReason};
use crate::text::decimal;
use crate::throttle::{LogThrottle, LogWindow};
use vstd::prelude::*;

verus! {

/// Between two moments lies the time from the first to the second, in nanoseconds,
/// or in whole seconds rounded down; none lies between a moment and an earlier one.
pub proof fn law_time_between_two_moments(since: u128, now: u128, nanos: u128, secs: u128)
    requires
        call_ensures(elapsed_nanos, (since, now), nanos),
        call_ensures(elapsed_secs, (since, now), secs),
    ensures
        since <= now ==> since + nanos == now,
        since > now ==> nanos == 0,
        secs * 1_000_000_000 <= nanos < (secs + 1) * 1_000_000_000,
{
}

/// What becomes of one event at `now`: the first is written, with nothing to add.
/// After that, an event less than 60 seconds after the last written line is folded
/// and counted; a later one is written, names how many were folded if any were, and
/// the count starts again.
pub open spec fn written_or_folded(
    before: Option<LogWindow>,
    now: u128,
    after: Option<LogWindow>,
    res: Option<String>,
) -> bool {
    match before {
        None => {
            &&& after matches Some(w)
            &&& w.started == now
            &&& w.suppressed == 0
            &&& res matches Some(tail)
            &&& tail@.len() == 0
        },
        Some(last) => {
            &&& after matches Some(w)
            &&& if now < last.started + 60_000_000_000 {
                &&& res is None
                &&& w.started == last.started
                &&& w.suppressed == last.suppressed + 1
            } else {
                &&& w.started == now
                &&& w.suppressed == 0
                &&& res matches Some(tail)
                &&& last.suppressed == 0 ==> tail@.len() == 0
                &&& last.suppressed > 0 ==> tail@ == " [+"@ + decimal(last.suppressed as nat)
                    + " more in the last "@ + decimal(60) + "s]"@
            }
        },
    }
}

/// A throttle writes or folds each event as it should, and goes on by the same
/// clock.
pub proof fn law_events_are_written_or_folded(
    throttle: &mut LogThrottle,
    now: u128,
    res: Option<String>,
)
    requires
        old(throttle)@ matches Some(w) ==> w.suppressed < u32::MAX,
        call_ensures(LogThrottle::claim_at, (throttle, now), res),
    ensures
        written_or_folded(old(throttle)@, now, final(throttle)@, res),
        final(throttle).source() == old(throttle).source(),
{
}

/// A throttle tells how many events it has folded since the last written line, and
/// whether another one now would be folded: less than 60 seconds after that line.
pub proof fn law_throttles_tell_their_window(
    throttle: &LogThrottle,
    now: u128,
    count: u32,
    open: bool,
)
    requires
        call_ensures(LogThrottle::suppressed, (throttle,), count),
        call_ensures(LogThrottle::is_open_at, (throttle, now), open),
    ensures
        throttle@ is None ==> count == 0 && !open,
        throttle@ matches Some(w) ==> count == w.suppressed && (open <==> now < w.started
            + 60_000_000_000),
{
}

/// Read from its own clock, some moment or other, the same holds.
pub proof fn law_claims_of_the_moment_are_written_or_folded(
    throttle: &mut LogThrottle,
    res: Option<String>,
)
    requires
        old(throttle)@ matches Some(w) ==> w.suppressed < u32::MAX,
        call_ensures(LogThrottle::claim, (throttle,), res),
    ensures
        exists|now: u128| #[trigger]
            written_or_folded(old(throttle)@, now, final(throttle)@, res),
        final(throttle).source() == old(throttle).source(),
{
    let now = choose|now: u128| #[trigger]
        crate::throttle::claim_answer(old(throttle)@, now, res) && final(throttle)@
            == crate::throttle::next_window(old(throttle)@, now);
    assert(written_or_folded(old(throttle)@, now, final(throttle)@, res));
}

/// A refusal is written or folded by the count of its own reason; the counts of the
/// other reasons are not touched.
pub proof fn law_refusals_are_counted_by_reason(
    log: &mut RefusalLog,
    reason: RefusalReason,
    now: u128,
    res: Option<String>,
)
    requires
        old(log).throttle(reason)@ matches Some(w) ==> w.suppressed < u32::MAX,
        call_ensures(RefusalLog::claim_at, (log, reason, now), res),
    ensures
        reason is WrongVersion ==> {
            &&& written_or_folded(old(log).wrong_version@, now, final(log).wrong_version@, res)
            &&& final(log).early_message@ == old(log).early_message@
            &&& final(log).rate_limited@ == old(log).rate_limited@
        },
        reason is EarlyMessage ==> {
            &&& written_or_folded(old(log).early_message@, now, final(log).early_message@, res)
            &&& final(log).wrong_version@ == old(log).wrong_version@
            &&& final(log).rate_limited@ == old(log).rate_limited@
        },
        reason is RateLimited ==> {
            &&& written_or_folded(old(log).rate_limited@, now, final(log).rate_limited@, res)
            &&& final(log).wrong_version@ == old(log).wrong_version@
            &&& final(log).early_message@ == old(log).early_message@
        },
{
    assert(final(log).throttle(RefusalReason::WrongVersion) == final(log).wrong_version);
    assert(final(log).throttle(RefusalReason::EarlyMessage) == final(log).early_message);
    assert(final(log).throttle(RefusalReason::RateLimited) == final(log).rate_limited);
}

} // verus!
