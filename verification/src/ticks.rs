//! The periodic work of the running game.

use vstd::prelude::*;

verus! {

/// Periods of the background tasks.
pub const MOVEMENT_TICK_MILLIS: u64 = 200;

pub const MONSTER_SPAWN_TICK_SECS: u64 = 10;

pub const DUNGEON_REFILL_TICK_SECS: u64 = 30;

pub const GROUND_ITEM_TICK_SECS: u64 = 30;

pub const TIME_SYNC_TICK_SECS: u64 = 8;

/// One piece of work of a time-sync tick.
#[derive(Debug, Clone, Copy, PartialEq, Eq, Structural)]
pub enum TimeSyncStep {
    /// Regenerate player health.
    Regenerate,
    /// Count down trade-window holds.
    ShopHolds,
    /// Pay NPC trader salaries on game-day rollover.
    NpcSalaries,
    /// Batch-save dirty character states and inventories.
    FlushSaves,
    /// Tell every client the time, and store it.
    BroadcastAndSaveTime,
}

/// The work of the time-sync tick number `tick_count`, in order: health
/// regenerates every second tick, saves are flushed every fourth.
pub open spec fn time_sync_plan(tick_count: u64) -> Seq<TimeSyncStep> {
    (if tick_count % 2 == 0 {
        seq![TimeSyncStep::Regenerate]
    } else {
        seq![]
    }) + seq![TimeSyncStep::ShopHolds, TimeSyncStep::NpcSalaries] + (if tick_count % 4 == 0 {
        seq![TimeSyncStep::FlushSaves]
    } else {
        seq![]
    }) + seq![TimeSyncStep::BroadcastAndSaveTime]
}

/// The work of the time-sync tick number `tick_count`, in order.
pub fn time_sync_tick(tick_count: u64) -> (res: Vec<TimeSyncStep>)
    ensures
        res@ == time_sync_plan(tick_count),
{
    let mut res: Vec<TimeSyncStep> = Vec::new();
    if tick_count % 2 == 0 {
        res.push(TimeSyncStep::Regenerate);
    }
    res.push(TimeSyncStep::ShopHolds);
    res.push(TimeSyncStep::NpcSalaries);
    if tick_count % 4 == 0 {
        res.push(TimeSyncStep::FlushSaves);
    }
    res.push(TimeSyncStep::BroadcastAndSaveTime);
    assert(res@ =~= time_sync_plan(tick_count));
    res
}

/// The number of the tick after `tick_count`.
pub fn next_tick(tick_count: u64) -> (res: u64)
    ensures
        res == following(tick_count),
{
    tick_count.wrapping_add(1)
}

/// The number of the tick after `tick_count`; the count wraps around.
pub open spec fn following(tick_count: u64) -> u64 {
    if tick_count == u64::MAX {
        0
    } else {
        (tick_count + 1) as u64
    }
}

/// Health regenerates on every other tick, also where the count wraps around.
pub proof fn law_every_other_tick_regenerates(tick: u64)
    ensures
        time_sync_plan(tick).contains(TimeSyncStep::Regenerate) <==> !time_sync_plan(
            following(tick),
        ).contains(TimeSyncStep::Regenerate),
{
    lemma_plan(tick);
    lemma_plan(following(tick));
}

/// Saves are flushed on every fourth tick, also where the count wraps around: a
/// tick that flushes is followed by three that do not, and then by one that
/// does.
pub proof fn law_every_fourth_tick_flushes(tick: u64)
    requires
        time_sync_plan(tick).contains(TimeSyncStep::FlushSaves),
    ensures
        ({
            let second = following(tick);
            let third = following(second);
            let fourth = following(third);
            let fifth = following(fourth);
            &&& !time_sync_plan(second).contains(TimeSyncStep::FlushSaves)
            &&& !time_sync_plan(third).contains(TimeSyncStep::FlushSaves)
            &&& !time_sync_plan(fourth).contains(TimeSyncStep::FlushSaves)
            &&& time_sync_plan(fifth).contains(TimeSyncStep::FlushSaves)
        }),
{
    lemma_plan(tick);
    lemma_plan(following(tick));
    lemma_plan(following(following(tick)));
    lemma_plan(following(following(following(tick))));
    lemma_plan(following(following(following(following(tick)))));
}

/// Every tick tells the time, after all of its other work.
pub proof fn law_time_is_told_last(tick: u64)
    ensures
        time_sync_plan(tick).last() == TimeSyncStep::BroadcastAndSaveTime,
{
}

proof fn lemma_plan(tick: u64)
    ensures
        time_sync_plan(tick).contains(TimeSyncStep::Regenerate) <==> tick % 2 == 0,
        time_sync_plan(tick).contains(TimeSyncStep::FlushSaves) <==> tick % 4 == 0,
{
    let plan = time_sync_plan(tick);
    if tick % 2 == 0 {
        assert(plan[0] == TimeSyncStep::Regenerate);
    }
    if tick % 4 == 0 {
        assert(plan[3] == TimeSyncStep::FlushSaves);
    }
}

} // verus!
