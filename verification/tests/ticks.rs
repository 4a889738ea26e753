use onlinerpg::ticks::{next_tick, time_sync_tick, TimeSyncStep};

#[test]
fn odd_ticks_do_the_common_work() {
    assert_eq!(
        time_sync_tick(1),
        [
            TimeSyncStep::ShopHolds,
            TimeSyncStep::NpcSalaries,
            TimeSyncStep::BroadcastAndSaveTime,
        ]
    );
}

#[test]
fn even_ticks_regenerate_and_every_fourth_flushes() {
    assert_eq!(
        time_sync_tick(2),
        [
            TimeSyncStep::Regenerate,
            TimeSyncStep::ShopHolds,
            TimeSyncStep::NpcSalaries,
            TimeSyncStep::BroadcastAndSaveTime,
        ]
    );
    assert_eq!(
        time_sync_tick(4),
        [
            TimeSyncStep::Regenerate,
            TimeSyncStep::ShopHolds,
            TimeSyncStep::NpcSalaries,
            TimeSyncStep::FlushSaves,
            TimeSyncStep::BroadcastAndSaveTime,
        ]
    );
}

#[test]
fn the_rhythm_survives_the_wrap() {
    assert_eq!(next_tick(0), 1);
    assert_eq!(next_tick(u64::MAX), 0);
    let mut tick = u64::MAX - 5;
    for _ in 0..12 {
        let regenerates = time_sync_tick(tick).contains(&TimeSyncStep::Regenerate);
        let flushes = time_sync_tick(tick).contains(&TimeSyncStep::FlushSaves);
        assert_eq!(regenerates, tick % 2 == 0);
        assert_eq!(flushes, tick % 4 == 0);
        tick = next_tick(tick);
    }
}
