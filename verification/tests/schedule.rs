use statusbar::bar::Bar;
use statusbar::blocks::battery::{Battery, BatteryReading};
use statusbar::blocks::time::{Time, TimeParts, TimeReading};
use statusbar::blocks::volume::VolumeReading;
use statusbar::blocks::Block;

fn full_at(capacity: &str) -> Option<BatteryReading> {
    Some(BatteryReading { status: String::from("Full\n"), capacity: String::from(capacity) })
}

fn level_at(level: &str) -> Option<VolumeReading> {
    Some(VolumeReading { muted: false, level: String::from(level) })
}

fn kinds(v: &[&str]) -> Option<Vec<String>> {
    Some(v.iter().map(|s| String::from(*s)).collect())
}

fn afternoon() -> Option<TimeReading> {
    Some(TimeReading {
        local: TimeParts { weekday: 1, day: 3, month: 6, hour: 14, minute: 5, second: 9 },
        utc_hour: 18,
    })
}

// ---------------------------------------------------------------------------
// Due-ness of a single block
// ---------------------------------------------------------------------------

#[test]
fn fresh_block_is_due_once_its_interval_has_passed() {
    let b = Battery::new();
    assert_eq!(b.frequency(), 30000);
    assert!(!b.due(0));
    assert!(!b.due(29999));
    assert!(b.due(30000));
}

#[test]
fn block_is_not_due_again_until_interval_after_poll() {
    let mut b = Battery::new();
    let ok = b.update(31000, full_at("50"));
    assert!(ok);
    assert_eq!(b.get_text(), "⚡50%");
    assert!(!b.due(31000));
    assert!(!b.due(60999));
    assert!(b.due(61000));
}

#[test]
fn failed_polls_keep_text_and_advance_cadence() {
    let mut b = Battery::new();
    assert!(b.update(30000, full_at("50")));
    // The source then fails three times in a row at its nominal cadence.
    for round in 1..=3u64 {
        let now = 30000 + round * 30000;
        assert!(b.due(now));
        let ok = b.update(now, None);
        assert!(!ok);
        assert_eq!(b.get_text(), "⚡50%");
        // The cadence advanced: not due again until a full interval later.
        assert!(!b.due(now));
        assert!(!b.due(now + 29999));
        assert!(b.due(now + 30000));
    }
}

#[test]
fn malformed_reading_counts_as_a_failed_poll() {
    let mut b = Battery::new();
    assert!(b.update(30000, full_at("50")));
    let ok = b.update(60000, full_at("not a number"));
    assert!(!ok);
    assert_eq!(b.get_text(), "⚡50%");
}

#[test]
fn clock_block_renders_a_full_timestamp() {
    let mut t = Time::new();
    assert_eq!(t.frequency(), 1000);
    assert!(t.due(1000));
    let ok = t.update(1000, afternoon());
    assert!(ok);
    assert_eq!(t.get_text(), "Tue 03 Jun 🕑14:05:09 - 18");
    assert!(!t.due(1999));
    assert!(t.due(2000));
}

#[test]
fn unreadable_or_out_of_range_clock_is_a_failed_poll() {
    let mut t = Time::new();
    assert!(t.update(1000, afternoon()));

    // The clock could not be read at all.
    assert!(!t.update(2000, None));
    assert_eq!(t.get_text(), "Tue 03 Jun 🕑14:05:09 - 18");

    // A reading with fields outside the clock's bounds is rejected.
    let bad = TimeReading {
        local: TimeParts { weekday: 1, day: 3, month: 6, hour: 24, minute: 5, second: 9 },
        utc_hour: 18,
    };
    assert!(!t.update(3000, Some(bad)));
    let worse = TimeReading {
        local: TimeParts { weekday: 1, day: 3, month: 6, hour: 14, minute: 5, second: 9 },
        utc_hour: 24,
    };
    assert!(!t.update(4000, Some(worse)));
    assert_eq!(t.get_text(), "Tue 03 Jun 🕑14:05:09 - 18");
    // The cadence still advanced with the failed attempts.
    assert!(!t.due(4999));
    assert!(t.due(5000));
}

// ---------------------------------------------------------------------------
// The bar's sweep protocol
// ---------------------------------------------------------------------------

#[test]
fn sleep_interval_is_the_least_block_interval() {
    let bar = Bar::new();
    assert_eq!(bar.sleep_ms(), 100);
}

#[test]
fn fresh_bar_blocks_become_due_with_their_intervals() {
    let bar = Bar::new();
    assert!(!bar.volume_due(99));
    assert!(bar.volume_due(100));
    assert!(!bar.battery_due(29999));
    assert!(bar.battery_due(30000));
    assert!(!bar.time_due(999));
    assert!(bar.time_due(1000));
    assert!(!bar.internet_due(1999));
    assert!(bar.internet_due(2000));
}

#[test]
fn fresh_bar_publishes_nothing_before_a_change() {
    let mut bar = Bar::new();
    assert_eq!(bar.compose(), "|||");
    assert!(bar.finish_sweep().is_none());
}

#[test]
fn composed_line_keeps_construction_order() {
    let mut bar = Bar::new();
    let now = 100000;
    assert!(bar.sweep_volume(now, level_at("45%")));
    assert!(bar.sweep_battery(now, full_at("50")));
    assert!(bar.sweep_internet(now, kinds(&["802-11-wireless", "wireguard"])));
    // The clock block was not yet polled: its slot stays empty, in place.
    assert_eq!(bar.compose(), "🔉45%|⚡50%||📶🔒");
    // Once it is, its text appears in the same slot.
    assert!(bar.sweep_time(now, afternoon()));
    assert_eq!(bar.compose(), "🔉45%|⚡50%|Tue 03 Jun 🕑14:05:09 - 18|📶🔒");
}

#[test]
fn dirty_sweep_publishes_and_idle_sweep_does_not() {
    let mut bar = Bar::new();
    let now = 100000;
    bar.sweep_volume(now, level_at("45%"));
    bar.sweep_battery(now, full_at("50"));
    bar.sweep_internet(now, kinds(&["loopback"]));
    let line = bar.finish_sweep();
    assert_eq!(line.unwrap(), "🔉45%|⚡50%||");

    // Identical readings on the next sweep: nothing changed, nothing
    // published.
    let later = now + 30000;
    bar.sweep_volume(later, level_at("45%"));
    bar.sweep_battery(later, full_at("50"));
    bar.sweep_internet(later, kinds(&["loopback"]));
    assert!(bar.finish_sweep().is_none());

    // One block changes: the whole line is published again.
    let third = later + 30000;
    bar.sweep_volume(third, level_at("70%"));
    bar.sweep_battery(third, full_at("50"));
    bar.sweep_internet(third, kinds(&["loopback"]));
    assert_eq!(bar.finish_sweep().unwrap(), "🔊70%|⚡50%||");
}

#[test]
fn failed_source_does_not_mark_the_sweep_dirty() {
    let mut bar = Bar::new();
    let now = 100000;
    bar.sweep_volume(now, level_at("45%"));
    bar.sweep_battery(now, full_at("50"));
    bar.sweep_internet(now, kinds(&["loopback"]));
    assert!(bar.finish_sweep().is_some());

    // The volume source fails: the old text stands and nothing is published.
    let later = now + 30000;
    let ok = bar.sweep_volume(later, None);
    assert!(!ok);
    bar.sweep_battery(later, full_at("50"));
    bar.sweep_internet(later, kinds(&["loopback"]));
    assert!(bar.finish_sweep().is_none());
    assert_eq!(bar.compose(), "🔉45%|⚡50%||");
}

#[test]
fn published_line_equals_the_composed_line() {
    let mut bar = Bar::new();
    let now = 100000;
    bar.sweep_volume(now, Some(VolumeReading { muted: true, level: String::new() }));
    bar.sweep_battery(now, full_at("100"));
    bar.sweep_internet(now, kinds(&["802-11-wireless"]));
    let composed = bar.compose();
    let line = bar.finish_sweep().unwrap();
    assert_eq!(line, composed);
    assert_eq!(line, "🔇|⚡100%||📶");
}
