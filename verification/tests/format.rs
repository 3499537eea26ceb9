use statusbar::blocks::battery::battery_text;
use statusbar::blocks::internet::network_text;
use statusbar::blocks::time::{clock_render, TimeParts};
use statusbar::blocks::volume::volume_text;

// ---------------------------------------------------------------------------
// Battery rendering
// ---------------------------------------------------------------------------

#[test]
fn battery_discharging_critical() {
    assert_eq!(battery_text("Discharging\n", "9").unwrap(), "🔋‼️9%");
}

#[test]
fn battery_full() {
    assert_eq!(battery_text("Full\n", "100").unwrap(), "⚡100%");
}

#[test]
fn battery_discharging_warning_tier() {
    assert_eq!(battery_text("Discharging\n", "15").unwrap(), "🔋❗15%");
    assert_eq!(battery_text("Discharging\n", "29").unwrap(), "🔋❗29%");
}

#[test]
fn battery_discharging_no_warning_at_thirty() {
    assert_eq!(battery_text("Discharging\n", "30").unwrap(), "🔋30%");
}

#[test]
fn battery_discharging_full_capacity_has_no_warning() {
    assert_eq!(battery_text("Discharging\n", "100").unwrap(), "🔋100%");
}

#[test]
fn battery_charging() {
    assert_eq!(battery_text("Charging\n", "55").unwrap(), "🔌55%");
}

#[test]
fn battery_not_charging() {
    assert_eq!(battery_text("Not charging\n", "80").unwrap(), "🛑80%");
}

#[test]
fn battery_unknown_status() {
    assert_eq!(battery_text("Mystery\n", "42").unwrap(), "♻️42%");
}

#[test]
fn battery_capacity_trailing_newline_is_trimmed() {
    assert_eq!(battery_text("Full\n", "97\n").unwrap(), "⚡97%");
}

#[test]
fn battery_low_capacity_compares_numerically() {
    // A single digit is below fifteen even though it is lexicographically
    // larger than "15"; the critical marker must appear.
    let t = battery_text("Discharging\n", "9\n").unwrap();
    assert!(t.contains("‼️"), "expected the critical marker in {t}");
}

#[test]
fn battery_malformed_capacity_is_rejected() {
    assert!(battery_text("Full\n", "abc").is_none());
    assert!(battery_text("Full\n", "").is_none());
    assert!(battery_text("Full\n", "12a").is_none());
    assert!(battery_text("Full\n", "12345").is_none());
    assert!(battery_text("Full\n", "4 2").is_none());
}

// ---------------------------------------------------------------------------
// Volume rendering
// ---------------------------------------------------------------------------

#[test]
fn volume_muted_is_the_mute_icon_alone() {
    assert_eq!(volume_text(true, "45%").unwrap(), "🔇");
    assert_eq!(volume_text(true, "not even a level").unwrap(), "🔇");
}

#[test]
fn volume_midrange() {
    assert_eq!(volume_text(false, "45%").unwrap(), "🔉45%");
}

#[test]
fn volume_tiers() {
    assert_eq!(volume_text(false, "0%").unwrap(), "🔈0%");
    assert_eq!(volume_text(false, "29%").unwrap(), "🔈29%");
    assert_eq!(volume_text(false, "30%").unwrap(), "🔉30%");
    assert_eq!(volume_text(false, "59%").unwrap(), "🔉59%");
    assert_eq!(volume_text(false, "60%").unwrap(), "🔊60%");
    assert_eq!(volume_text(false, "100%").unwrap(), "🔊100%");
}

#[test]
fn volume_level_whitespace_is_trimmed() {
    assert_eq!(volume_text(false, " 45%\n").unwrap(), "🔉45%");
}

#[test]
fn volume_malformed_level_is_rejected() {
    assert!(volume_text(false, "45").is_none());
    assert!(volume_text(false, "%").is_none());
    assert!(volume_text(false, "").is_none());
    assert!(volume_text(false, "4a%").is_none());
    assert!(volume_text(false, "1234%").is_none());
}

// ---------------------------------------------------------------------------
// Clock rendering
// ---------------------------------------------------------------------------

#[test]
fn clock_afternoon() {
    let p = TimeParts { weekday: 1, day: 3, month: 6, hour: 14, minute: 5, second: 9 };
    assert_eq!(clock_render(&p, 18), "Tue 03 Jun 🕑14:05:09 - 18");
}

#[test]
fn clock_midnight_face() {
    let p = TimeParts { weekday: 0, day: 31, month: 12, hour: 0, minute: 0, second: 0 };
    assert_eq!(clock_render(&p, 5), "Mon 31 Dec 🕛00:00:00 - 05");
}

#[test]
fn clock_noon_face() {
    let p = TimeParts { weekday: 6, day: 15, month: 1, hour: 12, minute: 59, second: 30 };
    assert_eq!(clock_render(&p, 12), "Sun 15 Jan 🕛12:59:30 - 12");
}

#[test]
fn clock_eleven_face() {
    let p = TimeParts { weekday: 3, day: 7, month: 9, hour: 23, minute: 10, second: 2 };
    assert_eq!(clock_render(&p, 0), "Thu 07 Sep 🕚23:10:02 - 00");
}

// ---------------------------------------------------------------------------
// Network rendering
// ---------------------------------------------------------------------------

fn kinds(v: &[&str]) -> Vec<String> {
    v.iter().map(|s| String::from(*s)).collect()
}

#[test]
fn network_wireless_and_tunnel() {
    let t = network_text(&kinds(&["802-11-wireless", "wireguard", "loopback"]));
    assert_eq!(t, "📶🔒");
}

#[test]
fn network_loopback_only_is_empty() {
    assert_eq!(network_text(&kinds(&["loopback"])), "");
    assert_eq!(network_text(&kinds(&[])), "");
}

#[test]
fn network_wireless_only() {
    assert_eq!(network_text(&kinds(&["loopback", "802-11-wireless"])), "📶");
}

#[test]
fn network_tunnel_only() {
    assert_eq!(network_text(&kinds(&["wireguard", "loopback"])), "🔒");
}

#[test]
fn network_icon_order_is_fixed() {
    // The wireless icon precedes the lock however the connections are listed.
    let t = network_text(&kinds(&["wireguard", "802-11-wireless"]));
    assert_eq!(t, "📶🔒");
}
