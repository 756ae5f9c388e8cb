use mini_power_unit::control::{link_check, output_decision, OutputDecision};
use mini_power_unit::displayctl::{
    buffer_watermark, connecting_frame, message_expired, ip_display, max_variable_mv, next_loopcount, pdo_kind_label,
    pdo_page_count, pdo_page_range, pdo_page_title, rssi_label, signal_level, status_changed,
    watermark_fill_width, wifi_changed, Blink, LoggingStatus, PDODisplayInfo, WifiStatus,
};

#[test]
fn signal_icon_levels() {
    assert_eq!(signal_level(-101), None);
    assert_eq!(signal_level(-100), Some(0));
    assert_eq!(signal_level(-80), Some(0));
    assert_eq!(signal_level(-79), Some(1));
    assert_eq!(signal_level(-70), Some(2));
    assert_eq!(signal_level(-65), Some(3));
    assert_eq!(signal_level(-64), Some(4));
    assert_eq!(signal_level(-30), Some(4));
    assert_eq!(signal_level(-29), None);
}

#[test]
fn connecting_animation_cycle() {
    assert_eq!(connecting_frame(0), Some(0));
    assert_eq!(connecting_frame(3), Some(1));
    assert_eq!(connecting_frame(8), Some(2));
    assert_eq!(connecting_frame(11), Some(3));
    assert_eq!(connecting_frame(15), Some(4));
    assert_eq!(connecting_frame(16), None);
    assert_eq!(next_loopcount(14), 15);
    assert_eq!(next_loopcount(15), 0);
}

#[test]
fn rssi_labels() {
    assert_eq!(rssi_label(-65), "-65dBm");
    assert_eq!(rssi_label(5), "+5dBm");
    assert_eq!(rssi_label(0), "NO SIG");
    assert_eq!(rssi_label(i32::MIN), format!("{:+02}dBm", i32::MIN));
    for r in [-100, -7, 1, 42] {
        assert_eq!(rssi_label(r), format!("{:+02}dBm", r));
    }
}

#[test]
fn ip_display_keeps_last_two_octets() {
    assert_eq!(ip_display("192.168.1.23"), "1.23");
    assert_eq!(ip_display("10.0"), "10.0");
    assert_eq!(ip_display("localhost"), "localhost");
    assert_eq!(ip_display(""), "");
    assert_eq!(ip_display("a.b."), "b.");
}

#[test]
fn watermark_values() {
    assert_eq!(buffer_watermark(0), 0);
    assert_eq!(buffer_watermark(64), 50);
    assert_eq!(buffer_watermark(127), 100);
    assert_eq!(watermark_fill_width(100), 58);
    assert_eq!(watermark_fill_width(50), 29);
    assert_eq!(watermark_fill_width(1), 0);
}

#[test]
fn blink_runs_six_steps() {
    let mut b = Blink::new();
    let mut cleared = vec![];
    let mut inverted = vec![];
    for _ in 0..6 {
        cleared.push(b.step(true));
        inverted.push(b.inverted);
    }
    assert_eq!(cleared, vec![false, false, false, false, false, true]);
    assert_eq!(inverted, vec![true, false, true, false, true, false]);
    assert!(!b.step(false));
    assert!(!b.is_blinking);
}

#[test]
fn redraw_decisions() {
    assert!(!wifi_changed(WifiStatus::Disconnected, WifiStatus::Disconnected, 3, 4, -50, -60));
    assert!(wifi_changed(WifiStatus::Connecting, WifiStatus::Connecting, 3, 4, 0, 0));
    assert!(!wifi_changed(WifiStatus::Connecting, WifiStatus::Connecting, 4, 4, 0, 1));
    assert!(wifi_changed(WifiStatus::Connected, WifiStatus::Connected, 0, 0, -50, -51));
    assert!(wifi_changed(WifiStatus::Connected, WifiStatus::Disconnected, 0, 0, 0, 0));
    assert!(!status_changed(LoggingStatus::Start, LoggingStatus::Start));
    assert!(status_changed(LoggingStatus::Start, LoggingStatus::Stop));
}

#[test]
fn variable_pdo_top_of_voltage_bar() {
    let pdos = vec![
        PDODisplayInfo { voltage_mv: 20000, is_fixed: true },
        PDODisplayInfo { voltage_mv: 11000, is_fixed: false },
        PDODisplayInfo { voltage_mv: 21000, is_fixed: false },
    ];
    assert_eq!(max_variable_mv(&pdos), 21000);
    assert_eq!(max_variable_mv(&vec![PDODisplayInfo { voltage_mv: 9000, is_fixed: true }]), 0);
}

#[test]
fn pdo_pages() {
    assert_eq!(pdo_page_count(0), 0);
    assert_eq!(pdo_page_count(6), 1);
    assert_eq!(pdo_page_count(7), 2);
    assert_eq!(pdo_page_range(0, 7), (0, 6));
    assert_eq!(pdo_page_range(1, 7), (6, 7));
    assert_eq!(pdo_page_title(0, 1), "Available PDOs:");
    assert_eq!(pdo_page_title(1, 2), "PDOs (Page 2/2)");
    assert_eq!(pdo_kind_label(3, true), "F-SPR");
    assert_eq!(pdo_kind_label(8, true), "F-EPR");
    assert_eq!(pdo_kind_label(4, false), "PPS");
    assert_eq!(pdo_kind_label(9, false), "AVS");
}

#[test]
fn link_and_output_decisions() {
    assert_eq!(link_check(-60, 100), (true, false));
    assert_eq!(link_check(0, 200), (false, true));
    assert_eq!(link_check(0, 201), (false, false));
    assert_eq!(
        output_decision(true, false, false, false),
        OutputDecision { apply_voltage: true, switch_on: true, switch_off: false, status: LoggingStatus::Start }
    );
    assert_eq!(
        output_decision(true, true, true, false),
        OutputDecision { apply_voltage: false, switch_on: false, switch_off: false, status: LoggingStatus::Start }
    );
    assert_eq!(
        output_decision(true, true, true, true),
        OutputDecision { apply_voltage: true, switch_on: false, switch_off: false, status: LoggingStatus::Start }
    );
    assert_eq!(
        output_decision(false, true, false, false),
        OutputDecision { apply_voltage: false, switch_on: false, switch_off: true, status: LoggingStatus::Stop }
    );
}

#[test]
fn message_timeouts() {
    assert!(!message_expired(0, 1_000_000));
    assert!(!message_expired(3000, 3000));
    assert!(message_expired(3000, 3001));
    assert!(!message_expired(3000, 10));
}
