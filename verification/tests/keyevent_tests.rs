use mini_power_unit::keyevent::{Key, KeyEvent, KeySwitch};

#[test]
fn new_switch_is_idle() {
    let mut k = KeySwitch::new();
    assert!(!k.get_current_button_state(Key::Up));
    assert_eq!(k.get_button_press_time(Key::Center), 0);
    assert!(k.get_key_event_and_clear().is_empty());
}

#[test]
fn press_and_release_report_events_and_duration() {
    let mut k = KeySwitch::new();
    assert!(k.key_edge(Key::Up, 500, 0));
    assert!(k.get_current_button_state(Key::Up));
    assert!(k.key_edge(Key::Up, 350, 350));
    assert!(!k.get_current_button_state(Key::Up));
    assert_eq!(k.get_button_press_time(Key::Up), 350);
    assert_eq!(k.get_key_event_and_clear(), vec![KeyEvent::UpKeyDown, KeyEvent::UpKeyUp]);
    assert!(k.get_key_event_and_clear().is_empty());
}

#[test]
fn bounce_within_guard_time_is_ignored() {
    let mut k = KeySwitch::new();
    assert!(!k.key_edge(Key::Down, 100, 0));
    assert!(!k.get_current_button_state(Key::Down));
    assert!(k.key_edge(Key::Down, 101, 0));
    assert_eq!(k.get_key_event_and_clear(), vec![KeyEvent::DownKeyDown]);
}

#[test]
fn press_time_is_truncated_to_32_bits() {
    let mut k = KeySwitch::new();
    k.key_edge(Key::Center, 200, 0);
    k.key_edge(Key::Center, 200, (1u128 << 32) + 5);
    assert_eq!(k.get_button_press_time(Key::Center), 5);
}

#[test]
fn up_down_long_press_fires_once_per_hold() {
    let mut k = KeySwitch::new();
    assert!(k.track_up_down(true, true, None));
    assert!(!k.track_up_down(true, true, Some(500)));
    assert!(k.get_key_event_and_clear().is_empty());
    k.track_up_down(true, true, Some(1000));
    k.track_up_down(true, true, Some(1500));
    assert_eq!(k.get_key_event_and_clear(), vec![KeyEvent::UpDownLongPress]);
    k.track_up_down(false, true, None);
    assert!(k.track_up_down(true, true, None));
    k.track_up_down(true, true, Some(1200));
    assert_eq!(k.get_key_event_and_clear(), vec![KeyEvent::UpDownLongPress]);
}

#[test]
fn sleeping_scan_discards_events() {
    let mut k = KeySwitch::new();
    k.key_edge(Key::Up, 500, 0);
    k.set_key_sleep(true);
    assert!(!k.begin_scan());
    assert!(k.get_key_event_and_clear().is_empty());
    k.set_key_sleep(false);
    assert!(k.begin_scan());
}

#[test]
fn clear_all_button_event_keeps_key_states() {
    let mut k = KeySwitch::new();
    k.key_edge(Key::Center, 500, 0);
    k.clear_all_button_event();
    assert!(k.get_key_event_and_clear().is_empty());
    assert!(k.get_current_button_state(Key::Center));
}

#[test]
fn unscanned_keys_stay_idle() {
    let mut k = KeySwitch::new();
    k.key_edge(Key::Up, 500, 0);
    k.key_edge(Key::Up, 500, 700);
    k.check_well_formed();
    assert!(!k.get_current_button_state(Key::Left));
    assert!(!k.get_current_button_state(Key::Right));
    assert_eq!(k.get_button_press_time(Key::Left), 0);
    assert_eq!(k.get_button_press_time(Key::Right), 0);
}
