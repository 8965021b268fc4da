use savant::monitor::{normalize_boot_keyboard_report, MonitorState, PedalEvent};

const MOD_LEFT_GUI: u8 = 0x08;
const KEY_A: u8 = 0x04;
const KEY_C: u8 = 0x06;

#[test]
fn normalize_boot_keyboard_report_too_short() {
    let data = [0u8; 7];
    assert!(normalize_boot_keyboard_report(&data).is_none());
}

#[test]
fn normalize_boot_keyboard_report_exact_8_bytes() {
    let data = [MOD_LEFT_GUI, 0, KEY_C, 0, 0, 0, 0, 0];
    let report = normalize_boot_keyboard_report(&data).unwrap();
    assert_eq!(report, data);
}

#[test]
fn normalize_boot_keyboard_report_all_zeros() {
    let data = [0u8; 8];
    let report = normalize_boot_keyboard_report(&data).unwrap();
    assert_eq!(report, data);
}

#[test]
fn normalize_boot_keyboard_report_all_keys_pressed() {
    let data = [0xFF, 0, 0x04, 0x05, 0x06, 0x07, 0x08, 0x09];
    let report = normalize_boot_keyboard_report(&data).unwrap();
    assert_eq!(report, data);
}

#[test]
fn normalize_boot_keyboard_report_prefixed() {
    let data = [0, MOD_LEFT_GUI, 0, KEY_C, 0, 0, 0, 0, 0];
    let report = normalize_boot_keyboard_report(&data).unwrap();
    assert_eq!(report, [MOD_LEFT_GUI, 0, KEY_C, 0, 0, 0, 0, 0]);
}

#[test]
fn normalize_boot_keyboard_report_padded() {
    let mut data = [0u8; 64];
    data[..8].copy_from_slice(&[0, 0, KEY_A, 0, 0, 0, 0, 0]);
    let report = normalize_boot_keyboard_report(&data).unwrap();
    assert_eq!(report, [0, 0, KEY_A, 0, 0, 0, 0, 0]);

    let mut prefixed = [0u8; 64];
    prefixed[..9].copy_from_slice(&[0, 0, 0, KEY_A, 0, 0, 0, 0, 0]);
    let report = normalize_boot_keyboard_report(&prefixed).unwrap();
    assert_eq!(report, [0, 0, KEY_A, 0, 0, 0, 0, 0]);
}

#[test]
fn monitor_emits_press_then_suppresses_then_release() {
    let mut m = MonitorState::new();

    // a press report: GUI held, the 'C' key down
    let press = [MOD_LEFT_GUI, 0, KEY_C, 0, 0, 0, 0, 0];
    match m.on_data(&press) {
        Some(PedalEvent::Press { modifiers, keys }) => {
            assert_eq!(modifiers, MOD_LEFT_GUI);
            assert_eq!(keys, vec![KEY_C]);
        }
        other => panic!("expected a press event, got {:?}", other.is_some()),
    }

    // the identical report again: suppressed
    assert!(m.on_data(&press).is_none());

    // back to all-zero: a release event
    let release = [0u8; 8];
    match m.on_data(&release) {
        Some(PedalEvent::Release) => {}
        _ => panic!("expected a release event"),
    }

    // all-zero again: suppressed
    assert!(m.on_data(&release).is_none());
}

#[test]
fn monitor_ignores_short_reads() {
    let mut m = MonitorState::new();
    assert!(m.on_data(&[1, 2, 3]).is_none());
}

#[test]
fn monitor_reports_multiple_keys_in_slot_order() {
    let mut m = MonitorState::new();
    let press = [0u8, 0, 0x05, 0, 0x04, 0, 0, 0x1D];
    match m.on_data(&press) {
        Some(PedalEvent::Press { modifiers, keys }) => {
            assert_eq!(modifiers, 0);
            assert_eq!(keys, vec![0x05, 0x04, 0x1D]);
        }
        _ => panic!("expected a press event"),
    }
}
