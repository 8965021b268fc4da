use savant::lease::{InterfaceLease, TeardownAction};
use savant::locator::{
    classify, device_present, find, find_keyboard_interface, probe_scan,
    programming_mode_present, scan_outcome, DeviceIdentity, HidDeviceInfo, Personality,
    ScanOutcome,
};
use savant::protocol::{
    encode, hypotheses, interpret_readback, label, readback_requests, IdPlacement, ReportKind,
    Transmitter, TxState, WireFormatHypothesis, CMD_GET_KEY_MACRO, CMD_SAVE_TO_EEPROM,
    CMD_SET_KEY_MACRO,
};
use savant::rawcmd::{
    build_raw_command, parse_hex_byte, parse_raw_data, prepare_raw_command, HexError, RawCmdError,
};
use savant::session::{
    AbortReason, PedalAssignment, Session, SessionPhase, Verification,
};
use savant::{KINESIS_VID, PROGRAMMING_PID, SAVANT_ELITE_PID};

fn dev(vendor_id: u16, product_id: u16, bus_number: u8, address: u8) -> DeviceIdentity {
    DeviceIdentity { vendor_id, product_id, bus_number, address, serial: None }
}

fn hid(product_id: u16, usage_page: u16, usage: u16, interface_number: i32) -> HidDeviceInfo {
    HidDeviceInfo {
        vendor_id: KINESIS_VID,
        product_id,
        usage_page,
        usage,
        interface_number,
        path: format!("if{}", interface_number),
        serial: None,
    }
}

fn assignments() -> Vec<PedalAssignment> {
    vec![
        PedalAssignment { pedal_index: 0, modifiers: 0x08, key_code: 0x06 },
        PedalAssignment { pedal_index: 1, modifiers: 0x08, key_code: 0x04 },
        PedalAssignment { pedal_index: 2, modifiers: 0x08, key_code: 0x19 },
    ]
}

#[test]
fn classify_by_product_id() {
    assert_eq!(classify(KINESIS_VID, SAVANT_ELITE_PID), Some(Personality::Play));
    assert_eq!(classify(KINESIS_VID, PROGRAMMING_PID), Some(Personality::Program));
    assert_eq!(classify(KINESIS_VID, 0x1234), None);
    assert_eq!(classify(0x1234, SAVANT_ELITE_PID), None);
}

#[test]
fn find_first_matching_device() {
    let devices = vec![
        dev(0x1111, 0x2222, 1, 1),
        dev(KINESIS_VID, SAVANT_ELITE_PID, 1, 2),
        dev(KINESIS_VID, PROGRAMMING_PID, 1, 3),
    ];
    assert_eq!(find(&devices, Personality::Play), Some(1));
    assert_eq!(find(&devices, Personality::Program), Some(2));
    assert_eq!(find(&vec![], Personality::Program), None);
}

#[test]
fn device_present_checks_bus_and_address() {
    let devices = vec![dev(KINESIS_VID, PROGRAMMING_PID, 3, 7)];
    assert!(device_present(&devices, 3, 7));
    assert!(!device_present(&devices, 3, 8));
    assert!(!device_present(&devices, 4, 7));
}

#[test]
fn scan_outcome_prefers_program_mode() {
    let both = vec![
        dev(KINESIS_VID, SAVANT_ELITE_PID, 1, 1),
        dev(KINESIS_VID, PROGRAMMING_PID, 1, 2),
    ];
    assert_eq!(scan_outcome(&both), ScanOutcome::ProgramFound);
    let play = vec![dev(KINESIS_VID, SAVANT_ELITE_PID, 1, 1)];
    assert_eq!(scan_outcome(&play), ScanOutcome::PlayOnly);
    assert_eq!(scan_outcome(&vec![]), ScanOutcome::NotFound);
}

#[test]
fn keyboard_interface_needs_usage_pair() {
    let list = vec![
        hid(SAVANT_ELITE_PID, 0x01, 0x02, 1),  // mouse collection
        hid(SAVANT_ELITE_PID, 0x01, 0x06, 0),  // boot keyboard
    ];
    assert_eq!(find_keyboard_interface(&list), Some(1));
    let mouse_only = vec![hid(SAVANT_ELITE_PID, 0x01, 0x02, 1)];
    assert_eq!(find_keyboard_interface(&mouse_only), None);
}

#[test]
fn probe_scan_retains_both_personalities() {
    let list = vec![
        hid(SAVANT_ELITE_PID, 0x01, 0x06, 0),
        HidDeviceInfo { vendor_id: 0x9999, ..hid(SAVANT_ELITE_PID, 0x01, 0x02, 1) },
        hid(PROGRAMMING_PID, 0x01, 0x00, 0),
    ];
    let r = probe_scan(&list);
    assert!(r.device_found);
    assert_eq!(r.interfaces.len(), 2);
    assert_eq!(r.interfaces[0].path, "if0");
    assert!(r.descriptor_response.is_none());
    assert!(r.feature_reports.is_empty());
    assert!(r.output_responses.is_empty());

    let none = probe_scan(&vec![]);
    assert!(!none.device_found);
}

#[test]
fn lease_teardown_release_then_reattach() {
    let mut lease = InterfaceLease::begin(0);
    lease.on_detached();
    lease.on_claimed();
    assert!(lease.did_detach_kernel_driver);
    assert!(lease.is_claimed);
    // release first, then reattach, even if the release call itself errors:
    // the plan is fixed by the lease's state alone, and the runner performs
    // each step best-effort.
    assert_eq!(
        lease.teardown_steps(),
        vec![TeardownAction::ReleaseInterface, TeardownAction::ReattachKernelDriver]
    );
}

#[test]
fn lease_teardown_without_detach_only_releases() {
    let mut lease = InterfaceLease::begin(0);
    lease.on_claimed();
    assert_eq!(lease.teardown_steps(), vec![TeardownAction::ReleaseInterface]);
}

#[test]
fn lease_teardown_unclaimed_only_reattaches() {
    let mut lease = InterfaceLease::begin(0);
    lease.on_detached();
    assert_eq!(lease.teardown_steps(), vec![TeardownAction::ReattachKernelDriver]);
}

#[test]
fn hypothesis_list_shape() {
    let hs = hypotheses();
    assert_eq!(hs.len(), 11);
    // short forms first, feature before output
    assert_eq!(label(&hs[0]), "feat-rid0-cmd");
    assert_eq!(label(&hs[1]), "feat-rid0-prefix");
    assert_eq!(label(&hs[2]), "feat-ridcmd");
    assert_eq!(label(&hs[3]), "out-rid0-cmd");
    assert_eq!(label(&hs[5]), "out-ridcmd");
    // then the long tier, then the vendor request
    assert_eq!(label(&hs[6]), "36b-out-prefix");
    assert_eq!(label(&hs[9]), "36b-feat-cmd");
    assert_eq!(label(&hs[10]), "vendor");
    for h in hs.iter().take(6) {
        assert_eq!(h.length, 8);
    }
    for h in hs.iter().skip(6).take(4) {
        assert_eq!(h.length, 36);
    }
}

#[test]
fn encode_short_leading_zero() {
    let h = WireFormatHypothesis {
        kind: ReportKind::Feature,
        placement: IdPlacement::LeadingZero,
        length: 8,
    };
    let req = encode(&h, CMD_SET_KEY_MACRO, &vec![0, 0x08, 0x06], 0);
    assert_eq!(req.request_type, 0x21);
    assert_eq!(req.request, 0x09);
    assert_eq!(req.value, 0x0300);
    assert_eq!(req.index, 0);
    assert_eq!(req.data, vec![0, CMD_SET_KEY_MACRO, 0, 0x08, 0x06, 0, 0, 0]);
}

#[test]
fn encode_opcode_as_report_id() {
    let h = WireFormatHypothesis {
        kind: ReportKind::Output,
        placement: IdPlacement::OpcodeAsReportId,
        length: 8,
    };
    let req = encode(&h, CMD_SET_KEY_MACRO, &vec![2, 0x01, 0x1D], 1);
    assert_eq!(req.value, 0x0200 | (CMD_SET_KEY_MACRO as u16));
    assert_eq!(req.index, 1);
    assert_eq!(req.data, vec![2, 0x01, 0x1D, 0, 0, 0, 0, 0]);
}

#[test]
fn encode_long_opcode_first() {
    let h = WireFormatHypothesis {
        kind: ReportKind::Output,
        placement: IdPlacement::OpcodeFirst,
        length: 36,
    };
    let req = encode(&h, CMD_SAVE_TO_EEPROM, &vec![], 0);
    assert_eq!(req.data.len(), 36);
    assert_eq!(req.data[0], CMD_SAVE_TO_EEPROM);
    assert!(req.data[1..].iter().all(|&b| b == 0));
}

#[test]
fn encode_vendor_packs_setup_packet() {
    let h = WireFormatHypothesis {
        kind: ReportKind::Vendor,
        placement: IdPlacement::OpcodeAsReportId,
        length: 0,
    };
    // payload is {pedal, modifiers, key}
    let req = encode(&h, CMD_SET_KEY_MACRO, &vec![2, 0x08, 0x06], 0);
    assert_eq!(req.request_type, 0x40);
    assert_eq!(req.request, CMD_SET_KEY_MACRO);
    assert_eq!(req.value, (0x06u16 << 8) | 0x08);
    assert_eq!(req.index, 2);
    assert!(req.data.is_empty());
}

#[test]
fn transmitter_walks_list_and_accepts() {
    let mut tx = Transmitter::new(CMD_SET_KEY_MACRO, vec![0, 0x08, 0x06], 0);
    assert_eq!(tx.state, TxState::Trying(0));
    assert_eq!(tx.current_label(), Some("feat-rid0-cmd"));
    tx.on_result(false);
    assert_eq!(tx.state, TxState::Trying(1));
    tx.on_result(true);
    assert_eq!(tx.state, TxState::Accepted(1));
    assert_eq!(tx.current_label(), Some("feat-rid0-prefix"));
    assert!(tx.current().is_none());
}

#[test]
fn transmitter_exhausts_after_all_failures() {
    // an opcode none of the configured hypotheses get accepted for ends as
    // no-accepted-format, and the caller-visible pedal outcome is a plain
    // failure, not a crash
    let mut tx = Transmitter::new(CMD_SET_KEY_MACRO, vec![0, 0x08, 0x06], 0);
    let mut attempts = 0;
    while let TxState::Trying(_) = tx.state {
        assert!(tx.current().is_some());
        tx.on_result(false);
        attempts += 1;
        assert!(attempts <= 11);
    }
    assert_eq!(tx.state, TxState::Exhausted);
    assert_eq!(attempts, 11);
    assert!(tx.current().is_none());
    assert!(tx.current_label().is_none());

    let mut session = Session::new(assignments());
    session.on_mode_check(ScanOutcome::ProgramFound);
    session.on_lease(true);
    session.start_programming();
    session.on_pedal_result(None, Verification::Unsupported, true);
    assert!(!session.outcomes[0].succeeded);
    assert!(session.outcomes[0].attempted);
    assert_eq!(session.phase, SessionPhase::Programming { pedal: 1 });
}

#[test]
fn transmitter_save_command_skips_vendor_form() {
    // the raw vendor request packs the three key-macro bytes into the setup
    // packet; the save command has no payload, so the walk ends after the
    // report forms
    let mut tx = Transmitter::new(CMD_SAVE_TO_EEPROM, vec![], 0);
    let mut attempts = 0;
    while let TxState::Trying(_) = tx.state {
        assert_ne!(tx.current_label(), Some("vendor"));
        tx.on_result(false);
        attempts += 1;
    }
    assert_eq!(attempts, 10);
}

#[test]
fn readback_interpretations() {
    let mut echoed = [0u8; 64];
    echoed[0] = CMD_GET_KEY_MACRO;
    echoed[1] = 1;
    echoed[2] = 0x08;
    echoed[3] = 0x04;
    assert_eq!(interpret_readback(&echoed, 1), Some((0x08, 0x04)));

    let mut prefixed = [0u8; 64];
    prefixed[1] = CMD_GET_KEY_MACRO;
    prefixed[2] = 2;
    prefixed[3] = 0x01;
    prefixed[4] = 0x1D;
    assert_eq!(interpret_readback(&prefixed, 2), Some((0x01, 0x1D)));

    let bare = [0u8, 0x08, 0x06, 0, 0];
    assert_eq!(interpret_readback(&bare, 0), Some((0x08, 0x06)));

    let junk = [0xEEu8, 0xEE, 0xEE, 0xEE, 0xEE];
    assert_eq!(interpret_readback(&junk, 1), None);
}

#[test]
fn readback_request_order() {
    let reqs = readback_requests(0);
    assert_eq!(reqs.len(), 4);
    assert_eq!(reqs[0].value, 0x0300 | (CMD_GET_KEY_MACRO as u16));
    assert_eq!(reqs[1].value, 0x0300);
    assert_eq!(reqs[2].value, 0x0100 | (CMD_GET_KEY_MACRO as u16));
    assert_eq!(reqs[3].value, 0x0100);
    for r in &reqs {
        assert_eq!(r.request_type, 0xA1);
        assert_eq!(r.request, 0x01);
        assert_eq!(r.read_len, 64);
    }
}

#[test]
fn session_full_success_run() {
    let mut session = Session::new(assignments());
    session.on_mode_check(ScanOutcome::ProgramFound);
    session.on_lease(true);
    session.start_programming();

    let (op, payload) = session.next_command().unwrap();
    assert_eq!(op, CMD_SET_KEY_MACRO);
    assert_eq!(payload, vec![0, 0x08, 0x06]);
    session.on_pedal_result(Some(1), Verification::Verified, true);
    session.on_pedal_result(Some(1), Verification::Unsupported, true);
    session.on_pedal_result(Some(1), Verification::Mismatched, true);

    assert_eq!(session.phase, SessionPhase::Persisting);
    let (op, payload) = session.next_command().unwrap();
    assert_eq!(op, CMD_SAVE_TO_EEPROM);
    assert!(payload.is_empty());
    session.on_save_result(Some(4));

    let report = session.report();
    assert!(report.all_pedals_ok);
    assert!(report.eeprom_save_ok);
    assert!(!report.disconnected_mid_session);
    assert!(report.abort.is_none());
}

#[test]
fn session_disconnect_before_third_pedal() {
    // the device answers for the first two pedals, then leaves the bus
    // before the third pedal's transfer
    let mut session = Session::new(assignments());
    session.on_mode_check(ScanOutcome::ProgramFound);
    session.on_lease(true);
    session.start_programming();

    session.on_pedal_result(Some(0), Verification::Unsupported, true);
    session.on_pedal_result(Some(0), Verification::Unsupported, false);

    assert_eq!(session.phase, SessionPhase::Aborted);
    // the save transfer must never be attempted
    assert!(session.next_command().is_none());

    let report = session.report();
    assert!(!report.all_pedals_ok);
    assert!(!report.eeprom_save_ok);
    assert!(report.disconnected_mid_session);
    assert_eq!(report.abort, Some(AbortReason::Disconnected));
    assert!(report.outcomes[0].attempted && report.outcomes[0].succeeded);
    assert!(report.outcomes[1].attempted && report.outcomes[1].succeeded);
    assert!(!report.outcomes[2].attempted);
}

#[test]
fn session_wrong_mode_attempts_nothing() {
    let mut session = Session::new(assignments());
    session.on_mode_check(ScanOutcome::PlayOnly);
    assert_eq!(session.phase, SessionPhase::Aborted);
    assert!(session.next_command().is_none());
    let report = session.report();
    assert_eq!(report.abort, Some(AbortReason::WrongMode));
    assert!(!report.all_pedals_ok);
}

#[test]
fn session_lease_failure_is_permission_error() {
    let mut session = Session::new(assignments());
    session.on_mode_check(ScanOutcome::ProgramFound);
    session.on_lease(false);
    assert_eq!(session.phase, SessionPhase::Aborted);
    assert_eq!(session.report().abort, Some(AbortReason::PermissionDenied));
}

#[test]
fn session_save_failure_is_its_own_axis() {
    let mut session = Session::new(assignments());
    session.on_mode_check(ScanOutcome::ProgramFound);
    session.on_lease(true);
    session.start_programming();
    session.on_pedal_result(Some(0), Verification::Unsupported, true);
    session.on_pedal_result(Some(0), Verification::Unsupported, true);
    session.on_pedal_result(Some(0), Verification::Unsupported, true);
    session.on_save_result(None);
    let report = session.report();
    assert!(report.all_pedals_ok);
    assert!(!report.eeprom_save_ok);
    assert!(!report.disconnected_mid_session);
}

#[test]
fn parse_hex_byte_values() {
    assert_eq!(parse_hex_byte("b5"), Some(0xB5));
    assert_eq!(parse_hex_byte("B5"), Some(0xB5));
    assert_eq!(parse_hex_byte("5"), Some(0x05));
    assert_eq!(parse_hex_byte(""), None);
    assert_eq!(parse_hex_byte("zz"), None);
    assert_eq!(parse_hex_byte("100"), None);
}

#[test]
fn parse_raw_data_decodes_hex() {
    // the decoded bytes differ from the text's own bytes, so a decoder that
    // handed its input back would fail here
    assert_eq!(parse_raw_data("0001af"), Ok(vec![0x00, 0x01, 0xAF]));
    assert_eq!(parse_raw_data(""), Ok(vec![]));
    assert_eq!(parse_raw_data("AaBb"), Ok(vec![0xAA, 0xBB]));
}

#[test]
fn parse_raw_data_rejects_odd_length() {
    assert_eq!(
        parse_raw_data("001"),
        Err(RawCmdError::InvalidDataBytes(HexError::OddLength))
    );
}

#[test]
fn parse_raw_data_rejects_invalid_digit() {
    assert_eq!(
        parse_raw_data("0z"),
        Err(RawCmdError::InvalidDataBytes(HexError::InvalidCharacter { c: 'z', index: 1 }))
    );
}

#[test]
fn build_raw_command_layout() {
    let buf = build_raw_command(0xB5, &vec![1, 2, 3]).unwrap();
    assert_eq!(buf.len(), 36);
    assert_eq!(&buf[..6], &[0x00, 0xB5, 1, 2, 3, 0]);
    assert!(buf[5..].iter().all(|&b| b == 0));
}

#[test]
fn build_raw_command_rejects_long_data() {
    let data: Vec<u8> = vec![0xAB; 35];
    assert_eq!(
        build_raw_command(0xB5, &data),
        Err(RawCmdError::DataTooLong { len: 35 })
    );
}

#[test]
fn prepare_raw_command_pipeline() {
    let buf = prepare_raw_command("b5", "0102").unwrap();
    assert_eq!(buf.len(), 36);
    assert_eq!(&buf[..4], &[0x00, 0xB5, 0x01, 0x02]);
    assert_eq!(
        prepare_raw_command("nope", ""),
        Err(RawCmdError::InvalidCommandByte)
    );
    assert_eq!(
        prepare_raw_command("b5", "123"),
        Err(RawCmdError::InvalidDataBytes(HexError::OddLength))
    );
}

#[test]
fn session_not_found_aborts() {
    let mut session = Session::new(assignments());
    session.on_mode_check(ScanOutcome::NotFound);
    assert_eq!(session.phase, SessionPhase::Aborted);
    assert!(session.next_command().is_none());
    let report = session.report();
    assert_eq!(report.abort, Some(AbortReason::DeviceNotFound));
    assert!(!report.all_pedals_ok && !report.eeprom_save_ok);
    assert!(!report.disconnected_mid_session);
}

#[test]
fn programming_mode_present_matches_scan() {
    let devices = vec![
        dev(KINESIS_VID, SAVANT_ELITE_PID, 1, 1),
        dev(KINESIS_VID, PROGRAMMING_PID, 1, 2),
    ];
    assert!(programming_mode_present(&devices));
    let play_only = vec![dev(KINESIS_VID, SAVANT_ELITE_PID, 1, 1)];
    assert!(!programming_mode_present(&play_only));
}
