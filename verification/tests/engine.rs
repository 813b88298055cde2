use rog_aura_terminal::aura::AuraEffect;
use rog_aura_terminal::aura::AuraInputReport;
use rog_aura_terminal::aura::AuraOutputReport;
use rog_aura_terminal::aura::InvalidReportError;
use rog_aura_terminal::aura::RGB8;
use rog_aura_terminal::engine::TransportError;
use rog_aura_terminal::AsusRogTerminalHidClass;
use rog_aura_terminal::RogTerminalMessage;

fn output_report(head: &[u8]) -> AuraOutputReport {
    let mut bytes = [0u8; 65];
    bytes[..head.len()].copy_from_slice(head);
    bytes
}

fn version_request() -> AuraOutputReport {
    output_report(&[0xec, 0x82])
}

fn table_request() -> AuraOutputReport {
    output_report(&[0xec, 0xb0])
}

fn version_report(version: &[u8; 15]) -> AuraInputReport {
    let mut bytes = [0u8; 64];
    bytes[0] = 0xec;
    bytes[1] = 0x02;
    bytes[2..17].copy_from_slice(version);
    bytes
}

fn table_report() -> AuraInputReport {
    let mut bytes = [0u8; 64];
    bytes[..34].copy_from_slice(&[
        0xec, 0x30, 0x00, 0x00, 0x1f, 0xff, 0x04, 0x1f, 0x01, 0x01, 0x00, 0x5a, 0x01, 0x64, 0x01,
        0x01, 0x00, 0x5a, 0x01, 0x64, 0x01, 0x01, 0x00, 0x5a, 0x01, 0x64, 0x01, 0x01, 0x00, 0x5a,
        0x01, 0x64, 0x01, 0x03,
    ]);
    bytes
}

/// Polls with `pulled` on a transport that accepts every report, and returns
/// what was submitted.
fn poll_and_drain(
    engine: &mut AsusRogTerminalHidClass,
    pulled: Result<AuraOutputReport, TransportError>,
) -> Vec<AuraInputReport> {
    let mut sent = Vec::new();
    let mut next = engine.poll(pulled).ready;
    while let Some(report) = next {
        sent.push(report);
        next = engine.push_ready_data(Ok(()));
    }
    sent
}

/// Polls with `pulled` on a transport that accepts no report.
fn poll_blocked(
    engine: &mut AsusRogTerminalHidClass,
    pulled: Result<AuraOutputReport, TransportError>,
) {
    if engine.poll(pulled).ready.is_some() {
        assert_eq!(engine.push_ready_data(Err(TransportError::WouldBlock)), None);
    }
}

fn effect_of(message: Option<RogTerminalMessage>) -> (u8, AuraEffect) {
    match message {
        Some(RogTerminalMessage::SetEffect { channel, effect }) => (channel, effect),
        _ => panic!("no effect is waiting"),
    }
}

fn leds_of(message: Option<RogTerminalMessage>) -> (u8, u8, bool, Vec<RGB8>) {
    match message {
        Some(RogTerminalMessage::UpdateLeds { channel, offset, apply, led_data }) => {
            (channel, offset, apply, led_data.as_slice().to_vec())
        }
        _ => panic!("no update is waiting"),
    }
}

#[test]
fn new_engine_has_nothing_to_do() {
    let mut engine = AsusRogTerminalHidClass::new_with_defaults();
    assert!(engine.ready_report().is_none());
    assert!(engine.poll_next_message().is_none());
    let outcome = engine.poll(Err(TransportError::WouldBlock));
    assert_eq!(outcome.rejected, None);
    assert_eq!(outcome.ready, None);
}

#[test]
fn firmware_version_request_is_answered_with_the_version_string() {
    let mut engine = AsusRogTerminalHidClass::new_with_defaults();
    let outcome = engine.poll(Ok(version_request()));
    assert_eq!(outcome.rejected, None);
    let mut expected = [0u8; 64];
    expected[0] = 0xec;
    expected[1] = 0x02;
    expected[2..17].copy_from_slice(&[
        b'A', b'U', b'T', b'A', b'0', b'-', b'S', b'0', b'7', b'2', b'-', b'0', b'1', b'0', b'1',
    ]);
    assert_eq!(outcome.ready, Some(expected));
    assert_eq!(engine.push_ready_data(Ok(())), None);
    assert_eq!(engine.ready_report(), None);
}

#[test]
fn firmware_version_request_is_answered_with_the_given_version() {
    let mut engine = AsusRogTerminalHidClass::new(b"AUTA0-S072-0207");
    let sent = poll_and_drain(&mut engine, Ok(version_request()));
    assert_eq!(sent, vec![version_report(b"AUTA0-S072-0207")]);
}

#[test]
fn config_table_request_is_answered_with_the_table() {
    let mut engine = AsusRogTerminalHidClass::new_with_defaults();
    let sent = poll_and_drain(&mut engine, Ok(table_request()));
    assert_eq!(sent, vec![table_report()]);
}

#[test]
fn direct_update_reaches_the_mailbox() {
    let mut engine = AsusRogTerminalHidClass::new_with_defaults();
    let report = output_report(&[0xec, 0x40, 0x81, 0x00, 0x02, 0xff, 0x00, 0x00, 0x00, 0xff, 0x00]);
    let outcome = engine.poll(Ok(report));
    assert_eq!(outcome.rejected, None);
    assert_eq!(outcome.ready, None);
    let (channel, offset, apply, colors) = leds_of(engine.poll_next_message());
    assert_eq!(channel, 1);
    assert_eq!(offset, 0);
    assert!(apply);
    assert_eq!(colors, vec![RGB8 { r: 255, g: 0, b: 0 }, RGB8 { r: 0, g: 255, b: 0 }]);
}

#[test]
fn fetched_command_is_gone() {
    let mut engine = AsusRogTerminalHidClass::new_with_defaults();
    assert_eq!(engine.handle_report(&output_report(&[0xec, 0x3b, 2, 0, 1])), Ok(()));
    assert_eq!(effect_of(engine.poll_next_message()), (2, AuraEffect::Static));
    assert!(engine.poll_next_message().is_none());
}

#[test]
fn latest_command_replaces_the_one_that_waits() {
    let mut engine = AsusRogTerminalHidClass::new_with_defaults();
    engine.poll(Ok(output_report(&[0xec, 0x3b, 1, 0, 2])));
    engine.poll(Ok(output_report(&[0xec, 0x3b, 4, 0, 9])));
    assert_eq!(effect_of(engine.poll_next_message()), (4, AuraEffect::Chase));
    assert!(engine.poll_next_message().is_none());
}

#[test]
fn direct_update_replaces_a_waiting_effect() {
    let mut engine = AsusRogTerminalHidClass::new_with_defaults();
    engine.poll(Ok(output_report(&[0xec, 0x3b, 1, 0, 2])));
    engine.poll(Ok(output_report(&[0xec, 0x40, 0x02, 5, 1, 7, 8, 9])));
    let (channel, offset, apply, colors) = leds_of(engine.poll_next_message());
    assert_eq!((channel, offset, apply), (2, 5, false));
    assert_eq!(colors, vec![RGB8 { r: 7, g: 8, b: 9 }]);
    assert!(engine.poll_next_message().is_none());
}

#[test]
fn effect_replaces_a_waiting_direct_update() {
    let mut engine = AsusRogTerminalHidClass::new_with_defaults();
    engine.poll(Ok(output_report(&[0xec, 0x40, 0x02, 5, 1, 7, 8, 9])));
    engine.poll(Ok(output_report(&[0xec, 0x3b, 3, 0, 14])));
    assert_eq!(effect_of(engine.poll_next_message()), (3, AuraEffect::Music));
}

#[test]
fn answers_are_submitted_in_arrival_order() {
    let mut engine = AsusRogTerminalHidClass::new_with_defaults();
    poll_blocked(&mut engine, Ok(version_request()));
    poll_blocked(&mut engine, Ok(table_request()));
    let sent = poll_and_drain(&mut engine, Err(TransportError::WouldBlock));
    assert_eq!(sent, vec![version_report(b"AUTA0-S072-0101"), table_report()]);
}

#[test]
fn answers_keep_their_order_the_other_way_round() {
    let mut engine = AsusRogTerminalHidClass::new_with_defaults();
    assert_eq!(engine.handle_report(&table_request()), Ok(()));
    assert_eq!(engine.handle_report(&version_request()), Ok(()));
    let sent = poll_and_drain(&mut engine, Err(TransportError::WouldBlock));
    assert_eq!(sent, vec![table_report(), version_report(b"AUTA0-S072-0101")]);
}

#[test]
fn failed_submission_is_tried_again_on_the_next_poll() {
    let mut engine = AsusRogTerminalHidClass::new_with_defaults();
    let first = engine.poll(Ok(version_request())).ready;
    assert_eq!(first, Some(version_report(b"AUTA0-S072-0101")));
    assert_eq!(engine.push_ready_data(Err(TransportError::WouldBlock)), None);
    let again = engine.poll(Err(TransportError::WouldBlock)).ready;
    assert_eq!(again, first);
    assert_eq!(engine.push_ready_data(Err(TransportError::Other)), None);
    let sent = poll_and_drain(&mut engine, Err(TransportError::WouldBlock));
    assert_eq!(sent, vec![version_report(b"AUTA0-S072-0101")]);
    assert_eq!(engine.ready_report(), None);
}

#[test]
fn draining_stops_at_the_first_failure() {
    let mut engine = AsusRogTerminalHidClass::new_with_defaults();
    poll_blocked(&mut engine, Ok(version_request()));
    let first = engine.poll(Ok(table_request())).ready;
    assert_eq!(first, Some(version_report(b"AUTA0-S072-0101")));
    let second = engine.push_ready_data(Ok(()));
    assert_eq!(second, Some(table_report()));
    assert_eq!(engine.push_ready_data(Err(TransportError::WouldBlock)), None);
    assert_eq!(engine.ready_report(), Some(table_report()));
}

#[test]
fn ready_report_does_not_take_the_answer_out() {
    let mut engine = AsusRogTerminalHidClass::new_with_defaults();
    assert_eq!(engine.handle_report(&table_request()), Ok(()));
    assert_eq!(engine.ready_report(), Some(table_report()));
    assert_eq!(engine.ready_report(), Some(table_report()));
}

#[test]
fn fifth_pending_answer_pushes_out_the_oldest() {
    let mut engine = AsusRogTerminalHidClass::new_with_defaults();
    poll_blocked(&mut engine, Ok(version_request()));
    for _ in 0..4 {
        poll_blocked(&mut engine, Ok(table_request()));
    }
    let sent = poll_and_drain(&mut engine, Err(TransportError::WouldBlock));
    assert_eq!(sent, vec![table_report(); 4]);
}

#[test]
fn no_more_than_four_answers_wait() {
    let mut engine = AsusRogTerminalHidClass::new_with_defaults();
    for _ in 0..9 {
        poll_blocked(&mut engine, Ok(version_request()));
    }
    let sent = poll_and_drain(&mut engine, Err(TransportError::WouldBlock));
    assert_eq!(sent.len(), 4);
}

#[test]
fn report_with_foreign_id_leaves_no_trace() {
    let mut engine = AsusRogTerminalHidClass::new_with_defaults();
    let outcome = engine.poll(Ok(output_report(&[0x01, 0x82])));
    assert_eq!(outcome.rejected, Some(InvalidReportError::InvalidReportId));
    assert_eq!(outcome.ready, None);
    let outcome = engine.poll(Ok(output_report(&[0x01, 0x40, 0x81, 0, 2, 1, 2, 3, 4, 5, 6])));
    assert_eq!(outcome.rejected, Some(InvalidReportError::InvalidReportId));
    assert!(engine.poll_next_message().is_none());
    assert_eq!(engine.ready_report(), None);
}

#[test]
fn rejected_report_keeps_what_was_waiting() {
    let mut engine = AsusRogTerminalHidClass::new_with_defaults();
    poll_blocked(&mut engine, Ok(version_request()));
    engine.poll(Ok(output_report(&[0xec, 0x3b, 1, 0, 5])));
    assert_eq!(
        engine.handle_report(&output_report(&[0x00, 0x3b, 2, 0, 1])),
        Err(InvalidReportError::InvalidReportId)
    );
    assert_eq!(
        engine.handle_report(&output_report(&[0xec, 0x41, 2, 0, 1])),
        Err(InvalidReportError::InvalidReportType)
    );
    assert_eq!(
        engine.handle_report(&output_report(&[0xec, 0x3b, 2, 0, 0x20])),
        Err(InvalidReportError::InvalidEffect)
    );
    assert_eq!(engine.ready_report(), Some(version_report(b"AUTA0-S072-0101")));
    assert_eq!(effect_of(engine.poll_next_message()), (1, AuraEffect::Rainbow));
}

#[test]
fn poll_tells_why_a_report_was_dropped() {
    let mut engine = AsusRogTerminalHidClass::new_with_defaults();
    assert_eq!(
        engine.poll(Ok(output_report(&[0xec, 0x00]))).rejected,
        Some(InvalidReportError::InvalidReportType)
    );
    assert_eq!(
        engine.poll(Ok(output_report(&[0xec, 0x3b, 0, 0, 0x0f]))).rejected,
        Some(InvalidReportError::InvalidEffect)
    );
    assert_eq!(engine.poll(Ok(version_request())).rejected, None);
    assert_eq!(engine.poll(Err(TransportError::Other)).rejected, None);
}

#[test]
fn transport_failure_on_pull_changes_nothing() {
    let mut engine = AsusRogTerminalHidClass::new_with_defaults();
    poll_blocked(&mut engine, Ok(table_request()));
    engine.poll(Ok(output_report(&[0xec, 0x3b, 1, 0, 3])));
    for failure in [TransportError::WouldBlock, TransportError::Other] {
        let outcome = engine.poll(Err(failure));
        assert_eq!(outcome.rejected, None);
        assert_eq!(outcome.ready, Some(table_report()));
    }
    assert_eq!(effect_of(engine.poll_next_message()), (1, AuraEffect::Flashing));
}

#[test]
fn commands_and_answers_do_not_disturb_each_other() {
    let mut engine = AsusRogTerminalHidClass::new_with_defaults();
    poll_blocked(&mut engine, Ok(version_request()));
    poll_blocked(&mut engine, Ok(output_report(&[0xec, 0x3b, 7, 0, 0])));
    poll_blocked(&mut engine, Ok(table_request()));
    assert_eq!(effect_of(engine.poll_next_message()), (7, AuraEffect::Off));
    let sent = poll_and_drain(&mut engine, Err(TransportError::WouldBlock));
    assert_eq!(sent, vec![version_report(b"AUTA0-S072-0101"), table_report()]);
}

#[test]
fn success_with_nothing_pending_is_harmless() {
    let mut engine = AsusRogTerminalHidClass::new_with_defaults();
    assert_eq!(engine.push_ready_data(Ok(())), None);
    assert_eq!(engine.handle_report(&version_request()), Ok(()));
    assert_eq!(engine.ready_report(), Some(version_report(b"AUTA0-S072-0101")));
}

#[test]
fn oversized_direct_update_reaches_the_mailbox_cut_to_twenty() {
    let mut report = [0u8; 65];
    report[0] = 0xec;
    report[1] = 0x40;
    report[2] = 0x00;
    report[3] = 3;
    report[4] = 0xff;
    for i in 5..65 {
        report[i] = i as u8;
    }
    let mut engine = AsusRogTerminalHidClass::new_with_defaults();
    assert_eq!(engine.poll(Ok(report)).rejected, None);
    let (channel, offset, apply, colors) = leds_of(engine.poll_next_message());
    assert_eq!((channel, offset, apply), (0, 3, false));
    assert_eq!(colors.len(), 20);
    assert_eq!(colors[0], RGB8 { r: 5, g: 6, b: 7 });
    assert_eq!(colors[19], RGB8 { r: 62, g: 63, b: 64 });
}
