use xinput_device::ControllerData;
use xinput_device::EngineEvent;
use xinput_device::IdleDeadline;
use xinput_device::InMessage;
use xinput_device::OutData;
use xinput_device::PairingState;
use xinput_device::SerialNumberHandler;
use xinput_device::State;
use xinput_device::XInput;
use xinput_device::XboxGamepad;

fn pad12(prefix: &[u8]) -> Vec<u8> {
    let mut v = prefix.to_vec();
    while v.len() < 12 {
        v.push(0);
    }
    v
}

#[test]
fn encode_has_exactly_12_bytes() {
    let frame = XboxGamepad::default().encode();
    assert_eq!(frame.0.len(), 12);
}

#[test]
fn encode_exact_bytes() {
    let g = XboxGamepad {
        dpad_up: true,
        dpad_right: true,
        btn_start: true,
        btn_left_shoulder: true,
        btn_guide: true,
        btn_a: true,
        btn_y: true,
        trigger_left: -128,
        trigger_right: 127,
        thumb_left_x: 0x1234,
        thumb_left_y: -2,
        thumb_right_x: -32768,
        thumb_right_y: 255,
        ..XboxGamepad::default()
    };
    let frame = g.encode();
    assert_eq!(
        frame.0,
        [0x19, 0x95, 0x80, 0x7F, 0x34, 0x12, 0xFE, 0xFF, 0x00, 0x80, 0xFF, 0x00]
    );
}

#[test]
fn encode_default_snapshot() {
    let g = XboxGamepad::default();
    assert_eq!(g.trigger_left, 127);
    assert_eq!(g.trigger_right, 127);
    let frame = g.encode();
    assert_eq!(frame.0, [0x00, 0x00, 0x7F, 0x7F, 0, 0, 0, 0, 0, 0, 0, 0]);
}

#[test]
fn encode_each_button_has_its_own_bit() {
    let base = XboxGamepad::default().encode();
    let buttons: [(fn(&mut XboxGamepad), usize, u8); 15] = [
        (|g| g.dpad_up = true, 0, 0x01),
        (|g| g.dpad_down = true, 0, 0x02),
        (|g| g.dpad_left = true, 0, 0x04),
        (|g| g.dpad_right = true, 0, 0x08),
        (|g| g.btn_start = true, 0, 0x10),
        (|g| g.btn_back = true, 0, 0x20),
        (|g| g.btn_left_thumb = true, 0, 0x40),
        (|g| g.btn_right_thumb = true, 0, 0x80),
        (|g| g.btn_left_shoulder = true, 1, 0x01),
        (|g| g.btn_right_shoulder = true, 1, 0x02),
        (|g| g.btn_guide = true, 1, 0x04),
        (|g| g.btn_a = true, 1, 0x10),
        (|g| g.btn_b = true, 1, 0x20),
        (|g| g.btn_x = true, 1, 0x40),
        (|g| g.btn_y = true, 1, 0x80),
    ];
    for (set, byte, mask) in buttons {
        let mut g = XboxGamepad::default();
        set(&mut g);
        let frame = g.encode();
        let mut expected = base.0;
        expected[byte] |= mask;
        assert_eq!(frame.0, expected);
    }
}

#[test]
fn classify_connection_status_query() {
    let raw = pad12(&[0x08, 0x00, 0x0F, 0xC0]);
    assert!(matches!(OutData::from_raw(&raw), OutData::ConnectionStatus));
}

#[test]
fn classify_ack() {
    let raw = pad12(&[0x00, 0x00, 0x00, 0x40]);
    assert!(matches!(OutData::from_raw(&raw), OutData::Ack));
}

#[test]
fn classify_led_with_marker() {
    let raw = pad12(&[0x00, 0x00, 0x08, 0x47]);
    assert!(matches!(OutData::from_raw(&raw), OutData::Led(0x07)));
}

#[test]
fn classify_led_without_marker_is_unknown() {
    let raw = pad12(&[0x00, 0x00, 0x08, 0x0A]);
    match OutData::from_raw(&raw) {
        OutData::Unknown(bytes) => assert_eq!(bytes, raw),
        other => panic!("expected Unknown, got {:?}", other),
    }
}

#[test]
fn classify_rumble() {
    let raw = pad12(&[0x00, 0x01, 0x0F, 0xC0, 0x00, 0x7F, 0x10]);
    assert!(matches!(OutData::from_raw(&raw), OutData::Rumble(0x7F, 0x10)));
}

#[test]
fn classify_wrong_length_is_unknown() {
    let raw = [0x08, 0x00, 0x0F, 0xC0, 0x00, 0x00, 0x00];
    match OutData::from_raw(&raw) {
        OutData::Unknown(bytes) => assert_eq!(bytes, raw.to_vec()),
        other => panic!("expected Unknown, got {:?}", other),
    }
    let raw13 = pad12(&[0x08, 0x00, 0x0F, 0xC0]);
    let mut raw13 = raw13;
    raw13.push(0);
    assert!(matches!(OutData::from_raw(&raw13), OutData::Unknown(_)));
}

#[test]
fn classify_no_pattern_is_unknown() {
    let raw = pad12(&[0x07, 0x06, 0x05, 0x04]);
    assert!(matches!(OutData::from_raw(&raw), OutData::Unknown(_)));
}

#[test]
fn channel_publish_twice_delivers_only_second() {
    let mut chan = State::new();
    let first = XboxGamepad::default().encode();
    let second = XboxGamepad {
        btn_a: true,
        ..XboxGamepad::default()
    }
    .encode();
    chan.send_xinput(first);
    chan.send_xinput(second);
    assert_eq!(chan.take_xinput(), Some(second));
    assert_eq!(chan.take_xinput(), None);
}

#[test]
fn channel_rumble_last_writer_wins() {
    let mut chan = State::new();
    assert_eq!(chan.rumble(), (0, 0));
    chan.set_rumble(0x11, 0x22);
    assert_eq!(chan.rumble(), (0x11, 0x22));
    let _ = chan.rumble();
    chan.set_rumble(0xAB, 0xCD);
    assert_eq!(chan.rumble(), (0xAB, 0xCD));
}

#[test]
fn handshake_trace() {
    let mut chan = State::new();
    let mut eng = XInput::new();
    assert_eq!(eng.pairing_state, PairingState::Disconnected);

    // A published frame announces the controller, then sends its data.
    let frame = XboxGamepad::default().encode();
    let out = eng.handle_event(&mut chan, 0, EngineEvent::FramePublished(frame));
    assert_eq!(eng.pairing_state, PairingState::AwaitingAck1);
    assert_eq!(out.messages.len(), 2);
    assert_eq!(out.messages[0].to_bytes(), vec![0x08, 0x80]);

    // First acknowledgment: the controller-info packet goes out.
    let ack = pad12(&[0x00, 0x00, 0x00, 0x40]);
    let out = eng.handle_event(&mut chan, 1, EngineEvent::OutReceived(ack.clone()));
    assert_eq!(eng.pairing_state, PairingState::AwaitingAck2);
    assert_eq!(out.messages.len(), 1);
    let info = out.messages[0].to_bytes();
    assert_eq!(info.len(), 29);
    assert_eq!(
        &info[..10],
        &[0x00, 0x0F, 0x00, 0xF0, 0xF0, 0xCC, 0xFF, 0xFF, 0xFF, 0xFF]
    );

    // Second acknowledgment: paired, nothing more to send.
    let out = eng.handle_event(&mut chan, 2, EngineEvent::OutReceived(ack));
    assert_eq!(eng.pairing_state, PairingState::Paired);
    assert!(out.messages.is_empty());
}

#[test]
fn status_query_while_disconnected() {
    let mut chan = State::new();
    let mut eng = XInput::new();
    let query = pad12(&[0x08, 0x00, 0x0F, 0xC0]);
    let out = eng.handle_event(&mut chan, 0, EngineEvent::OutReceived(query));
    assert_eq!(eng.pairing_state, PairingState::Disconnected);
    assert_eq!(out.messages.len(), 1);
    assert_eq!(out.messages[0].to_bytes(), vec![0x08, 0x08]);
}

#[test]
fn status_query_while_paired_reannounces() {
    let mut chan = State::new();
    let mut eng = XInput::new();
    let frame = XboxGamepad::default().encode();
    eng.handle_event(&mut chan, 0, EngineEvent::FramePublished(frame));
    let ack = pad12(&[0x00, 0x00, 0x00, 0x40]);
    eng.handle_event(&mut chan, 1, EngineEvent::OutReceived(ack.clone()));
    eng.handle_event(&mut chan, 2, EngineEvent::OutReceived(ack));
    assert_eq!(eng.pairing_state, PairingState::Paired);

    let query = pad12(&[0x08, 0x00, 0x0F, 0xC0]);
    let out = eng.handle_event(&mut chan, 3, EngineEvent::OutReceived(query));
    assert_eq!(eng.pairing_state, PairingState::AwaitingAck1);
    assert_eq!(out.messages.len(), 1);
    assert_eq!(out.messages[0].to_bytes(), vec![0x08, 0x80]);
}

#[test]
fn unexpected_ack_is_ignored() {
    let mut chan = State::new();
    let mut eng = XInput::new();
    let ack = pad12(&[0x00, 0x00, 0x00, 0x40]);
    let out = eng.handle_event(&mut chan, 0, EngineEvent::OutReceived(ack));
    assert_eq!(eng.pairing_state, PairingState::Disconnected);
    assert!(out.messages.is_empty());
}

#[test]
fn gamepad_data_message_embeds_frame() {
    let mut chan = State::new();
    let mut eng = XInput::new();
    let g = XboxGamepad {
        btn_b: true,
        trigger_left: 3,
        thumb_right_y: 0x0102,
        ..XboxGamepad::default()
    };
    let frame = g.encode();
    // Skip the announce by handshaking first.
    eng.send_connection_status(true);
    let out = eng.handle_event(&mut chan, 5, EngineEvent::FramePublished(frame));
    assert_eq!(out.messages.len(), 1);
    let bytes = out.messages[0].to_bytes();
    assert_eq!(bytes.len(), 29);
    assert_eq!(&bytes[..6], &[0x00, 0x01, 0x00, 0xF0, 0x00, 0x13]);
    assert_eq!(&bytes[6..18], &frame.0);
    assert!(bytes[18..].iter().all(|&b| b == 0));
}

#[test]
fn idle_timing_one_keepalive_then_disarmed() {
    let mut chan = State::new();
    let mut eng = XInput::new();
    let frame = XboxGamepad::default().encode();
    eng.handle_event(&mut chan, 100, EngineEvent::FramePublished(frame));
    assert_eq!(eng.idle_deadline, IdleDeadline::At(111));

    // No new frame within 11 time units: exactly one keep-alive goes out and
    // the deadline is cleared.
    let out = eng.handle_event(&mut chan, 111, EngineEvent::IdleElapsed);
    assert_eq!(out.messages.len(), 1);
    let bytes = out.messages[0].to_bytes();
    assert_eq!(bytes.len(), 29);
    assert_eq!(bytes[3], 0xF0);
    assert!(bytes.iter().enumerate().all(|(i, &b)| i == 3 || b == 0));
    assert_eq!(eng.idle_deadline, IdleDeadline::Never);

    // Another OUT transfer does not re-arm the deadline.
    let out = eng.handle_event(&mut chan, 120, EngineEvent::OutReceived(vec![0u8; 3]));
    assert!(out.messages.is_empty());
    assert_eq!(eng.idle_deadline, IdleDeadline::Never);
}

#[test]
fn rumble_lands_in_channel() {
    let mut chan = State::new();
    let mut eng = XInput::new();
    let raw = pad12(&[0x00, 0x01, 0x0F, 0xC0, 0x00, 0x7F, 0x10]);
    assert!(matches!(OutData::from_raw(&raw), OutData::Rumble(0x7F, 0x10)));
    let out = eng.handle_event(&mut chan, 0, EngineEvent::OutReceived(raw));
    assert!(out.messages.is_empty());
    assert_eq!(chan.rumble(), (0x7F, 0x10));
}

#[test]
fn out_error_pauses_and_changes_nothing() {
    let mut chan = State::new();
    let mut eng = XInput::new();
    let out = eng.handle_event(&mut chan, 0, EngineEvent::OutError);
    assert!(out.pause);
    assert!(out.messages.is_empty());
    assert_eq!(eng.pairing_state, PairingState::Disconnected);
    assert_eq!(eng.idle_deadline, IdleDeadline::Never);
}

#[test]
fn led_changes_nothing() {
    let mut chan = State::new();
    let mut eng = XInput::new();
    eng.send_connection_status(true);
    let raw = pad12(&[0x00, 0x00, 0x08, 0x42]);
    let out = eng.handle_event(&mut chan, 0, EngineEvent::OutReceived(raw));
    assert!(out.messages.is_empty());
    assert_eq!(eng.pairing_state, PairingState::AwaitingAck1);
    assert_eq!(chan.rumble(), (0, 0));
}

#[test]
fn serial_handler_accepts_only_its_request() {
    let handler = SerialNumberHandler([0xFF, 0xFF, 0xFF, 0xFF, 0x0A, 0x89, 0xB7]);
    let r = handler.control_in(true, 1, 1, 0, 7);
    assert_eq!(r, Some(vec![0xFF, 0xFF, 0xFF, 0xFF, 0x0A, 0x89, 0xB7]));
    assert_eq!(handler.control_in(true, 1, 1, 0, 64), Some(handler.0.to_vec()));
    assert_eq!(handler.control_in(false, 1, 1, 0, 7), None);
    assert_eq!(handler.control_in(true, 2, 1, 0, 7), None);
    assert_eq!(handler.control_in(true, 1, 0, 0, 7), None);
    assert_eq!(handler.control_in(true, 1, 1, 1, 7), None);
    assert_eq!(handler.control_in(true, 1, 1, 0, 6), None);
}

#[test]
fn controller_data_from_raw_parts() {
    let frame = ControllerData([1, 2, 3, 4, 5, 6, 7, 8, 9, 10, 11, 12]);
    let msg = InMessage::GamepadData(frame);
    let bytes = msg.to_bytes();
    assert_eq!(&bytes[6..18], &[1, 2, 3, 4, 5, 6, 7, 8, 9, 10, 11, 12]);
}
