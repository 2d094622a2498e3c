use macropad_bridge::error::BridgeError;
use macropad_bridge::key_event::key_code::KeyCode;
use macropad_bridge::key_event::{
    IOctlOp, InputEvent, KeyEvent, MyTime, EVIOCGRAB, EV_KEY, EV_MSC, EV_SYN, KEY_HOLD, KEY_PRESS,
    KEY_RELEASE, MSC_SCAN, RECORD_LENGTH, SYN_REPORT,
};

fn at(seconds: i64, microseconds: i64) -> MyTime {
    MyTime { seconds, microseconds }
}

fn record(seconds: u64, microseconds: u64, type_: u16, code: u16, value: u32) -> [u8; 24] {
    let mut bytes = [0u8; 24];
    bytes[0..8].copy_from_slice(&seconds.to_le_bytes());
    bytes[8..16].copy_from_slice(&microseconds.to_le_bytes());
    bytes[16..18].copy_from_slice(&type_.to_le_bytes());
    bytes[18..20].copy_from_slice(&code.to_le_bytes());
    bytes[20..24].copy_from_slice(&value.to_le_bytes());
    bytes
}

#[test]
fn constants_of_the_input_subsystem() {
    assert_eq!(EV_SYN, 0x00);
    assert_eq!(EV_KEY, 0x01);
    assert_eq!(EV_MSC, 0x04);
    assert_eq!(SYN_REPORT, 0);
    assert_eq!(MSC_SCAN, 0x04);
    assert_eq!(KEY_RELEASE, 0);
    assert_eq!(KEY_PRESS, 1);
    assert_eq!(KEY_HOLD, 2);
    assert_eq!(RECORD_LENGTH, 24);
    assert_eq!(EVIOCGRAB, 0x40044590);
    assert_eq!(IOctlOp::Grab.value(), 1);
    assert_eq!(IOctlOp::Ungrab.value(), 0);
}

#[test]
fn press_is_written_field_by_field() {
    let event = KeyEvent::Press(KeyCode::A, false, at(0x0102030405060708, 0x000000000009fbf1));
    let expected: [u8; 24] = [
        0x08, 0x07, 0x06, 0x05, 0x04, 0x03, 0x02, 0x01, 0xf1, 0xfb, 0x09, 0x00, 0x00, 0x00, 0x00,
        0x00, 0x01, 0x00, 0x1e, 0x00, 0x01, 0x00, 0x00, 0x00,
    ];
    assert_eq!(event.encode(), expected);
    assert_eq!(KeyEvent::decode(&expected), event);
}

#[test]
fn records_are_read_by_type_code_and_value() {
    let t = at(5, 6);
    assert_eq!(KeyEvent::decode(&record(5, 6, 0, 0, 0)), KeyEvent::Sync(0, t));
    assert_eq!(KeyEvent::decode(&record(5, 6, 0, 0, 9)), KeyEvent::Sync(9, t));
    assert_eq!(KeyEvent::decode(&record(5, 6, 4, 4, 0x70004)), KeyEvent::Scancode(0x70004, t));
    assert_eq!(KeyEvent::decode(&record(5, 6, 1, 16, 0)), KeyEvent::Release(KeyCode::Q, t));
    assert_eq!(KeyEvent::decode(&record(5, 6, 1, 16, 1)), KeyEvent::Press(KeyCode::Q, false, t));
    assert_eq!(KeyEvent::decode(&record(5, 6, 1, 16, 2)), KeyEvent::Press(KeyCode::Q, true, t));
}

#[test]
fn other_records_are_kept_as_they_are() {
    let t = at(5, 6);
    assert_eq!(KeyEvent::decode(&record(5, 6, 1, 16, 3)), KeyEvent::Unsupported(1, 16, 3, t));
    assert_eq!(
        KeyEvent::decode(&record(5, 6, 1, 16, 0xffff_ffff)),
        KeyEvent::Unsupported(1, 16, -1, t)
    );
    assert_eq!(KeyEvent::decode(&record(5, 6, 1, 84, 1)), KeyEvent::Unsupported(1, 84, 1, t));
    assert_eq!(KeyEvent::decode(&record(5, 6, 1, 0x1d0, 1)), KeyEvent::Unsupported(1, 0x1d0, 1, t));
    assert_eq!(KeyEvent::decode(&record(5, 6, 0, 1, 0)), KeyEvent::Unsupported(0, 1, 0, t));
    assert_eq!(KeyEvent::decode(&record(5, 6, 4, 3, 7)), KeyEvent::Unsupported(4, 3, 7, t));
    assert_eq!(KeyEvent::decode(&record(5, 6, 2, 0, 7)), KeyEvent::Unsupported(2, 0, 7, t));
    assert_eq!(
        KeyEvent::decode(&record(5, 6, 0xffff, 0xffff, 0x8000_0000)),
        KeyEvent::Unsupported(0xffff, 0xffff, i32::MIN, t)
    );
}

#[test]
fn negative_numbers_are_in_twos_complement() {
    let event = KeyEvent::Sync(-2, at(-1, i64::MIN));
    let bytes = event.encode();
    assert_eq!(&bytes[0..8], &[0xff; 8]);
    assert_eq!(&bytes[8..16], &[0, 0, 0, 0, 0, 0, 0, 0x80]);
    assert_eq!(&bytes[20..24], &[0xfe, 0xff, 0xff, 0xff]);
    assert_eq!(KeyEvent::decode(&bytes), event);
    let extreme = KeyEvent::Scancode(i32::MAX, at(i64::MAX, i64::MAX));
    assert_eq!(KeyEvent::decode(&extreme.encode()), extreme);
}

#[test]
fn decoding_what_was_encoded_gives_the_event_back() {
    let times = [at(0, 0), at(1700000000, 999999), at(-5, -7), at(i64::MAX, i64::MIN)];
    for time in times {
        for code in 0..=255u16 {
            if let Some(key) = KeyCode::from_repr(code) {
                for event in [
                    KeyEvent::Press(key, false, time),
                    KeyEvent::Press(key, true, time),
                    KeyEvent::Release(key, time),
                ] {
                    assert_eq!(KeyEvent::decode(&event.encode()), event);
                }
            }
        }
        for value in [0, 1, 2, -1, 458756, i32::MIN, i32::MAX] {
            for event in [
                KeyEvent::Sync(value, time),
                KeyEvent::Scancode(value, time),
                KeyEvent::Unsupported(EV_KEY, 30, value + 3, time),
                KeyEvent::Unsupported(EV_KEY, 84, value, time),
                KeyEvent::Unsupported(EV_SYN, 3, value, time),
                KeyEvent::Unsupported(EV_MSC, 0, value, time),
                KeyEvent::Unsupported(0x11, 0, value, time),
            ] {
                if event == KeyEvent::Unsupported(EV_KEY, 30, 0, time)
                    || event == KeyEvent::Unsupported(EV_KEY, 30, 1, time)
                    || event == KeyEvent::Unsupported(EV_KEY, 30, 2, time)
                {
                    continue;
                }
                assert_eq!(KeyEvent::decode(&event.encode()), event);
            }
        }
    }
}

#[test]
fn unsupported_event_with_the_fields_of_a_known_one_reads_as_the_known_one() {
    let t = at(1, 2);
    assert_eq!(
        KeyEvent::decode(&KeyEvent::Unsupported(EV_SYN, SYN_REPORT, 5, t).encode()),
        KeyEvent::Sync(5, t)
    );
    assert_eq!(
        KeyEvent::decode(&KeyEvent::Unsupported(EV_KEY, 30, 1, t).encode()),
        KeyEvent::Press(KeyCode::A, false, t)
    );
}

#[test]
fn encoding_what_was_decoded_gives_the_bytes_back() {
    let mut bytes = [0u8; 24];
    let mut seed: u32 = 12345;
    for round in 0..2000u32 {
        for byte in bytes.iter_mut() {
            seed = seed.wrapping_mul(1103515245).wrapping_add(12345);
            *byte = (seed >> 16) as u8;
        }
        if round % 3 == 0 {
            bytes[16] = 1;
            bytes[17] = 0;
            bytes[19] = 0;
            bytes[20] %= 4;
            bytes[21] = 0;
            bytes[22] = 0;
            bytes[23] = 0;
        }
        assert_eq!(KeyEvent::decode(&bytes).encode(), bytes);
        assert_eq!(InputEvent::from_bytes(&bytes).to_bytes(), bytes);
    }
}

#[test]
fn records_and_events_convert_both_ways() {
    let t = at(3, 4);
    let raw = InputEvent { time: t, type_: EV_KEY, code: 57, value: KEY_HOLD };
    assert_eq!(KeyEvent::from(raw), KeyEvent::Press(KeyCode::SPACE, true, t));
    assert_eq!(InputEvent::from(KeyEvent::Press(KeyCode::SPACE, true, t)), raw);
    assert_eq!(
        InputEvent::from(KeyEvent::Release(KeyCode::SPACE, t)),
        InputEvent { time: t, type_: EV_KEY, code: 57, value: KEY_RELEASE }
    );
    assert_eq!(
        InputEvent::from(KeyEvent::Press(KeyCode::SPACE, false, t)),
        InputEvent { time: t, type_: EV_KEY, code: 57, value: KEY_PRESS }
    );
    assert_eq!(
        InputEvent::from(KeyEvent::Sync(0, t)),
        InputEvent { time: t, type_: EV_SYN, code: SYN_REPORT, value: 0 }
    );
    assert_eq!(
        InputEvent::from(KeyEvent::Scancode(77, t)),
        InputEvent { time: t, type_: EV_MSC, code: MSC_SCAN, value: 77 }
    );
    assert_eq!(
        InputEvent::from(KeyEvent::Unsupported(9, 8, 7, t)),
        InputEvent { time: t, type_: 9, code: 8, value: 7 }
    );
    let bytes = raw.to_bytes();
    assert_eq!(InputEvent::from_bytes(&bytes), raw);
    assert_eq!(bytes[16..], [1, 0, 57, 0, 2, 0, 0, 0]);
}

#[test]
fn a_read_of_another_length_is_an_error() {
    let bytes = record(5, 6, 1, 16, 1);
    assert_eq!(
        KeyEvent::from_read(&bytes, 24),
        Ok(KeyEvent::Press(KeyCode::Q, false, at(5, 6)))
    );
    assert_eq!(KeyEvent::from_read(&bytes, 0), Err(BridgeError::IoError));
    assert_eq!(KeyEvent::from_read(&bytes, 23), Err(BridgeError::IoError));
    assert_eq!(KeyEvent::from_read(&bytes, 25), Err(BridgeError::IoError));
}
