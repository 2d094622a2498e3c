use macropad_bridge::error::BridgeError;
use macropad_bridge::keyboard::{
    after_write, contains, HidInfo, KeyboardResponse, Layers, Operation, ReadOutcome, FRAME_LENGTH,
    REPORT_LENGTH, RESPONSE_TIMEOUT_MS,
};
use macropad_bridge::virtual_keyboard::tap_operations;

fn buffer(start: &[u8]) -> [u8; 32] {
    let mut bytes = [0u8; 32];
    bytes[..start.len()].copy_from_slice(start);
    bytes
}

#[test]
fn update_matrix_is_written_as_four_bytes_and_zeros() {
    let report = Operation::UpdateMatrix(true, 3, 5).report();
    assert_eq!(report.len(), 32);
    assert_eq!(report, buffer(&[0x45, 0x01, 0x03, 0x05]));
    assert_eq!(Operation::UpdateMatrix(false, 255, 254).report(), buffer(&[0x45, 0, 255, 254]));
}

#[test]
fn every_command_starts_with_its_kind() {
    assert_eq!(Operation::Bootloader.report(), buffer(&[0x42]));
    assert_eq!(Operation::GetLayer.report(), buffer(&[0x43]));
    assert_eq!(Operation::ChangeLayer(7).report(), buffer(&[0x44, 7]));
    assert_eq!(Operation::ChangeLayer(0).report(), buffer(&[0x44]));
    assert_eq!(REPORT_LENGTH, 32);
}

#[test]
fn frame_is_a_zero_and_the_command() {
    let frame = Operation::UpdateMatrix(true, 3, 5).frame();
    assert_eq!(frame.len(), FRAME_LENGTH);
    assert_eq!(frame.len(), 33);
    assert_eq!(frame[0], 0);
    assert_eq!(frame[1..], Operation::UpdateMatrix(true, 3, 5).report());
    assert_eq!(Operation::Bootloader.frame()[..3], [0, 0x42, 0]);
}

#[test]
fn responses_are_read_by_their_first_bytes() {
    assert_eq!(
        KeyboardResponse::parse_response(buffer(&[0x44, 7])),
        KeyboardResponse::CurrentLayer(7)
    );
    assert_eq!(
        KeyboardResponse::parse_response(buffer(&[0x43, 200, 9, 9])),
        KeyboardResponse::CurrentLayer(200)
    );
    assert_eq!(KeyboardResponse::parse_response(buffer(&[0x99])), KeyboardResponse::Nothing);
    assert_eq!(KeyboardResponse::parse_response(buffer(&[0x42, 7])), KeyboardResponse::Nothing);
    assert_eq!(KeyboardResponse::parse_response(buffer(&[0x45, 1, 2, 3])), KeyboardResponse::Nothing);
    assert_eq!(KeyboardResponse::parse_response([0u8; 32]), KeyboardResponse::Nothing);
    assert_eq!(KeyboardResponse::parse_response([0x43u8; 32]), KeyboardResponse::CurrentLayer(0x43));
}

#[test]
fn a_read_of_no_bytes_is_a_timeout() {
    assert_eq!(RESPONSE_TIMEOUT_MS, 10000);
    assert_eq!(
        KeyboardResponse::from_read(&ReadOutcome::Received(0), buffer(&[0x44, 7])),
        Err(BridgeError::Timeout)
    );
    assert_eq!(
        KeyboardResponse::from_read(&ReadOutcome::Received(32), buffer(&[0x44, 7])),
        Ok(KeyboardResponse::CurrentLayer(7))
    );
    assert_eq!(
        KeyboardResponse::from_read(&ReadOutcome::Received(1), buffer(&[0x99])),
        Ok(KeyboardResponse::Nothing)
    );
}

#[test]
fn a_failed_read_is_an_error_unless_the_device_went_away() {
    let gone = ReadOutcome::Failed(String::from("hidapi error: device disconnected"));
    assert_eq!(KeyboardResponse::from_read(&gone, [0u8; 32]), Ok(KeyboardResponse::Nothing));
    assert_eq!(
        KeyboardResponse::from_read(&gone, buffer(&[0x43, 4])),
        Ok(KeyboardResponse::CurrentLayer(4))
    );
    let broken = ReadOutcome::Failed(String::from("hidapi error: device disconnecte"));
    assert_eq!(KeyboardResponse::from_read(&broken, [0u8; 32]), Err(BridgeError::IoError));
    let other = ReadOutcome::Failed(String::from("permission denied"));
    assert_eq!(KeyboardResponse::from_read(&other, buffer(&[0x43, 4])), Err(BridgeError::IoError));
    let empty = ReadOutcome::Failed(String::new());
    assert_eq!(KeyboardResponse::from_read(&empty, [0u8; 32]), Err(BridgeError::IoError));
}

#[test]
fn contains_finds_a_part_anywhere() {
    assert!(contains("device disconnected", "device disconnected"));
    assert!(contains("xdevice disconnectedx", "device disconnected"));
    assert!(contains("abc", ""));
    assert!(contains("", ""));
    assert!(contains("abc", "c"));
    assert!(contains("abc", "a"));
    assert!(contains("aab", "ab"));
    assert!(contains("\u{e9}t\u{e9}", "t\u{e9}"));
    assert!(!contains("abc", "d"));
    assert!(!contains("abc", "abcd"));
    assert!(!contains("", "a"));
    assert!(!contains("abab", "bb"));
    assert!(!contains("Device Disconnected", "device disconnected"));
}

#[test]
fn layers_go_by_their_numbers() {
    assert_eq!(Layers::from(0), Layers::Qwerty);
    assert_eq!(Layers::from(1), Layers::Workman);
    assert_eq!(Layers::from(2), Layers::Sys);
    assert_eq!(Layers::from(3), Layers::Numrow);
    assert_eq!(Layers::from(4), Layers::Unknown);
    assert_eq!(Layers::from(5), Layers::Game);
    assert_eq!(Layers::from(6), Layers::Code);
    assert_eq!(Layers::from(7), Layers::Numpad);
    assert_eq!(Layers::from(14), Layers::LayerSel);
    assert_eq!(Layers::from(15), Layers::Trans);
    for other in (8..14u8).chain(16..=255u8) {
        assert_eq!(Layers::from(other), Layers::Unknown);
    }
}

#[test]
fn layers_are_shown_by_their_names() {
    assert_eq!(Layers::Qwerty.to_string(), "Qwerty");
    assert_eq!(Layers::Workman.to_string(), "Workman");
    assert_eq!(Layers::Sys.to_string(), "Sys");
    assert_eq!(Layers::Numrow.to_string(), "Numrow");
    assert_eq!(Layers::Game.to_string(), "Game");
    assert_eq!(Layers::Code.to_string(), "Code");
    assert_eq!(Layers::Numpad.to_string(), "Numpad");
    assert_eq!(Layers::LayerSel.to_string(), "LayerSel");
    assert_eq!(Layers::Trans.to_string(), "Trans");
    assert_eq!(Layers::Unknown.to_string(), "Unknown");
    assert_eq!(Layers::from(7).to_string(), format!("{:?}", Layers::Numpad));
}

#[test]
fn the_controller_is_the_first_device_with_all_four_numbers() {
    let wanted = HidInfo { vendor_id: 0x4b41, product_id: 0x504d, usage_page: 0xff60, usage: 0x61 };
    let devices = vec![
        HidInfo { vendor_id: 0x4b41, product_id: 0x504d, usage_page: 1, usage: 6 },
        HidInfo { vendor_id: 0x4b41, product_id: 0x504d, usage_page: 0xff60, usage: 0x62 },
        HidInfo { vendor_id: 0x4b41, product_id: 0x504e, usage_page: 0xff60, usage: 0x61 },
        HidInfo { vendor_id: 0x4b42, product_id: 0x504d, usage_page: 0xff60, usage: 0x61 },
        wanted,
        wanted,
    ];
    assert_eq!(wanted.find_in(&devices), Some(4));
    assert_eq!(wanted.find_in(&devices[..4].to_vec()), None);
    assert_eq!(wanted.find_in(&Vec::new()), None);
    assert_eq!(wanted.find_in(&vec![wanted]), Some(0));
}

#[test]
fn a_controller_that_is_not_there_is_an_error() {
    let wanted = HidInfo { vendor_id: 0x4b41, product_id: 0x504d, usage_page: 0xff60, usage: 0x61 };
    let other = HidInfo { vendor_id: 0x4b41, product_id: 0x504d, usage_page: 1, usage: 6 };
    assert_eq!(wanted.locate(&vec![other, wanted, wanted]), Ok(1));
    assert_eq!(wanted.locate(&vec![wanted]), Ok(0));
    assert_eq!(wanted.locate(&vec![other, other]), Err(BridgeError::DeviceOpenFailed));
    assert_eq!(wanted.locate(&Vec::new()), Err(BridgeError::DeviceOpenFailed));
}

#[test]
fn a_write_that_failed_or_fell_short_is_an_error() {
    assert_eq!(after_write(Some(33), 33), Ok(()));
    assert_eq!(after_write(Some(FRAME_LENGTH), Operation::GetLayer.frame().len()), Ok(()));
    assert_eq!(after_write(Some(32), 33), Err(BridgeError::IoError));
    assert_eq!(after_write(Some(0), 33), Err(BridgeError::IoError));
    assert_eq!(after_write(Some(34), 33), Err(BridgeError::IoError));
    assert_eq!(after_write(None, 33), Err(BridgeError::IoError));
    assert_eq!(after_write(None, 0), Err(BridgeError::IoError));
    assert_eq!(after_write(Some(0), 0), Ok(()));
}

#[test]
fn a_tap_is_a_press_and_a_release() {
    assert_eq!(
        tap_operations(2, 9),
        [Operation::UpdateMatrix(true, 2, 9), Operation::UpdateMatrix(false, 2, 9)]
    );
    assert_eq!(
        tap_operations(0, 0),
        [Operation::UpdateMatrix(true, 0, 0), Operation::UpdateMatrix(false, 0, 0)]
    );
}

#[test]
fn errors_say_what_went_wrong() {
    let all = [
        BridgeError::DeviceOpenFailed,
        BridgeError::GrabFailed,
        BridgeError::SetupFailed,
        BridgeError::IoError,
        BridgeError::Timeout,
    ];
    for (i, a) in all.iter().enumerate() {
        assert!(!a.message().is_empty());
        for b in all.iter().skip(i + 1) {
            assert_ne!(a.message(), b.message());
        }
    }
    assert_eq!(BridgeError::Timeout.message(), "no response within the time allowed");
}
