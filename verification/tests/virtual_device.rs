use macropad_bridge::error::BridgeError;
use macropad_bridge::key_event::key_code::KeyCode;
use macropad_bridge::key_event::{after_grab, KeyEvent, MyTime, EV_KEY};
use macropad_bridge::uinput::{
    after_step, copy_name, event_with_sync, setup_steps, DeviceSetup, SetupStep, BUS_USB, KEY_BITS, NAME_LENGTH,
    UI_DEV_CREATE, UI_DEV_DESTROY, UI_DEV_SETUP, UI_SET_EVBIT, UI_SET_KEYBIT,
};

#[test]
fn requests_of_the_virtual_device() {
    assert_eq!(UI_SET_EVBIT, 0x40045564);
    assert_eq!(UI_SET_KEYBIT, 0x40045565);
    assert_eq!(UI_DEV_SETUP, 0x405c5503);
    assert_eq!(UI_DEV_CREATE, 0x5501);
    assert_eq!(UI_DEV_DESTROY, 0x5502);
    assert_eq!(BUS_USB, 3);
    assert_eq!(NAME_LENGTH, 80);
    assert_eq!(SetupStep::SetEventBit(1).request(), UI_SET_EVBIT);
    assert_eq!(SetupStep::SetKeyBit(1).request(), UI_SET_KEYBIT);
    assert_eq!(SetupStep::Create.request(), UI_DEV_CREATE);
    assert_eq!(SetupStep::Setup(DeviceSetup::new("k", 1, 2, 3)).request(), UI_DEV_SETUP);
}

#[test]
fn setup_goes_in_four_stages() {
    let steps = setup_steps("Macropad", 0x4b41, 0x564b, 7);
    assert_eq!(steps.len(), 258);
    assert!(matches!(steps[0], SetupStep::SetEventBit(kind) if kind == EV_KEY));
    for key in 0..KEY_BITS {
        assert!(matches!(steps[usize::from(key) + 1], SetupStep::SetKeyBit(bit) if bit == key));
    }
    match steps[256] {
        SetupStep::Setup(setup) => {
            assert_eq!(setup.bustype, 3);
            assert_eq!(setup.vendor, 0x4b41);
            assert_eq!(setup.product, 0x564b);
            assert_eq!(setup.version, 7);
            assert_eq!(setup.ff_effects_max, 0);
            assert_eq!(&setup.name[..8], b"Macropad");
            assert!(setup.name[8..].iter().all(|byte| *byte == 0));
        }
        _ => panic!("the step before the last sets the device up"),
    }
    assert!(matches!(steps[257], SetupStep::Create));
}

#[test]
fn name_is_cut_to_the_room_and_at_a_zero() {
    assert_eq!(copy_name(b""), [0u8; 80]);
    let long = [b'x'; 200];
    let field = copy_name(&long);
    assert_eq!(field[..79], [b'x'; 79]);
    assert_eq!(field[79], 0);
    let exact = [b'y'; 79];
    assert_eq!(copy_name(&exact)[..79], exact);
    assert_eq!(copy_name(&exact)[79], 0);
    let cut = copy_name(b"ab\0cd");
    assert_eq!(cut[..5], [b'a', b'b', 0, 0, 0]);
    assert!(cut[5..].iter().all(|byte| *byte == 0));
    assert_eq!(copy_name(b"\0abc"), [0u8; 80]);
    let name = DeviceSetup::new("t\u{e9}", 0, 0, 0).name;
    assert_eq!(name[..4], [b't', 0xc3, 0xa9, 0]);
}

#[test]
fn event_is_followed_by_a_sync() {
    let then = MyTime { seconds: 1, microseconds: 2 };
    let now = MyTime { seconds: 3, microseconds: 4 };
    let event = KeyEvent::Press(KeyCode::A, false, then);
    let (first, second) = event_with_sync(event, now);
    assert_eq!(first, event.encode());
    assert_eq!(second, KeyEvent::Sync(0, now).encode());
    assert_eq!(KeyEvent::decode(&first), event);
    assert_eq!(KeyEvent::decode(&second), KeyEvent::Sync(0, now));
    assert_ne!(first, second);
}

#[test]
fn a_negative_status_is_a_failure() {
    assert_eq!(after_step(0), Ok(()));
    assert_eq!(after_step(7), Ok(()));
    assert_eq!(after_step(-1), Err(BridgeError::SetupFailed));
    assert_eq!(after_step(i32::MIN), Err(BridgeError::SetupFailed));
    assert_eq!(after_grab(0), Ok(()));
    assert_eq!(after_grab(i32::MAX), Ok(()));
    assert_eq!(after_grab(-1), Err(BridgeError::GrabFailed));
    assert_eq!(after_grab(i32::MIN), Err(BridgeError::GrabFailed));
}
