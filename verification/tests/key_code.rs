use macropad_bridge::key_event::key_code::{KeyCode, KeyCodeError, LAST_KEY_CODE};

#[test]
fn test_from_string() {
    assert_eq!(KeyCode::KEY_1, "1".parse::<KeyCode>().unwrap());
    assert_eq!(KeyCode::KEY_102ND, "102Nd".parse::<KeyCode>().unwrap());
    assert_eq!(KeyCode::A, "a".parse::<KeyCode>().unwrap());
    assert_eq!(KeyCode::DOCUMENTS, "DoCumEntS".parse::<KeyCode>().unwrap());
    assert_eq!(KeyCode::F12, "f12".parse::<KeyCode>().unwrap());
}

#[test]
fn test_as_ref() {
    assert_eq!(KeyCode::KEY_1.as_ref(), "1");
    assert_eq!(KeyCode::F12.as_ref(), "F12");
}

#[test]
fn text_of_every_key_leads_back_to_the_key() {
    let mut keys: usize = 0;
    for code in 0..=u16::MAX {
        if let Some(key) = KeyCode::from_repr(code) {
            keys += 1;
            assert_eq!(KeyCode::from_text(key.as_ref()), Ok(key));
            assert_eq!(key.as_ref().parse::<KeyCode>(), Ok(key));
            assert_eq!(KeyCode::from_text(&key.as_ref().to_ascii_lowercase()), Ok(key));
        }
    }
    assert_eq!(keys, 243);
}

#[test]
fn number_of_every_key_leads_back_to_the_key() {
    for code in 0..=u16::MAX {
        match KeyCode::from_repr(code) {
            Some(key) => {
                assert_eq!(key.to_u16(), code);
                assert_eq!(u16::from(key), code);
                assert_eq!(usize::from(key), usize::from(code));
                assert_eq!(u16::from(u8::from(key)), code);
                assert_eq!(KeyCode::from_code(code), Ok(key));
            }
            None => assert_eq!(KeyCode::from_code(code), Err(KeyCodeError::OutOfRange)),
        }
    }
}

#[test]
fn numbers_without_a_key() {
    assert_eq!(KeyCode::from_repr(84), None);
    for code in 195..=199u16 {
        assert_eq!(KeyCode::from_repr(code), None);
    }
    assert_eq!(KeyCode::from_repr(LAST_KEY_CODE), Some(KeyCode::MICMUTE));
    assert_eq!(KeyCode::from_repr(LAST_KEY_CODE + 1), None);
    assert_eq!(KeyCode::from_repr(255), None);
    assert_eq!(KeyCode::from_repr(256), None);
    assert_eq!(KeyCode::from_code(84), Err(KeyCodeError::OutOfRange));
    assert_eq!(KeyCode::from_code(0), Ok(KeyCode::NONE));
}

#[test]
fn numbers_are_those_of_the_input_subsystem() {
    assert_eq!(KeyCode::NONE.to_u16(), 0);
    assert_eq!(KeyCode::ESC.to_u16(), 1);
    assert_eq!(KeyCode::KEY_1.to_u16(), 2);
    assert_eq!(KeyCode::KEY_0.to_u16(), 11);
    assert_eq!(KeyCode::Q.to_u16(), 16);
    assert_eq!(KeyCode::A.to_u16(), 30);
    assert_eq!(KeyCode::KPDOT.to_u16(), 83);
    assert_eq!(KeyCode::ZENKAKUHANKAKU.to_u16(), 85);
    assert_eq!(KeyCode::KEY_102ND.to_u16(), 86);
    assert_eq!(KeyCode::F24.to_u16(), 194);
    assert_eq!(KeyCode::PLAYCD.to_u16(), 200);
    assert_eq!(KeyCode::MICMUTE.to_u16(), 248);
}

#[test]
fn no_two_keys_share_a_number_or_a_name() {
    let keys: Vec<KeyCode> = (0..=LAST_KEY_CODE).filter_map(KeyCode::from_repr).collect();
    for (i, a) in keys.iter().enumerate() {
        for b in keys.iter().skip(i + 1) {
            assert_ne!(a, b);
            assert_ne!(a.to_u16(), b.to_u16());
            assert_ne!(a.as_ref(), b.as_ref());
        }
    }
}

#[test]
fn names_are_in_upper_case() {
    for code in 0..=LAST_KEY_CODE {
        if let Some(key) = KeyCode::from_repr(code) {
            assert!(!key.as_ref().is_empty());
            assert_eq!(key.as_ref(), key.as_ref().to_ascii_uppercase());
        }
    }
}

#[test]
fn lookup_disregards_case() {
    assert_eq!(KeyCode::from_text("a"), Ok(KeyCode::A));
    assert_eq!(KeyCode::from_text("A"), Ok(KeyCode::A));
    assert_eq!(KeyCode::from_text("leftshift"), KeyCode::from_text("LeftShift"));
    assert_eq!(KeyCode::from_text("LEFTSHIFT"), Ok(KeyCode::LEFTSHIFT));
    assert_eq!(KeyCode::from_text("brightness_cycle"), Ok(KeyCode::BRIGHTNESS_CYCLE));
    assert!(KeyCode::A.is_named("a"));
    assert!(KeyCode::A.is_named("A"));
    assert!(!KeyCode::A.is_named("aA"));
    assert!(!KeyCode::A.is_named("b"));
    assert!(!KeyCode::A.is_named(""));
}

#[test]
fn digit_keys_are_named_by_their_digit() {
    assert_eq!(KeyCode::from_text("1"), Ok(KeyCode::KEY_1));
    assert_eq!(KeyCode::from_text("1").unwrap().to_u16(), 2);
    assert_eq!(KeyCode::from_text("0"), Ok(KeyCode::KEY_0));
    assert_eq!(KeyCode::from_text("9"), Ok(KeyCode::KEY_9));
    assert_eq!(KeyCode::from_text("102Nd"), Ok(KeyCode::KEY_102ND));
    assert_eq!(KeyCode::from_text("102nd"), Ok(KeyCode::KEY_102ND));
}

#[test]
fn digit_keys_are_named_by_their_symbol() {
    assert_eq!(KeyCode::from_text("KEY_1"), Ok(KeyCode::KEY_1));
    assert_eq!(KeyCode::from_text("KEY_1").unwrap().to_u16(), 2);
    assert_eq!(KeyCode::from_text("KEY_0"), Ok(KeyCode::KEY_0));
    assert_eq!(KeyCode::from_text("key_9"), Ok(KeyCode::KEY_9));
    assert_eq!(KeyCode::from_text("Key_5"), Ok(KeyCode::KEY_5));
    assert_eq!(KeyCode::from_text("KEY_102ND"), Ok(KeyCode::KEY_102ND));
    assert_eq!(KeyCode::from_text("key_102nd"), Ok(KeyCode::KEY_102ND));
    assert_eq!("KEY_7".parse::<KeyCode>(), Ok(KeyCode::KEY_7));
    assert!(KeyCode::KEY_1.is_named("KEY_1"));
    assert!(KeyCode::KEY_1.is_named("1"));
    assert!(!KeyCode::KEY_1.is_named("KEY_2"));
    assert!(!KeyCode::KEY_1.is_named("KEY_"));
    assert!(!KeyCode::KEY_1.is_named("KEY_11"));
    assert_eq!(KeyCode::KEY_1.as_ref(), "1");
}

#[test]
fn only_keys_named_by_a_digit_have_a_symbol_of_their_own() {
    assert_eq!(KeyCode::from_text("KEY_A"), Err(KeyCodeError::UnknownKeyName));
    assert_eq!(KeyCode::from_text("KEY_ESC"), Err(KeyCodeError::UnknownKeyName));
    assert_eq!(KeyCode::from_text("KEY_F1"), Err(KeyCodeError::UnknownKeyName));
    assert_eq!(KeyCode::from_text("KEY_"), Err(KeyCodeError::UnknownKeyName));
    assert_eq!(KeyCode::from_text("KEY"), Err(KeyCodeError::UnknownKeyName));
    assert_eq!(KeyCode::from_text("KEY_10"), Err(KeyCodeError::UnknownKeyName));
    assert_eq!(KeyCode::from_text("KEY_KEY_1"), Err(KeyCodeError::UnknownKeyName));
    assert_eq!(KeyCode::from_text("EY_1"), Err(KeyCodeError::UnknownKeyName));
    assert!(!KeyCode::A.is_named("KEY_A"));
}

#[test]
fn symbol_of_every_key_leads_back_to_the_key() {
    for code in 0..=u16::MAX {
        if let Some(key) = KeyCode::from_repr(code) {
            let symbol = format!("{:?}", key);
            assert_eq!(KeyCode::from_text(&symbol), Ok(key));
            assert_eq!(KeyCode::from_text(&symbol.to_ascii_lowercase()), Ok(key));
            assert!(key.is_named(&symbol));
            if symbol != key.as_ref() {
                assert_eq!(symbol, format!("KEY_{}", key.as_ref()));
                assert!(key.as_ref().starts_with(|c: char| c.is_ascii_digit()));
            }
        }
    }
}

#[test]
fn texts_that_name_no_key() {
    assert_eq!(KeyCode::from_text(""), Err(KeyCodeError::UnknownKeyName));
    assert_eq!(KeyCode::from_text("aA"), Err(KeyCodeError::UnknownKeyName));
    assert_eq!(KeyCode::from_text(" a"), Err(KeyCodeError::UnknownKeyName));
    assert_eq!(KeyCode::from_text("F25"), Err(KeyCodeError::UnknownKeyName));
    assert_eq!(KeyCode::from_text("ESCAPE"), Err(KeyCodeError::UnknownKeyName));
    assert_eq!(KeyCode::from_text("ES"), Err(KeyCodeError::UnknownKeyName));
    assert_eq!(KeyCode::from_text("\u{212a}"), Err(KeyCodeError::UnknownKeyName));
    assert_eq!(KeyCode::from_text("\u{e9}\u{e9}\u{e9}"), Err(KeyCodeError::UnknownKeyName));
    assert!("nothing".parse::<KeyCode>().is_err());
}
