//! The modifier, key and event codec, one case per native flag, key code and
//! event kind.

use crossterm_ffi::event::crossterm_event_type;
use crossterm_ffi::event::crossterm_event_value;
use crossterm_ffi::event::crossterm_key_modifiers;
use crossterm_ffi::event::crossterm_key_type;
use crossterm_ffi::event::decode_event;
use crossterm_ffi::event::decode_key_event;
use crossterm_ffi::event::encode_modifiers;
use crossterm_ffi::event::try_decode_event;
use crossterm_ffi::event::NativeEvent;
use crossterm_ffi::event::NativeKeyCode;
use crossterm_ffi::event::NativeKeyEvent;
use crossterm_ffi::event::CROSSTERM_ALT_KEY_MODIFIER;
use crossterm_ffi::event::CROSSTERM_CAPS_LOCK_KEY_MODIFIER;
use crossterm_ffi::event::CROSSTERM_CONTROL_KEY_MODIFIER;
use crossterm_ffi::event::CROSSTERM_HYPER_KEY_MODIFIER;
use crossterm_ffi::event::CROSSTERM_KEYPAD_KEY_MODIFIER;
use crossterm_ffi::event::CROSSTERM_META_KEY_MODIFIER;
use crossterm_ffi::event::CROSSTERM_NUM_LOCK_KEY_MODIFIER;
use crossterm_ffi::event::CROSSTERM_SHIFT_KEY_MODIFIER;
use crossterm_ffi::event::CROSSTERM_SUPER_KEY_MODIFIER;

// The native mask bits: modifiers shift 0x01, control 0x02, alt 0x04,
// super 0x08, hyper 0x10, meta 0x20; keyboard state keypad 0x01,
// caps lock 0x02, num lock 0x04.

#[test]
fn shift_key_modifier_cast() {
    assert_eq!(
        crossterm_key_modifiers(CROSSTERM_SHIFT_KEY_MODIFIER),
        encode_modifiers(0x01, 0),
    );
}

#[test]
fn control_key_modifier_cast() {
    assert_eq!(
        crossterm_key_modifiers(CROSSTERM_CONTROL_KEY_MODIFIER),
        encode_modifiers(0x02, 0),
    );
}

#[test]
fn alt_key_modifier_cast() {
    assert_eq!(
        crossterm_key_modifiers(CROSSTERM_ALT_KEY_MODIFIER),
        encode_modifiers(0x04, 0),
    );
}

#[test]
fn super_key_modifier_cast() {
    assert_eq!(
        crossterm_key_modifiers(CROSSTERM_SUPER_KEY_MODIFIER),
        encode_modifiers(0x08, 0),
    );
}

#[test]
fn hyper_key_modifier_cast() {
    assert_eq!(
        crossterm_key_modifiers(CROSSTERM_HYPER_KEY_MODIFIER),
        encode_modifiers(0x10, 0),
    );
}

#[test]
fn meta_key_modifier_cast() {
    assert_eq!(
        crossterm_key_modifiers(CROSSTERM_META_KEY_MODIFIER),
        encode_modifiers(0x20, 0),
    );
}

#[test]
fn keypad_key_modifier_cast() {
    assert_eq!(
        crossterm_key_modifiers(CROSSTERM_KEYPAD_KEY_MODIFIER),
        encode_modifiers(0, 0x01),
    );
}

#[test]
fn caps_lock_key_modifier_cast() {
    assert_eq!(
        crossterm_key_modifiers(CROSSTERM_CAPS_LOCK_KEY_MODIFIER),
        encode_modifiers(0, 0x02),
    );
}

#[test]
fn num_lock_key_modifier_cast() {
    assert_eq!(
        crossterm_key_modifiers(CROSSTERM_NUM_LOCK_KEY_MODIFIER),
        encode_modifiers(0, 0x04),
    );
}

fn key(code: NativeKeyCode) -> NativeKeyEvent {
    NativeKeyEvent {
        code,
        modifiers: 0,
        state: 0,
    }
}

#[test]
fn char_key_event_cast() {
    let event = decode_key_event(&key(NativeKeyCode::Char(59 as u8 as char)));
    assert_eq!(event.kind, crossterm_key_type::CROSSTERM_CHAR_KEY);
    assert_eq!(event.code, 59);
}

#[test]
fn backspace_key_event_cast() {
    assert_eq!(
        decode_key_event(&key(NativeKeyCode::Backspace)).kind,
        crossterm_key_type::CROSSTERM_BACKSPACE_KEY,
    );
}

#[test]
fn enter_key_event_cast() {
    assert_eq!(
        decode_key_event(&key(NativeKeyCode::Enter)).kind,
        crossterm_key_type::CROSSTERM_ENTER_KEY,
    );
}

#[test]
fn left_arrow_key_event_cast() {
    assert_eq!(
        decode_key_event(&key(NativeKeyCode::Left)).kind,
        crossterm_key_type::CROSSTERM_LEFT_ARROW_KEY,
    );
}

#[test]
fn right_arrow_key_event_cast() {
    assert_eq!(
        decode_key_event(&key(NativeKeyCode::Right)).kind,
        crossterm_key_type::CROSSTERM_RIGHT_ARROW_KEY,
    );
}

#[test]
fn up_arrow_key_event_cast() {
    assert_eq!(
        decode_key_event(&key(NativeKeyCode::Up)).kind,
        crossterm_key_type::CROSSTERM_UP_ARROW_KEY,
    );
}

#[test]
fn down_arrow_key_event_cast() {
    assert_eq!(
        decode_key_event(&key(NativeKeyCode::Down)).kind,
        crossterm_key_type::CROSSTERM_DOWN_ARROW_KEY,
    );
}

#[test]
fn home_key_event_cast() {
    assert_eq!(
        decode_key_event(&key(NativeKeyCode::Home)).kind,
        crossterm_key_type::CROSSTERM_HOME_KEY,
    );
}

#[test]
fn end_key_event_cast() {
    assert_eq!(
        decode_key_event(&key(NativeKeyCode::End)).kind,
        crossterm_key_type::CROSSTERM_END_KEY,
    );
}

#[test]
fn page_up_key_event_cast() {
    assert_eq!(
        decode_key_event(&key(NativeKeyCode::PageUp)).kind,
        crossterm_key_type::CROSSTERM_PAGE_UP_KEY,
    );
}

#[test]
fn page_down_key_event_cast() {
    assert_eq!(
        decode_key_event(&key(NativeKeyCode::PageDown)).kind,
        crossterm_key_type::CROSSTERM_PAGE_DOWN_KEY,
    );
}

#[test]
fn tab_key_event_cast() {
    assert_eq!(
        decode_key_event(&key(NativeKeyCode::Tab)).kind,
        crossterm_key_type::CROSSTERM_TAB_KEY,
    );
}

#[test]
fn backtab_key_event_cast() {
    assert_eq!(
        decode_key_event(&key(NativeKeyCode::BackTab)).kind,
        crossterm_key_type::CROSSTERM_BACKTAB_KEY,
    );
}

#[test]
fn delete_key_event_cast() {
    assert_eq!(
        decode_key_event(&key(NativeKeyCode::Delete)).kind,
        crossterm_key_type::CROSSTERM_DELETE_KEY,
    );
}

#[test]
fn insert_key_event_cast() {
    assert_eq!(
        decode_key_event(&key(NativeKeyCode::Insert)).kind,
        crossterm_key_type::CROSSTERM_INSERT_KEY,
    );
}

#[test]
fn escape_key_event_cast() {
    assert_eq!(
        decode_key_event(&key(NativeKeyCode::Esc)).kind,
        crossterm_key_type::CROSSTERM_ESCAPE_KEY,
    );
}

#[test]
fn f1_key_event_cast() {
    assert_eq!(
        decode_key_event(&key(NativeKeyCode::F(1))).kind,
        crossterm_key_type::CROSSTERM_F1_KEY,
    );
}

#[test]
fn f2_key_event_cast() {
    assert_eq!(
        decode_key_event(&key(NativeKeyCode::F(2))).kind,
        crossterm_key_type::CROSSTERM_F2_KEY,
    );
}

#[test]
fn f3_key_event_cast() {
    assert_eq!(
        decode_key_event(&key(NativeKeyCode::F(3))).kind,
        crossterm_key_type::CROSSTERM_F3_KEY,
    );
}

#[test]
fn f4_key_event_cast() {
    assert_eq!(
        decode_key_event(&key(NativeKeyCode::F(4))).kind,
        crossterm_key_type::CROSSTERM_F4_KEY,
    );
}

#[test]
fn f5_key_event_cast() {
    assert_eq!(
        decode_key_event(&key(NativeKeyCode::F(5))).kind,
        crossterm_key_type::CROSSTERM_F5_KEY,
    );
}

#[test]
fn f6_key_event_cast() {
    assert_eq!(
        decode_key_event(&key(NativeKeyCode::F(6))).kind,
        crossterm_key_type::CROSSTERM_F6_KEY,
    );
}

#[test]
fn f7_key_event_cast() {
    assert_eq!(
        decode_key_event(&key(NativeKeyCode::F(7))).kind,
        crossterm_key_type::CROSSTERM_F7_KEY,
    );
}

#[test]
fn f8_key_event_cast() {
    assert_eq!(
        decode_key_event(&key(NativeKeyCode::F(8))).kind,
        crossterm_key_type::CROSSTERM_F8_KEY,
    );
}

#[test]
fn f9_key_event_cast() {
    assert_eq!(
        decode_key_event(&key(NativeKeyCode::F(9))).kind,
        crossterm_key_type::CROSSTERM_F9_KEY,
    );
}

#[test]
fn f10_key_event_cast() {
    assert_eq!(
        decode_key_event(&key(NativeKeyCode::F(10))).kind,
        crossterm_key_type::CROSSTERM_F10_KEY,
    );
}

#[test]
fn f11_key_event_cast() {
    assert_eq!(
        decode_key_event(&key(NativeKeyCode::F(11))).kind,
        crossterm_key_type::CROSSTERM_F11_KEY,
    );
}

#[test]
fn f12_key_event_cast() {
    assert_eq!(
        decode_key_event(&key(NativeKeyCode::F(12))).kind,
        crossterm_key_type::CROSSTERM_F12_KEY,
    );
}

#[test]
fn key_event_cast() {
    let event = decode_event(&NativeEvent::Key(NativeKeyEvent {
        code: NativeKeyCode::Char(59 as u8 as char),
        modifiers: 0x3f,
        state: 0x07,
    }));

    assert_eq!(crossterm_event_type::CROSSTERM_KEY_EVENT, event.kind);
    match event.value {
        crossterm_event_value::Key(k) => {
            assert_eq!(crossterm_key_type::CROSSTERM_CHAR_KEY, k.kind);
            assert_eq!(59, k.code);
            assert_eq!(
                CROSSTERM_SHIFT_KEY_MODIFIER
                    | CROSSTERM_CONTROL_KEY_MODIFIER
                    | CROSSTERM_ALT_KEY_MODIFIER
                    | CROSSTERM_SUPER_KEY_MODIFIER
                    | CROSSTERM_HYPER_KEY_MODIFIER
                    | CROSSTERM_META_KEY_MODIFIER
                    | CROSSTERM_KEYPAD_KEY_MODIFIER
                    | CROSSTERM_CAPS_LOCK_KEY_MODIFIER
                    | CROSSTERM_NUM_LOCK_KEY_MODIFIER,
                k.modifiers,
            );
            assert_eq!(511, k.modifiers);
        }
        crossterm_event_value::Resize(_) => panic!("expected a key payload"),
    }
}

#[test]
fn resize_event_cast() {
    let event = decode_event(&NativeEvent::Resize(59, 15));

    assert_eq!(crossterm_event_type::CROSSTERM_RESIZE_EVENT, event.kind);
    match event.value {
        crossterm_event_value::Resize(r) => {
            assert_eq!(59, r.width);
            assert_eq!(15, r.height);
        }
        crossterm_event_value::Key(_) => panic!("expected a resize payload"),
    }
}

#[test]
fn non_character_keys_carry_zero_code() {
    let codes = [
        NativeKeyCode::Backspace,
        NativeKeyCode::Enter,
        NativeKeyCode::Esc,
        NativeKeyCode::F(12),
    ];
    for c in codes {
        assert_eq!(0, decode_key_event(&key(c)).code);
    }
}

#[test]
fn unsupported_events_are_refused() {
    let unsupported = [
        NativeEvent::FocusGained,
        NativeEvent::FocusLost,
        NativeEvent::Mouse,
        NativeEvent::Paste,
        NativeEvent::Key(key(NativeKeyCode::Null)),
        NativeEvent::Key(key(NativeKeyCode::CapsLock)),
        NativeEvent::Key(key(NativeKeyCode::ScrollLock)),
        NativeEvent::Key(key(NativeKeyCode::NumLock)),
        NativeEvent::Key(key(NativeKeyCode::PrintScreen)),
        NativeEvent::Key(key(NativeKeyCode::Pause)),
        NativeEvent::Key(key(NativeKeyCode::Menu)),
        NativeEvent::Key(key(NativeKeyCode::KeypadBegin)),
        NativeEvent::Key(key(NativeKeyCode::Media)),
        NativeEvent::Key(key(NativeKeyCode::Modifier)),
        NativeEvent::Key(key(NativeKeyCode::F(13))),
        NativeEvent::Key(key(NativeKeyCode::F(0))),
    ];
    for ev in unsupported {
        assert!(try_decode_event(&ev).is_none());
    }
    assert!(try_decode_event(&NativeEvent::Resize(0, 0)).is_some());
    assert!(try_decode_event(&NativeEvent::Key(key(NativeKeyCode::F(12)))).is_some());
}

#[test]
fn modifier_mask_uses_only_defined_native_bits() {
    // Undefined high bits of the native masks are ignored.
    assert_eq!(encode_modifiers(0xc0, 0xf8), crossterm_key_modifiers(0));
    assert_eq!(
        encode_modifiers(0xff, 0xff),
        crossterm_key_modifiers(0x1ff),
    );
}

#[test]
fn key_type_wire_codes() {
    assert_eq!(0, crossterm_key_type::CROSSTERM_CHAR_KEY.wire_code());
    assert_eq!(15, crossterm_key_type::CROSSTERM_ESCAPE_KEY.wire_code());
    assert_eq!(244, crossterm_key_type::CROSSTERM_F1_KEY.wire_code());
    assert_eq!(255, crossterm_key_type::CROSSTERM_F12_KEY.wire_code());
}
