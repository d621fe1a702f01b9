//! The key, modifier and event codec.
//!
//! A native key event carries a key code, a modifier mask and a keyboard
//! state mask; the codec folds the two masks into one 16-bit wire mask with a
//! fixed bit layout, and maps each supported key code onto a wire
//! discriminant.  A native terminal event is either such a key event or a
//! resize; the codec wraps both into a single tagged envelope.  Native event
//! classes without a mapping (focus, paste, mouse, and the key codes listed
//! at [`key_supported`]) are not representable: the event source must be
//! configured never to deliver them, and decoding asks for that as a
//! precondition.

use vstd::prelude::*;

verus! {

// The wire bit layout of the modifier mask.  These positions are part of the
// stable wire contract and are never renumbered.
pub const CROSSTERM_SHIFT_KEY_MODIFIER: u16 = 0x001;

pub const CROSSTERM_CONTROL_KEY_MODIFIER: u16 = 0x002;

pub const CROSSTERM_ALT_KEY_MODIFIER: u16 = 0x004;

pub const CROSSTERM_SUPER_KEY_MODIFIER: u16 = 0x008;

pub const CROSSTERM_HYPER_KEY_MODIFIER: u16 = 0x010;

pub const CROSSTERM_META_KEY_MODIFIER: u16 = 0x020;

pub const CROSSTERM_KEYPAD_KEY_MODIFIER: u16 = 0x040;

pub const CROSSTERM_CAPS_LOCK_KEY_MODIFIER: u16 = 0x080;

pub const CROSSTERM_NUM_LOCK_KEY_MODIFIER: u16 = 0x100;

/// The wire modifier mask: bit 0 shift, bit 1 control, bit 2 alt, bit 3
/// super, bit 4 hyper, bit 5 meta, bit 6 keypad, bit 7 caps lock, bit 8 num
/// lock; bits 9 and up always zero.
#[allow(non_camel_case_types)]
#[derive(Debug, Clone, Copy, PartialEq, Eq, Structural)]
pub struct crossterm_key_modifiers(pub u16);

/// Whether bit `i` of `v` is set.
pub open spec fn bit16(v: u16, i: u16) -> bool {
    ((v >> i) & 1) == 1
}

/// The wire modifier mask built from the native modifier mask `m` (bit 0
/// shift, bit 1 control, bit 2 alt, bit 3 super, bit 4 hyper, bit 5 meta) and
/// the native keyboard-state mask `s` (bit 0 keypad, bit 1 caps lock, bit 2
/// num lock).  Each defined wire bit is set exactly when the corresponding
/// native bit is set; undefined native bits are ignored.
pub open spec fn modifier_bits(m: u8, s: u8) -> u16 {
    (if m & 0x01 != 0 {
        CROSSTERM_SHIFT_KEY_MODIFIER
    } else {
        0
    }) | (if m & 0x02 != 0 {
        CROSSTERM_CONTROL_KEY_MODIFIER
    } else {
        0
    }) | (if m & 0x04 != 0 {
        CROSSTERM_ALT_KEY_MODIFIER
    } else {
        0
    }) | (if m & 0x08 != 0 {
        CROSSTERM_SUPER_KEY_MODIFIER
    } else {
        0
    }) | (if m & 0x10 != 0 {
        CROSSTERM_HYPER_KEY_MODIFIER
    } else {
        0
    }) | (if m & 0x20 != 0 {
        CROSSTERM_META_KEY_MODIFIER
    } else {
        0
    }) | (if s & 0x01 != 0 {
        CROSSTERM_KEYPAD_KEY_MODIFIER
    } else {
        0
    }) | (if s & 0x02 != 0 {
        CROSSTERM_CAPS_LOCK_KEY_MODIFIER
    } else {
        0
    }) | (if s & 0x04 != 0 {
        CROSSTERM_NUM_LOCK_KEY_MODIFIER
    } else {
        0
    })
}

/// Folds the native modifier and keyboard-state masks into the wire modifier
/// mask.
pub fn encode_modifiers(m: u8, s: u8) -> (r: crossterm_key_modifiers)
    ensures
        r.0 == modifier_bits(m, s),
{
    let t: u16 = (if m & 0x01 != 0 {
        CROSSTERM_SHIFT_KEY_MODIFIER
    } else {
        0
    }) | (if m & 0x02 != 0 {
        CROSSTERM_CONTROL_KEY_MODIFIER
    } else {
        0
    }) | (if m & 0x04 != 0 {
        CROSSTERM_ALT_KEY_MODIFIER
    } else {
        0
    }) | (if m & 0x08 != 0 {
        CROSSTERM_SUPER_KEY_MODIFIER
    } else {
        0
    }) | (if m & 0x10 != 0 {
        CROSSTERM_HYPER_KEY_MODIFIER
    } else {
        0
    }) | (if m & 0x20 != 0 {
        CROSSTERM_META_KEY_MODIFIER
    } else {
        0
    }) | (if s & 0x01 != 0 {
        CROSSTERM_KEYPAD_KEY_MODIFIER
    } else {
        0
    }) | (if s & 0x02 != 0 {
        CROSSTERM_CAPS_LOCK_KEY_MODIFIER
    } else {
        0
    }) | (if s & 0x04 != 0 {
        CROSSTERM_NUM_LOCK_KEY_MODIFIER
    } else {
        0
    });
    crossterm_key_modifiers(t)
}

/// The set bits of the wire modifier mask are exactly the wire positions of
/// the native flags present in the two input masks: wire bits 0 through 5
/// mirror native modifier bits 0 through 5, wire bits 6 through 8 mirror
/// native keyboard-state bits 0 through 2, and no other wire bit is ever set.
pub proof fn lemma_encode_modifiers_exact(m: u8, s: u8)
    by (bit_vector)
    ensures
        forall|i: u16|
            i < 6 ==> (bit16(modifier_bits(m, s), i) <==> bit16(m as u16, i)),
        forall|i: u16|
            6 <= i < 9 ==> (bit16(modifier_bits(m, s), i) <==> bit16(
                s as u16,
                (i - 6) as u16,
            )),
        modifier_bits(m, s) < 512,
{
}

/// The wire discriminant of a key event.
#[allow(non_camel_case_types)]
#[derive(Debug, Clone, Copy, PartialEq, Eq, Structural)]
pub enum crossterm_key_type {
    CROSSTERM_CHAR_KEY,
    CROSSTERM_BACKSPACE_KEY,
    CROSSTERM_ENTER_KEY,
    CROSSTERM_LEFT_ARROW_KEY,
    CROSSTERM_RIGHT_ARROW_KEY,
    CROSSTERM_UP_ARROW_KEY,
    CROSSTERM_DOWN_ARROW_KEY,
    CROSSTERM_HOME_KEY,
    CROSSTERM_END_KEY,
    CROSSTERM_PAGE_UP_KEY,
    CROSSTERM_PAGE_DOWN_KEY,
    CROSSTERM_TAB_KEY,
    CROSSTERM_BACKTAB_KEY,
    CROSSTERM_DELETE_KEY,
    CROSSTERM_INSERT_KEY,
    CROSSTERM_ESCAPE_KEY,
    CROSSTERM_F1_KEY,
    CROSSTERM_F2_KEY,
    CROSSTERM_F3_KEY,
    CROSSTERM_F4_KEY,
    CROSSTERM_F5_KEY,
    CROSSTERM_F6_KEY,
    CROSSTERM_F7_KEY,
    CROSSTERM_F8_KEY,
    CROSSTERM_F9_KEY,
    CROSSTERM_F10_KEY,
    CROSSTERM_F11_KEY,
    CROSSTERM_F12_KEY,
}

/// The wire integer of a key discriminant.  The character and named keys
/// occupy `0` through `15`; the function keys occupy `244` through `255`.
/// These values are part of the stable wire contract.
pub open spec fn key_type_code_spec(t: crossterm_key_type) -> int {
    match t {
        crossterm_key_type::CROSSTERM_CHAR_KEY => 0,
        crossterm_key_type::CROSSTERM_BACKSPACE_KEY => 1,
        crossterm_key_type::CROSSTERM_ENTER_KEY => 2,
        crossterm_key_type::CROSSTERM_LEFT_ARROW_KEY => 3,
        crossterm_key_type::CROSSTERM_RIGHT_ARROW_KEY => 4,
        crossterm_key_type::CROSSTERM_UP_ARROW_KEY => 5,
        crossterm_key_type::CROSSTERM_DOWN_ARROW_KEY => 6,
        crossterm_key_type::CROSSTERM_HOME_KEY => 7,
        crossterm_key_type::CROSSTERM_END_KEY => 8,
        crossterm_key_type::CROSSTERM_PAGE_UP_KEY => 9,
        crossterm_key_type::CROSSTERM_PAGE_DOWN_KEY => 10,
        crossterm_key_type::CROSSTERM_TAB_KEY => 11,
        crossterm_key_type::CROSSTERM_BACKTAB_KEY => 12,
        crossterm_key_type::CROSSTERM_DELETE_KEY => 13,
        crossterm_key_type::CROSSTERM_INSERT_KEY => 14,
        crossterm_key_type::CROSSTERM_ESCAPE_KEY => 15,
        crossterm_key_type::CROSSTERM_F1_KEY => 244,
        crossterm_key_type::CROSSTERM_F2_KEY => 245,
        crossterm_key_type::CROSSTERM_F3_KEY => 246,
        crossterm_key_type::CROSSTERM_F4_KEY => 247,
        crossterm_key_type::CROSSTERM_F5_KEY => 248,
        crossterm_key_type::CROSSTERM_F6_KEY => 249,
        crossterm_key_type::CROSSTERM_F7_KEY => 250,
        crossterm_key_type::CROSSTERM_F8_KEY => 251,
        crossterm_key_type::CROSSTERM_F9_KEY => 252,
        crossterm_key_type::CROSSTERM_F10_KEY => 253,
        crossterm_key_type::CROSSTERM_F11_KEY => 254,
        crossterm_key_type::CROSSTERM_F12_KEY => 255,
    }
}

impl crossterm_key_type {
    /// The wire integer of this key discriminant.
    pub fn wire_code(&self) -> (r: u32)
        ensures
            r == key_type_code_spec(*self),
    {
        match self {
            crossterm_key_type::CROSSTERM_CHAR_KEY => 0,
            crossterm_key_type::CROSSTERM_BACKSPACE_KEY => 1,
            crossterm_key_type::CROSSTERM_ENTER_KEY => 2,
            crossterm_key_type::CROSSTERM_LEFT_ARROW_KEY => 3,
            crossterm_key_type::CROSSTERM_RIGHT_ARROW_KEY => 4,
            crossterm_key_type::CROSSTERM_UP_ARROW_KEY => 5,
            crossterm_key_type::CROSSTERM_DOWN_ARROW_KEY => 6,
            crossterm_key_type::CROSSTERM_HOME_KEY => 7,
            crossterm_key_type::CROSSTERM_END_KEY => 8,
            crossterm_key_type::CROSSTERM_PAGE_UP_KEY => 9,
            crossterm_key_type::CROSSTERM_PAGE_DOWN_KEY => 10,
            crossterm_key_type::CROSSTERM_TAB_KEY => 11,
            crossterm_key_type::CROSSTERM_BACKTAB_KEY => 12,
            crossterm_key_type::CROSSTERM_DELETE_KEY => 13,
            crossterm_key_type::CROSSTERM_INSERT_KEY => 14,
            crossterm_key_type::CROSSTERM_ESCAPE_KEY => 15,
            crossterm_key_type::CROSSTERM_F1_KEY => 244,
            crossterm_key_type::CROSSTERM_F2_KEY => 245,
            crossterm_key_type::CROSSTERM_F3_KEY => 246,
            crossterm_key_type::CROSSTERM_F4_KEY => 247,
            crossterm_key_type::CROSSTERM_F5_KEY => 248,
            crossterm_key_type::CROSSTERM_F6_KEY => 249,
            crossterm_key_type::CROSSTERM_F7_KEY => 250,
            crossterm_key_type::CROSSTERM_F8_KEY => 251,
            crossterm_key_type::CROSSTERM_F9_KEY => 252,
            crossterm_key_type::CROSSTERM_F10_KEY => 253,
            crossterm_key_type::CROSSTERM_F11_KEY => 254,
            crossterm_key_type::CROSSTERM_F12_KEY => 255,
        }
    }
}

/// No two key discriminants share a wire integer.
pub proof fn lemma_key_type_code_injective(a: crossterm_key_type, b: crossterm_key_type)
    requires
        key_type_code_spec(a) == key_type_code_spec(b),
    ensures
        a == b,
{
}

/// The native key-code model.  The first seventeen variants (through `F`)
/// are the supported set; the rest name native key classes the wire format
/// cannot represent.
#[derive(Debug, Clone, Copy, PartialEq, Eq, Structural)]
pub enum NativeKeyCode {
    Char(char),
    Backspace,
    Enter,
    Left,
    Right,
    Up,
    Down,
    Home,
    End,
    PageUp,
    PageDown,
    Tab,
    BackTab,
    Delete,
    Insert,
    Esc,
    F(u8),
    Null,
    CapsLock,
    ScrollLock,
    NumLock,
    PrintScreen,
    Pause,
    Menu,
    KeypadBegin,
    Media,
    Modifier,
}

/// A native key event: a key code plus the native modifier and
/// keyboard-state masks.
#[derive(Debug, Clone, Copy, PartialEq, Eq, Structural)]
pub struct NativeKeyEvent {
    pub code: NativeKeyCode,
    pub modifiers: u8,
    pub state: u8,
}

/// Whether a native key code has a wire discriminant.  Function keys beyond
/// F12 and the key classes from `Null` on down have none: delivering one to
/// the decoder is an internal-consistency failure, so the event source must
/// be configured to exclude them.
pub open spec fn key_supported(k: NativeKeyCode) -> bool {
    match k {
        NativeKeyCode::F(n) => 1 <= n <= 12,
        NativeKeyCode::Null => false,
        NativeKeyCode::CapsLock => false,
        NativeKeyCode::ScrollLock => false,
        NativeKeyCode::NumLock => false,
        NativeKeyCode::PrintScreen => false,
        NativeKeyCode::Pause => false,
        NativeKeyCode::Menu => false,
        NativeKeyCode::KeypadBegin => false,
        NativeKeyCode::Media => false,
        NativeKeyCode::Modifier => false,
        _ => true,
    }
}

/// The wire discriminant of a supported native key code.  Meaningful only
/// under [`key_supported`]; unsupported codes fall back to the character
/// discriminant, a case the decoder never reaches.
pub open spec fn key_kind_spec(k: NativeKeyCode) -> crossterm_key_type {
    match k {
        NativeKeyCode::Backspace => crossterm_key_type::CROSSTERM_BACKSPACE_KEY,
        NativeKeyCode::Enter => crossterm_key_type::CROSSTERM_ENTER_KEY,
        NativeKeyCode::Left => crossterm_key_type::CROSSTERM_LEFT_ARROW_KEY,
        NativeKeyCode::Right => crossterm_key_type::CROSSTERM_RIGHT_ARROW_KEY,
        NativeKeyCode::Up => crossterm_key_type::CROSSTERM_UP_ARROW_KEY,
        NativeKeyCode::Down => crossterm_key_type::CROSSTERM_DOWN_ARROW_KEY,
        NativeKeyCode::Home => crossterm_key_type::CROSSTERM_HOME_KEY,
        NativeKeyCode::End => crossterm_key_type::CROSSTERM_END_KEY,
        NativeKeyCode::PageUp => crossterm_key_type::CROSSTERM_PAGE_UP_KEY,
        NativeKeyCode::PageDown => crossterm_key_type::CROSSTERM_PAGE_DOWN_KEY,
        NativeKeyCode::Tab => crossterm_key_type::CROSSTERM_TAB_KEY,
        NativeKeyCode::BackTab => crossterm_key_type::CROSSTERM_BACKTAB_KEY,
        NativeKeyCode::Delete => crossterm_key_type::CROSSTERM_DELETE_KEY,
        NativeKeyCode::Insert => crossterm_key_type::CROSSTERM_INSERT_KEY,
        NativeKeyCode::Esc => crossterm_key_type::CROSSTERM_ESCAPE_KEY,
        NativeKeyCode::F(n) => if n == 1 {
            crossterm_key_type::CROSSTERM_F1_KEY
        } else if n == 2 {
            crossterm_key_type::CROSSTERM_F2_KEY
        } else if n == 3 {
            crossterm_key_type::CROSSTERM_F3_KEY
        } else if n == 4 {
            crossterm_key_type::CROSSTERM_F4_KEY
        } else if n == 5 {
            crossterm_key_type::CROSSTERM_F5_KEY
        } else if n == 6 {
            crossterm_key_type::CROSSTERM_F6_KEY
        } else if n == 7 {
            crossterm_key_type::CROSSTERM_F7_KEY
        } else if n == 8 {
            crossterm_key_type::CROSSTERM_F8_KEY
        } else if n == 9 {
            crossterm_key_type::CROSSTERM_F9_KEY
        } else if n == 10 {
            crossterm_key_type::CROSSTERM_F10_KEY
        } else if n == 11 {
            crossterm_key_type::CROSSTERM_F11_KEY
        } else {
            crossterm_key_type::CROSSTERM_F12_KEY
        },
        _ => crossterm_key_type::CROSSTERM_CHAR_KEY,
    }
}

/// The wire code field of a native key code: the character's code point for
/// the character kind, zero for every other kind.
pub open spec fn key_code_field_spec(k: NativeKeyCode) -> u32 {
    match k {
        NativeKeyCode::Char(c) => c as u32,
        _ => 0,
    }
}

/// A wire key event: a discriminant, a 32-bit code field meaningful only for
/// the character discriminant, and the wire modifier mask.
#[allow(non_camel_case_types)]
#[derive(Debug, Clone, Copy, PartialEq, Eq, Structural)]
pub struct crossterm_key_event {
    pub kind: crossterm_key_type,
    pub code: u32,
    pub modifiers: u16,
}

/// The code field is zero for every discriminant but the character one, and
/// the modifier mask uses only the nine defined bits.
pub open spec fn key_event_wf(e: crossterm_key_event) -> bool {
    &&& e.kind != crossterm_key_type::CROSSTERM_CHAR_KEY ==> e.code == 0
    &&& e.modifiers < 512
}

/// Decodes a supported native key event into its wire form: the matching
/// discriminant, the character's code point in the code field for the
/// character kind (zero otherwise), and the folded modifier mask.
pub fn decode_key_event(ev: &NativeKeyEvent) -> (r: crossterm_key_event)
    requires
        key_supported(ev.code),
    ensures
        r.kind == key_kind_spec(ev.code),
        r.code == key_code_field_spec(ev.code),
        r.modifiers == modifier_bits(ev.modifiers, ev.state),
        key_event_wf(r),
{
    let modifiers = encode_modifiers(ev.modifiers, ev.state).0;
    proof {
        lemma_encode_modifiers_exact(ev.modifiers, ev.state);
    }
    let (kind, code): (crossterm_key_type, u32) = match ev.code {
        NativeKeyCode::Char(c) => (crossterm_key_type::CROSSTERM_CHAR_KEY, c as u32),
        NativeKeyCode::Backspace => (crossterm_key_type::CROSSTERM_BACKSPACE_KEY, 0),
        NativeKeyCode::Enter => (crossterm_key_type::CROSSTERM_ENTER_KEY, 0),
        NativeKeyCode::Left => (crossterm_key_type::CROSSTERM_LEFT_ARROW_KEY, 0),
        NativeKeyCode::Right => (crossterm_key_type::CROSSTERM_RIGHT_ARROW_KEY, 0),
        NativeKeyCode::Up => (crossterm_key_type::CROSSTERM_UP_ARROW_KEY, 0),
        NativeKeyCode::Down => (crossterm_key_type::CROSSTERM_DOWN_ARROW_KEY, 0),
        NativeKeyCode::Home => (crossterm_key_type::CROSSTERM_HOME_KEY, 0),
        NativeKeyCode::End => (crossterm_key_type::CROSSTERM_END_KEY, 0),
        NativeKeyCode::PageUp => (crossterm_key_type::CROSSTERM_PAGE_UP_KEY, 0),
        NativeKeyCode::PageDown => (crossterm_key_type::CROSSTERM_PAGE_DOWN_KEY, 0),
        NativeKeyCode::Tab => (crossterm_key_type::CROSSTERM_TAB_KEY, 0),
        NativeKeyCode::BackTab => (crossterm_key_type::CROSSTERM_BACKTAB_KEY, 0),
        NativeKeyCode::Delete => (crossterm_key_type::CROSSTERM_DELETE_KEY, 0),
        NativeKeyCode::Insert => (crossterm_key_type::CROSSTERM_INSERT_KEY, 0),
        NativeKeyCode::Esc => (crossterm_key_type::CROSSTERM_ESCAPE_KEY, 0),
        NativeKeyCode::F(n) => {
            let t = if n == 1 {
                crossterm_key_type::CROSSTERM_F1_KEY
            } else if n == 2 {
                crossterm_key_type::CROSSTERM_F2_KEY
            } else if n == 3 {
                crossterm_key_type::CROSSTERM_F3_KEY
            } else if n == 4 {
                crossterm_key_type::CROSSTERM_F4_KEY
            } else if n == 5 {
                crossterm_key_type::CROSSTERM_F5_KEY
            } else if n == 6 {
                crossterm_key_type::CROSSTERM_F6_KEY
            } else if n == 7 {
                crossterm_key_type::CROSSTERM_F7_KEY
            } else if n == 8 {
                crossterm_key_type::CROSSTERM_F8_KEY
            } else if n == 9 {
                crossterm_key_type::CROSSTERM_F9_KEY
            } else if n == 10 {
                crossterm_key_type::CROSSTERM_F10_KEY
            } else if n == 11 {
                crossterm_key_type::CROSSTERM_F11_KEY
            } else {
                crossterm_key_type::CROSSTERM_F12_KEY
            };
            (t, 0)
        },
        _ => {
            proof {
                assert(false);
            }
            (crossterm_key_type::CROSSTERM_CHAR_KEY, 0)
        },
    };
    crossterm_key_event { kind, code, modifiers }
}

/// The wire discriminant of a terminal event.
#[allow(non_camel_case_types)]
#[derive(Debug, Clone, Copy, PartialEq, Eq, Structural)]
pub enum crossterm_event_type {
    CROSSTERM_KEY_EVENT,
    CROSSTERM_RESIZE_EVENT,
}

/// The payload of a resize event: the new width and height, both 16-bit,
/// copied verbatim with no validation.
#[allow(non_camel_case_types)]
#[derive(Debug, Clone, Copy, PartialEq, Eq, Structural)]
pub struct crossterm_resize_event {
    pub width: u16,
    pub height: u16,
}

/// The payload of a wire terminal event.
///
/// In the C layout this is an untagged union; here the variant is explicit,
/// and well-formedness ties it to the discriminant.
#[allow(non_camel_case_types)]
#[derive(Debug, Clone, Copy, PartialEq, Eq, Structural)]
pub enum crossterm_event_value {
    Key(crossterm_key_event),
    Resize(crossterm_resize_event),
}

/// A wire terminal event: a discriminant plus the payload it selects.
#[allow(non_camel_case_types)]
#[derive(Debug, Clone, Copy, PartialEq, Eq, Structural)]
pub struct crossterm_event {
    pub kind: crossterm_event_type,
    pub value: crossterm_event_value,
}

/// The payload variant matches the discriminant, and a key payload is itself
/// well formed.
pub open spec fn event_wf(e: crossterm_event) -> bool {
    match e.kind {
        crossterm_event_type::CROSSTERM_KEY_EVENT => e.value matches crossterm_event_value::Key(k)
            && key_event_wf(k),
        crossterm_event_type::CROSSTERM_RESIZE_EVENT => e.value is Resize,
    }
}

/// The native terminal-event model.  Only the key and resize variants are
/// representable on the wire.
#[derive(Debug, Clone, Copy, PartialEq, Eq, Structural)]
pub enum NativeEvent {
    FocusGained,
    FocusLost,
    Key(NativeKeyEvent),
    Mouse,
    Paste,
    Resize(u16, u16),
}

/// Whether a native event has a wire form: key events of supported key
/// codes, and resize events.  Focus, paste and mouse events have none; the
/// event source must be configured never to deliver them.
pub open spec fn event_supported(ev: NativeEvent) -> bool {
    match ev {
        NativeEvent::Key(k) => key_supported(k.code),
        NativeEvent::Resize(_, _) => true,
        _ => false,
    }
}

/// The wire envelope of a supported native event.  Meaningful only under
/// [`event_supported`].
pub open spec fn decode_event_spec(ev: NativeEvent) -> crossterm_event {
    match ev {
        NativeEvent::Key(k) => crossterm_event {
            kind: crossterm_event_type::CROSSTERM_KEY_EVENT,
            value: crossterm_event_value::Key(
                crossterm_key_event {
                    kind: key_kind_spec(k.code),
                    code: key_code_field_spec(k.code),
                    modifiers: modifier_bits(k.modifiers, k.state),
                },
            ),
        },
        NativeEvent::Resize(w, h) => crossterm_event {
            kind: crossterm_event_type::CROSSTERM_RESIZE_EVENT,
            value: crossterm_event_value::Resize(crossterm_resize_event { width: w, height: h }),
        },
        _ => crossterm_event {
            kind: crossterm_event_type::CROSSTERM_RESIZE_EVENT,
            value: crossterm_event_value::Resize(crossterm_resize_event { width: 0, height: 0 }),
        },
    }
}

/// Decodes a supported native event into the tagged wire envelope: a key
/// event goes through the key codec, a resize event carries its dimensions
/// verbatim.
pub fn decode_event(ev: &NativeEvent) -> (r: crossterm_event)
    requires
        event_supported(*ev),
    ensures
        r == decode_event_spec(*ev),
        event_wf(r),
{
    match ev {
        NativeEvent::Key(k) => crossterm_event {
            kind: crossterm_event_type::CROSSTERM_KEY_EVENT,
            value: crossterm_event_value::Key(decode_key_event(k)),
        },
        NativeEvent::Resize(w, h) => crossterm_event {
            kind: crossterm_event_type::CROSSTERM_RESIZE_EVENT,
            value: crossterm_event_value::Resize(
                crossterm_resize_event { width: *w, height: *h },
            ),
        },
        _ => {
            proof {
                assert(false);
            }
            crossterm_event {
                kind: crossterm_event_type::CROSSTERM_RESIZE_EVENT,
                value: crossterm_event_value::Resize(crossterm_resize_event { width: 0, height: 0 }),
            }
        },
    }
}

/// Decodes a native event if it has a wire form; yields nothing exactly for
/// the event classes the wire format cannot represent, which the caller must
/// treat as a fatal configuration error of the event source.
pub fn try_decode_event(ev: &NativeEvent) -> (r: Option<crossterm_event>)
    ensures
        r is Some <==> event_supported(*ev),
        event_supported(*ev) ==> r == Some(decode_event_spec(*ev)),
{
    let supported = match ev {
        NativeEvent::Key(k) => match k.code {
            NativeKeyCode::F(n) => 1 <= n && n <= 12,
            NativeKeyCode::Null => false,
            NativeKeyCode::CapsLock => false,
            NativeKeyCode::ScrollLock => false,
            NativeKeyCode::NumLock => false,
            NativeKeyCode::PrintScreen => false,
            NativeKeyCode::Pause => false,
            NativeKeyCode::Menu => false,
            NativeKeyCode::KeypadBegin => false,
            NativeKeyCode::Media => false,
            NativeKeyCode::Modifier => false,
            _ => true,
        },
        NativeEvent::Resize(_, _) => true,
        _ => false,
    };
    if supported {
        Some(decode_event(ev))
    } else {
        None
    }
}

} // verus!
