//! What the key tables say about a keyboard: its rows, its letters and digits, its function
//! keys, and the names of the other keys.

use vstd::prelude::*;

#[allow(unused_imports)]
use crate::event;
#[allow(unused_imports)]
use crate::keys::KeyCode;

verus! {

/// The keys bear consecutive numbers from `first` on.
pub open spec fn numbered_from(first: int, keys: Seq<KeyCode>) -> bool {
    forall|i: int| 0 <= i < keys.len() ==> (#[trigger] keys[i]).code() == first + i
}

/// The keys of the main block bear consecutive numbers, row by row.
#[verifier::spinoff_prover]
#[verifier::rlimit(40)]
pub proof fn law_numbers_of_main_rows()
    ensures
        numbered_from(
            0,
            seq![
                KeyCode::KEY_RESERVED, KeyCode::KEY_ESC, KeyCode::KEY_1, KeyCode::KEY_2,
                KeyCode::KEY_3, KeyCode::KEY_4, KeyCode::KEY_5, KeyCode::KEY_6, KeyCode::KEY_7,
                KeyCode::KEY_8, KeyCode::KEY_9, KeyCode::KEY_0, KeyCode::KEY_MINUS,
                KeyCode::KEY_EQUAL, KeyCode::KEY_BACKSPACE, KeyCode::KEY_TAB,
            ],
        ),
        numbered_from(
            16,
            seq![
                KeyCode::KEY_Q, KeyCode::KEY_W, KeyCode::KEY_E, KeyCode::KEY_R, KeyCode::KEY_T,
                KeyCode::KEY_Y, KeyCode::KEY_U, KeyCode::KEY_I, KeyCode::KEY_O, KeyCode::KEY_P,
                KeyCode::KEY_LEFTBRACE, KeyCode::KEY_RIGHTBRACE, KeyCode::KEY_ENTER,
                KeyCode::KEY_LEFTCTRL,
            ],
        ),
        numbered_from(
            30,
            seq![
                KeyCode::KEY_A, KeyCode::KEY_S, KeyCode::KEY_D, KeyCode::KEY_F, KeyCode::KEY_G,
                KeyCode::KEY_H, KeyCode::KEY_J, KeyCode::KEY_K, KeyCode::KEY_L,
                KeyCode::KEY_SEMICOLON, KeyCode::KEY_APOSTROPHE, KeyCode::KEY_GRAVE,
                KeyCode::KEY_LEFTSHIFT, KeyCode::KEY_BACKSLASH,
            ],
        ),
        numbered_from(
            44,
            seq![
                KeyCode::KEY_Z, KeyCode::KEY_X, KeyCode::KEY_C, KeyCode::KEY_V, KeyCode::KEY_B,
                KeyCode::KEY_N, KeyCode::KEY_M, KeyCode::KEY_COMMA, KeyCode::KEY_DOT,
                KeyCode::KEY_SLASH, KeyCode::KEY_RIGHTSHIFT, KeyCode::KEY_KPASTERISK,
                KeyCode::KEY_LEFTALT, KeyCode::KEY_SPACE, KeyCode::KEY_CAPSLOCK,
            ],
        ),
{
}

/// The function keys, the locks and the keypad bear consecutive numbers.
#[verifier::spinoff_prover]
#[verifier::rlimit(40)]
pub proof fn law_numbers_of_function_and_keypad_keys()
    ensures
        numbered_from(
            59,
            seq![
                KeyCode::KEY_F1, KeyCode::KEY_F2, KeyCode::KEY_F3, KeyCode::KEY_F4,
                KeyCode::KEY_F5, KeyCode::KEY_F6, KeyCode::KEY_F7, KeyCode::KEY_F8,
                KeyCode::KEY_F9, KeyCode::KEY_F10, KeyCode::KEY_NUMLOCK,
                KeyCode::KEY_SCROLLLOCK,
            ],
        ),
        numbered_from(
            71,
            seq![
                KeyCode::KEY_KP7, KeyCode::KEY_KP8, KeyCode::KEY_KP9, KeyCode::KEY_KPMINUS,
                KeyCode::KEY_KP4, KeyCode::KEY_KP5, KeyCode::KEY_KP6, KeyCode::KEY_KPPLUS,
                KeyCode::KEY_KP1, KeyCode::KEY_KP2, KeyCode::KEY_KP3, KeyCode::KEY_KP0,
                KeyCode::KEY_KPDOT,
            ],
        ),
        numbered_from(
            85,
            seq![
                KeyCode::KEY_ZENKAKUHANKAKU, KeyCode::KEY_102ND, KeyCode::KEY_F11,
                KeyCode::KEY_F12, KeyCode::KEY_RO, KeyCode::KEY_KATAKANA, KeyCode::KEY_HIRAGANA,
                KeyCode::KEY_HENKAN, KeyCode::KEY_KATAKANAHIRAGANA, KeyCode::KEY_MUHENKAN,
                KeyCode::KEY_KPJPCOMMA,
            ],
        ),
        numbered_from(
            96,
            seq![
                KeyCode::KEY_KPENTER, KeyCode::KEY_RIGHTCTRL, KeyCode::KEY_KPSLASH,
                KeyCode::KEY_SYSRQ, KeyCode::KEY_RIGHTALT, KeyCode::KEY_LINEFEED,
            ],
        ),
{
}

/// The keys for editing, for sound and for the system bear consecutive numbers.
#[verifier::spinoff_prover]
#[verifier::rlimit(40)]
pub proof fn law_numbers_of_editing_and_system_keys()
    ensures
        numbered_from(
            102,
            seq![
                KeyCode::KEY_HOME, KeyCode::KEY_UP, KeyCode::KEY_PAGEUP, KeyCode::KEY_LEFT,
                KeyCode::KEY_RIGHT, KeyCode::KEY_END, KeyCode::KEY_DOWN, KeyCode::KEY_PAGEDOWN,
                KeyCode::KEY_INSERT, KeyCode::KEY_DELETE, KeyCode::KEY_MACRO,
            ],
        ),
        numbered_from(
            113,
            seq![
                KeyCode::KEY_MUTE, KeyCode::KEY_VOLUMEDOWN, KeyCode::KEY_VOLUMEUP,
                KeyCode::KEY_POWER, KeyCode::KEY_KPEQUAL, KeyCode::KEY_KPPLUSMINUS,
                KeyCode::KEY_PAUSE, KeyCode::KEY_SCALE, KeyCode::KEY_KPCOMMA,
                KeyCode::KEY_HANGEUL, KeyCode::KEY_HANJA, KeyCode::KEY_YEN,
                KeyCode::KEY_LEFTMETA, KeyCode::KEY_RIGHTMETA, KeyCode::KEY_COMPOSE,
            ],
        ),
        numbered_from(
            128,
            seq![
                KeyCode::KEY_STOP, KeyCode::KEY_AGAIN, KeyCode::KEY_PROPS, KeyCode::KEY_UNDO,
                KeyCode::KEY_FRONT, KeyCode::KEY_COPY, KeyCode::KEY_OPEN, KeyCode::KEY_PASTE,
                KeyCode::KEY_FIND, KeyCode::KEY_CUT, KeyCode::KEY_HELP, KeyCode::KEY_MENU,
                KeyCode::KEY_CALC, KeyCode::KEY_SETUP,
            ],
        ),
{
}

/// The keys for applications and the further function keys bear consecutive numbers.
#[verifier::spinoff_prover]
#[verifier::rlimit(40)]
pub proof fn law_numbers_of_application_keys()
    ensures
        numbered_from(
            142,
            seq![
                KeyCode::KEY_SLEEP, KeyCode::KEY_WAKEUP, KeyCode::KEY_FILE,
                KeyCode::KEY_SENDFILE, KeyCode::KEY_DELETEFILE, KeyCode::KEY_XFER,
                KeyCode::KEY_PROG1, KeyCode::KEY_PROG2, KeyCode::KEY_WWW, KeyCode::KEY_MSDOS,
                KeyCode::KEY_SCREENLOCK,
            ],
        ),
        numbered_from(
            153,
            seq![
                KeyCode::KEY_ROTATE_DISPLAY, KeyCode::KEY_CYCLEWINDOWS, KeyCode::KEY_MAIL,
                KeyCode::KEY_BOOKMARKS, KeyCode::KEY_COMPUTER, KeyCode::KEY_BACK,
                KeyCode::KEY_FORWARD, KeyCode::KEY_CLOSECD, KeyCode::KEY_EJECTCD,
                KeyCode::KEY_EJECTCLOSECD,
            ],
        ),
        numbered_from(
            163,
            seq![
                KeyCode::KEY_NEXTSONG, KeyCode::KEY_PLAYPAUSE, KeyCode::KEY_PREVIOUSSONG,
                KeyCode::KEY_STOPCD, KeyCode::KEY_RECORD, KeyCode::KEY_REWIND,
                KeyCode::KEY_PHONE, KeyCode::KEY_ISO, KeyCode::KEY_CONFIG,
            ],
        ),
        numbered_from(
            172,
            seq![
                KeyCode::KEY_HOMEPAGE, KeyCode::KEY_REFRESH, KeyCode::KEY_EXIT,
                KeyCode::KEY_MOVE, KeyCode::KEY_EDIT, KeyCode::KEY_SCROLLUP,
                KeyCode::KEY_SCROLLDOWN, KeyCode::KEY_KPLEFTPAREN, KeyCode::KEY_KPRIGHTPAREN,
                KeyCode::KEY_NEW, KeyCode::KEY_REDO,
            ],
        ),
        numbered_from(
            183,
            seq![
                KeyCode::KEY_F13, KeyCode::KEY_F14, KeyCode::KEY_F15, KeyCode::KEY_F16,
                KeyCode::KEY_F17, KeyCode::KEY_F18, KeyCode::KEY_F19, KeyCode::KEY_F20,
                KeyCode::KEY_F21, KeyCode::KEY_F22, KeyCode::KEY_F23, KeyCode::KEY_F24,
            ],
        ),
{
}

/// The keys for media and devices bear consecutive numbers.
#[verifier::spinoff_prover]
#[verifier::rlimit(40)]
pub proof fn law_numbers_of_media_keys()
    ensures
        numbered_from(
            200,
            seq![
                KeyCode::KEY_PLAYCD, KeyCode::KEY_PAUSECD, KeyCode::KEY_PROG3,
                KeyCode::KEY_PROG4, KeyCode::KEY_ALL_APPLICATIONS, KeyCode::KEY_SUSPEND,
                KeyCode::KEY_CLOSE, KeyCode::KEY_PLAY, KeyCode::KEY_FASTFORWARD,
                KeyCode::KEY_BASSBOOST,
            ],
        ),
        numbered_from(
            210,
            seq![
                KeyCode::KEY_PRINT, KeyCode::KEY_HP, KeyCode::KEY_CAMERA, KeyCode::KEY_SOUND,
                KeyCode::KEY_QUESTION, KeyCode::KEY_EMAIL, KeyCode::KEY_CHAT,
                KeyCode::KEY_SEARCH, KeyCode::KEY_CONNECT, KeyCode::KEY_FINANCE,
            ],
        ),
        numbered_from(
            220,
            seq![
                KeyCode::KEY_SPORT, KeyCode::KEY_SHOP, KeyCode::KEY_ALTERASE,
                KeyCode::KEY_CANCEL, KeyCode::KEY_BRIGHTNESSDOWN, KeyCode::KEY_BRIGHTNESSUP,
                KeyCode::KEY_MEDIA, KeyCode::KEY_SWITCHVIDEOMODE, KeyCode::KEY_KBDILLUMTOGGLE,
                KeyCode::KEY_KBDILLUMDOWN,
            ],
        ),
        numbered_from(
            230,
            seq![
                KeyCode::KEY_KBDILLUMUP, KeyCode::KEY_SEND, KeyCode::KEY_REPLY,
                KeyCode::KEY_FORWARDMAIL, KeyCode::KEY_SAVE, KeyCode::KEY_DOCUMENTS,
                KeyCode::KEY_BATTERY, KeyCode::KEY_BLUETOOTH, KeyCode::KEY_WLAN,
                KeyCode::KEY_UWB,
            ],
        ),
        numbered_from(
            240,
            seq![
                KeyCode::KEY_UNKNOWN, KeyCode::KEY_VIDEO_NEXT, KeyCode::KEY_VIDEO_PREV,
                KeyCode::KEY_BRIGHTNESS_CYCLE, KeyCode::KEY_BRIGHTNESS_AUTO,
                KeyCode::KEY_DISPLAY_OFF, KeyCode::KEY_WWAN, KeyCode::KEY_RFKILL,
                KeyCode::KEY_MICMUTE,
            ],
        ),
{
}

/// The letter keys, in the order of the alphabet.
pub open spec fn letter_keys() -> Seq<KeyCode> {
    seq![
        KeyCode::KEY_A, KeyCode::KEY_B, KeyCode::KEY_C, KeyCode::KEY_D, KeyCode::KEY_E,
        KeyCode::KEY_F, KeyCode::KEY_G, KeyCode::KEY_H, KeyCode::KEY_I, KeyCode::KEY_J,
        KeyCode::KEY_K, KeyCode::KEY_L, KeyCode::KEY_M, KeyCode::KEY_N, KeyCode::KEY_O,
        KeyCode::KEY_P, KeyCode::KEY_Q, KeyCode::KEY_R, KeyCode::KEY_S, KeyCode::KEY_T,
        KeyCode::KEY_U, KeyCode::KEY_V, KeyCode::KEY_W, KeyCode::KEY_X, KeyCode::KEY_Y,
        KeyCode::KEY_Z,
    ]
}

/// The letter keys' names in the windowing layer, in the order of the alphabet.
pub open spec fn letter_names() -> Seq<event::KeyCode> {
    seq![
        event::KeyCode::A, event::KeyCode::B, event::KeyCode::C, event::KeyCode::D,
        event::KeyCode::E, event::KeyCode::F, event::KeyCode::G, event::KeyCode::H,
        event::KeyCode::I, event::KeyCode::J, event::KeyCode::K, event::KeyCode::L,
        event::KeyCode::M, event::KeyCode::N, event::KeyCode::O, event::KeyCode::P,
        event::KeyCode::Q, event::KeyCode::R, event::KeyCode::S, event::KeyCode::T,
        event::KeyCode::U, event::KeyCode::V, event::KeyCode::W, event::KeyCode::X,
        event::KeyCode::Y, event::KeyCode::Z,
    ]
}

/// Each letter key types its letter, small without shift and capital with it, and has the
/// letter's name.
pub proof fn law_letters(i: int)
    requires
        0 <= i < 26,
    ensures
        ({
            let code = letter_keys()[i].code() as int;
            &&& crate::keys::us_layout(code) matches Some((plain, shifted)) && plain as int == 97
                + i && shifted as int == 65 + i
            &&& crate::keys::window_key(code) == Some(letter_names()[i])
        }),
{
}

/// The digit keys of the main block, from 0 on.
pub open spec fn digit_keys() -> Seq<KeyCode> {
    seq![
        KeyCode::KEY_0, KeyCode::KEY_1, KeyCode::KEY_2, KeyCode::KEY_3, KeyCode::KEY_4,
        KeyCode::KEY_5, KeyCode::KEY_6, KeyCode::KEY_7, KeyCode::KEY_8, KeyCode::KEY_9,
    ]
}

/// The digit keys of the keypad, from 0 on.
pub open spec fn keypad_digit_keys() -> Seq<KeyCode> {
    seq![
        KeyCode::KEY_KP0, KeyCode::KEY_KP1, KeyCode::KEY_KP2, KeyCode::KEY_KP3,
        KeyCode::KEY_KP4, KeyCode::KEY_KP5, KeyCode::KEY_KP6, KeyCode::KEY_KP7,
        KeyCode::KEY_KP8, KeyCode::KEY_KP9,
    ]
}

/// The digit keys' names in the windowing layer, from 0 on.
pub open spec fn digit_names() -> Seq<event::KeyCode> {
    seq![
        event::KeyCode::Key0, event::KeyCode::Key1, event::KeyCode::Key2, event::KeyCode::Key3,
        event::KeyCode::Key4, event::KeyCode::Key5, event::KeyCode::Key6, event::KeyCode::Key7,
        event::KeyCode::Key8, event::KeyCode::Key9,
    ]
}

/// The names of the keypad's digit keys in the windowing layer, from 0 on.
pub open spec fn keypad_digit_names() -> Seq<event::KeyCode> {
    seq![
        event::KeyCode::Kp0, event::KeyCode::Kp1, event::KeyCode::Kp2, event::KeyCode::Kp3,
        event::KeyCode::Kp4, event::KeyCode::Kp5, event::KeyCode::Kp6, event::KeyCode::Kp7,
        event::KeyCode::Kp8, event::KeyCode::Kp9,
    ]
}

/// Each digit key types its digit without shift and the digit's sign with it, on the keypad as
/// in the main block, and has the digit's name.
pub proof fn law_digits(i: int)
    requires
        0 <= i < 10,
    ensures
        ({
            let code = digit_keys()[i].code() as int;
            let keypad = keypad_digit_keys()[i].code() as int;
            &&& crate::keys::us_layout(code) matches Some((plain, shifted)) && plain as int == 48
                + i && shifted == seq![')', '!', '@', '#', '$', '%', '^', '&', '*', '('][i]
            &&& crate::keys::us_layout(keypad) == crate::keys::us_layout(code)
            &&& crate::keys::window_key(code) == Some(digit_names()[i])
            &&& crate::keys::window_key(keypad) == Some(keypad_digit_names()[i])
        }),
{
}

/// The function keys, from the first on.
pub open spec fn function_keys() -> Seq<KeyCode> {
    seq![
        KeyCode::KEY_F1, KeyCode::KEY_F2, KeyCode::KEY_F3, KeyCode::KEY_F4, KeyCode::KEY_F5,
        KeyCode::KEY_F6, KeyCode::KEY_F7, KeyCode::KEY_F8, KeyCode::KEY_F9, KeyCode::KEY_F10,
        KeyCode::KEY_F11, KeyCode::KEY_F12, KeyCode::KEY_F13, KeyCode::KEY_F14,
        KeyCode::KEY_F15, KeyCode::KEY_F16, KeyCode::KEY_F17, KeyCode::KEY_F18,
        KeyCode::KEY_F19, KeyCode::KEY_F20, KeyCode::KEY_F21, KeyCode::KEY_F22,
        KeyCode::KEY_F23, KeyCode::KEY_F24,
    ]
}

/// The function keys' names in the windowing layer, from the first on.
pub open spec fn function_names() -> Seq<event::KeyCode> {
    seq![
        event::KeyCode::F1, event::KeyCode::F2, event::KeyCode::F3, event::KeyCode::F4,
        event::KeyCode::F5, event::KeyCode::F6, event::KeyCode::F7, event::KeyCode::F8,
        event::KeyCode::F9, event::KeyCode::F10, event::KeyCode::F11, event::KeyCode::F12,
        event::KeyCode::F13, event::KeyCode::F14, event::KeyCode::F15, event::KeyCode::F16,
        event::KeyCode::F17, event::KeyCode::F18, event::KeyCode::F19, event::KeyCode::F20,
        event::KeyCode::F21, event::KeyCode::F22, event::KeyCode::F23, event::KeyCode::F24,
    ]
}

/// Each function key has the name with its number and types nothing.
pub proof fn law_function_keys(i: int)
    requires
        0 <= i < 24,
    ensures
        crate::keys::window_key(function_keys()[i].code() as int) == Some(function_names()[i]),
        crate::keys::us_layout(function_keys()[i].code() as int) is None,
{
}

/// The keys with signs, and those for blanks.
pub open spec fn sign_keys() -> Seq<KeyCode> {
    seq![
        KeyCode::KEY_MINUS, KeyCode::KEY_EQUAL, KeyCode::KEY_LEFTBRACE, KeyCode::KEY_RIGHTBRACE,
        KeyCode::KEY_SEMICOLON, KeyCode::KEY_APOSTROPHE, KeyCode::KEY_GRAVE,
        KeyCode::KEY_BACKSLASH, KeyCode::KEY_COMMA, KeyCode::KEY_DOT, KeyCode::KEY_SLASH,
        KeyCode::KEY_SPACE, KeyCode::KEY_TAB, KeyCode::KEY_KPASTERISK, KeyCode::KEY_KPMINUS,
        KeyCode::KEY_KPPLUS, KeyCode::KEY_KPDOT,
    ]
}

/// What these keys type without shift.
pub open spec fn plain_signs() -> Seq<char> {
    seq!['-', '=', '[', ']', ';', '\'', '`', '\\', ',', '.', '/', ' ', '\t', '*', '-', '=', '.']
}

/// What these keys type with shift.
pub open spec fn shifted_signs() -> Seq<char> {
    seq!['_', '+', '{', '}', ':', '"', '~', '|', '<', '>', '?', ' ', '\t', '*', '_', '+', '>']
}

/// The names of these keys in the windowing layer.
pub open spec fn sign_names() -> Seq<event::KeyCode> {
    seq![
        event::KeyCode::Minus, event::KeyCode::Equal, event::KeyCode::LeftBracket,
        event::KeyCode::RightBracket, event::KeyCode::Semicolon, event::KeyCode::Apostrophe,
        event::KeyCode::GraveAccent, event::KeyCode::Backslash, event::KeyCode::Comma,
        event::KeyCode::Period, event::KeyCode::Slash, event::KeyCode::Space,
        event::KeyCode::Tab, event::KeyCode::KpMultiply, event::KeyCode::KpSubtract,
        event::KeyCode::KpAdd, event::KeyCode::KpDecimal,
    ]
}

/// Each key with a sign types it without shift and the one above it with shift, and has the
/// sign's name. The blanks and the keypad's asterisk are the same with shift.
pub proof fn law_signs(i: int)
    requires
        0 <= i < 17,
    ensures
        crate::keys::us_layout(sign_keys()[i].code() as int) == Some(
            (plain_signs()[i], shifted_signs()[i]),
        ),
        crate::keys::window_key(sign_keys()[i].code() as int) == Some(sign_names()[i]),
{
}

/// The other keys that the windowing layer knows: those for control and editing, those that
/// move, the locks and the modifiers.
pub open spec fn other_keys() -> Seq<KeyCode> {
    seq![
        KeyCode::KEY_ESC, KeyCode::KEY_ENTER, KeyCode::KEY_BACKSPACE, KeyCode::KEY_INSERT,
        KeyCode::KEY_DELETE, KeyCode::KEY_RIGHT, KeyCode::KEY_LEFT, KeyCode::KEY_DOWN,
        KeyCode::KEY_UP, KeyCode::KEY_PAGEUP, KeyCode::KEY_PAGEDOWN, KeyCode::KEY_HOME,
        KeyCode::KEY_END, KeyCode::KEY_CAPSLOCK, KeyCode::KEY_SCROLLLOCK, KeyCode::KEY_NUMLOCK,
        KeyCode::KEY_PAUSE, KeyCode::KEY_KPSLASH, KeyCode::KEY_KPENTER, KeyCode::KEY_KPEQUAL,
        KeyCode::KEY_LEFTSHIFT, KeyCode::KEY_LEFTCTRL, KeyCode::KEY_LEFTALT,
        KeyCode::KEY_LEFTMETA, KeyCode::KEY_RIGHTSHIFT, KeyCode::KEY_RIGHTCTRL,
        KeyCode::KEY_RIGHTALT, KeyCode::KEY_RIGHTMETA, KeyCode::KEY_MENU, KeyCode::KEY_UNKNOWN,
    ]
}

/// The names of these keys in the windowing layer.
pub open spec fn other_names() -> Seq<event::KeyCode> {
    seq![
        event::KeyCode::Escape, event::KeyCode::Enter, event::KeyCode::Backspace,
        event::KeyCode::Insert, event::KeyCode::Delete, event::KeyCode::Right,
        event::KeyCode::Left, event::KeyCode::Down, event::KeyCode::Up, event::KeyCode::PageUp,
        event::KeyCode::PageDown, event::KeyCode::Home, event::KeyCode::End,
        event::KeyCode::CapsLock, event::KeyCode::ScrollLock, event::KeyCode::NumLock,
        event::KeyCode::Pause, event::KeyCode::KpDivide, event::KeyCode::KpEnter,
        event::KeyCode::KpEqual, event::KeyCode::LeftShift, event::KeyCode::LeftControl,
        event::KeyCode::LeftAlt, event::KeyCode::LeftSuper, event::KeyCode::RightShift,
        event::KeyCode::RightControl, event::KeyCode::RightAlt, event::KeyCode::RightSuper,
        event::KeyCode::Menu, event::KeyCode::Unknown,
    ]
}

/// Each of the other keys has its own name and types nothing.
pub proof fn law_other_keys(i: int)
    requires
        0 <= i < 30,
    ensures
        crate::keys::window_key(other_keys()[i].code() as int) == Some(other_names()[i]),
        crate::keys::us_layout(other_keys()[i].code() as int) is None,
{
}

/// The windowing layer knows the keys numbered up to 83 but the reserved one, and the further
/// ones listed here; it knows no others.
pub proof fn law_which_keys_have_names(code: int)
    ensures
        crate::keys::window_key(code) is Some <==> {
            ||| 1 <= code <= 83
            ||| 87 <= code <= 88
            ||| 96 <= code <= 98
            ||| code == 100
            ||| 102 <= code <= 111
            ||| code == 117
            ||| code == 119
            ||| 125 <= code <= 126
            ||| code == 139
            ||| 183 <= code <= 194
            ||| code == 240
        },
{
}

/// The keys that type are those of the four main rows, with tab and space, and those of the
/// keypad with a digit or a sign.
pub proof fn law_which_keys_type(code: int)
    ensures
        crate::keys::us_layout(code) is Some <==> {
            ||| 2 <= code <= 13
            ||| 15 <= code <= 27
            ||| 30 <= code <= 41
            ||| 43 <= code <= 53
            ||| code == 55
            ||| code == 57
            ||| 71 <= code <= 83
        },
{
}

} // verus!
