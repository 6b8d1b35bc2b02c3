//! Key codes of the Linux input subsystem and the US keyboard layout.

use vstd::prelude::*;

use crate::event;

verus! {

/// A key, named as in the kernel's `input-event-codes.h`.
#[derive(Debug, Copy, Clone, PartialEq, Eq, PartialOrd, Ord, Structural)]
pub enum KeyCode {
    KEY_RESERVED,
    KEY_ESC,
    KEY_1,
    KEY_2,
    KEY_3,
    KEY_4,
    KEY_5,
    KEY_6,
    KEY_7,
    KEY_8,
    KEY_9,
    KEY_0,
    KEY_MINUS,
    KEY_EQUAL,
    KEY_BACKSPACE,
    KEY_TAB,
    KEY_Q,
    KEY_W,
    KEY_E,
    KEY_R,
    KEY_T,
    KEY_Y,
    KEY_U,
    KEY_I,
    KEY_O,
    KEY_P,
    KEY_LEFTBRACE,
    KEY_RIGHTBRACE,
    KEY_ENTER,
    KEY_LEFTCTRL,
    KEY_A,
    KEY_S,
    KEY_D,
    KEY_F,
    KEY_G,
    KEY_H,
    KEY_J,
    KEY_K,
    KEY_L,
    KEY_SEMICOLON,
    KEY_APOSTROPHE,
    KEY_GRAVE,
    KEY_LEFTSHIFT,
    KEY_BACKSLASH,
    KEY_Z,
    KEY_X,
    KEY_C,
    KEY_V,
    KEY_B,
    KEY_N,
    KEY_M,
    KEY_COMMA,
    KEY_DOT,
    KEY_SLASH,
    KEY_RIGHTSHIFT,
    KEY_KPASTERISK,
    KEY_LEFTALT,
    KEY_SPACE,
    KEY_CAPSLOCK,
    KEY_F1,
    KEY_F2,
    KEY_F3,
    KEY_F4,
    KEY_F5,
    KEY_F6,
    KEY_F7,
    KEY_F8,
    KEY_F9,
    KEY_F10,
    KEY_NUMLOCK,
    KEY_SCROLLLOCK,
    KEY_KP7,
    KEY_KP8,
    KEY_KP9,
    KEY_KPMINUS,
    KEY_KP4,
    KEY_KP5,
    KEY_KP6,
    KEY_KPPLUS,
    KEY_KP1,
    KEY_KP2,
    KEY_KP3,
    KEY_KP0,
    KEY_KPDOT,
    KEY_ZENKAKUHANKAKU,
    KEY_102ND,
    KEY_F11,
    KEY_F12,
    KEY_RO,
    KEY_KATAKANA,
    KEY_HIRAGANA,
    KEY_HENKAN,
    KEY_KATAKANAHIRAGANA,
    KEY_MUHENKAN,
    KEY_KPJPCOMMA,
    KEY_KPENTER,
    KEY_RIGHTCTRL,
    KEY_KPSLASH,
    KEY_SYSRQ,
    KEY_RIGHTALT,
    KEY_LINEFEED,
    KEY_HOME,
    KEY_UP,
    KEY_PAGEUP,
    KEY_LEFT,
    KEY_RIGHT,
    KEY_END,
    KEY_DOWN,
    KEY_PAGEDOWN,
    KEY_INSERT,
    KEY_DELETE,
    KEY_MACRO,
    KEY_MUTE,
    KEY_VOLUMEDOWN,
    KEY_VOLUMEUP,
    KEY_POWER,
    KEY_KPEQUAL,
    KEY_KPPLUSMINUS,
    KEY_PAUSE,
    KEY_SCALE,
    KEY_KPCOMMA,
    KEY_HANGEUL,
    KEY_HANJA,
    KEY_YEN,
    KEY_LEFTMETA,
    KEY_RIGHTMETA,
    KEY_COMPOSE,
    KEY_STOP,
    KEY_AGAIN,
    KEY_PROPS,
    KEY_UNDO,
    KEY_FRONT,
    KEY_COPY,
    KEY_OPEN,
    KEY_PASTE,
    KEY_FIND,
    KEY_CUT,
    KEY_HELP,
    KEY_MENU,
    KEY_CALC,
    KEY_SETUP,
    KEY_SLEEP,
    KEY_WAKEUP,
    KEY_FILE,
    KEY_SENDFILE,
    KEY_DELETEFILE,
    KEY_XFER,
    KEY_PROG1,
    KEY_PROG2,
    KEY_WWW,
    KEY_MSDOS,
    KEY_SCREENLOCK,
    KEY_ROTATE_DISPLAY,
    KEY_CYCLEWINDOWS,
    KEY_MAIL,
    KEY_BOOKMARKS,
    KEY_COMPUTER,
    KEY_BACK,
    KEY_FORWARD,
    KEY_CLOSECD,
    KEY_EJECTCD,
    KEY_EJECTCLOSECD,
    KEY_NEXTSONG,
    KEY_PLAYPAUSE,
    KEY_PREVIOUSSONG,
    KEY_STOPCD,
    KEY_RECORD,
    KEY_REWIND,
    KEY_PHONE,
    KEY_ISO,
    KEY_CONFIG,
    KEY_HOMEPAGE,
    KEY_REFRESH,
    KEY_EXIT,
    KEY_MOVE,
    KEY_EDIT,
    KEY_SCROLLUP,
    KEY_SCROLLDOWN,
    KEY_KPLEFTPAREN,
    KEY_KPRIGHTPAREN,
    KEY_NEW,
    KEY_REDO,
    KEY_F13,
    KEY_F14,
    KEY_F15,
    KEY_F16,
    KEY_F17,
    KEY_F18,
    KEY_F19,
    KEY_F20,
    KEY_F21,
    KEY_F22,
    KEY_F23,
    KEY_F24,
    KEY_PLAYCD,
    KEY_PAUSECD,
    KEY_PROG3,
    KEY_PROG4,
    KEY_ALL_APPLICATIONS,
    KEY_SUSPEND,
    KEY_CLOSE,
    KEY_PLAY,
    KEY_FASTFORWARD,
    KEY_BASSBOOST,
    KEY_PRINT,
    KEY_HP,
    KEY_CAMERA,
    KEY_SOUND,
    KEY_QUESTION,
    KEY_EMAIL,
    KEY_CHAT,
    KEY_SEARCH,
    KEY_CONNECT,
    KEY_FINANCE,
    KEY_SPORT,
    KEY_SHOP,
    KEY_ALTERASE,
    KEY_CANCEL,
    KEY_BRIGHTNESSDOWN,
    KEY_BRIGHTNESSUP,
    KEY_MEDIA,
    KEY_SWITCHVIDEOMODE,
    KEY_KBDILLUMTOGGLE,
    KEY_KBDILLUMDOWN,
    KEY_KBDILLUMUP,
    KEY_SEND,
    KEY_REPLY,
    KEY_FORWARDMAIL,
    KEY_SAVE,
    KEY_DOCUMENTS,
    KEY_BATTERY,
    KEY_BLUETOOTH,
    KEY_WLAN,
    KEY_UWB,
    KEY_UNKNOWN,
    KEY_VIDEO_NEXT,
    KEY_VIDEO_PREV,
    KEY_BRIGHTNESS_CYCLE,
    KEY_BRIGHTNESS_AUTO,
    KEY_DISPLAY_OFF,
    KEY_WWAN,
    KEY_RFKILL,
    KEY_MICMUTE,
}

/// Another name of the key that locks the screen.
pub const KEY_COFFEE: KeyCode = KeyCode::KEY_SCREENLOCK;

/// Another name of the key that rotates the display.
pub const KEY_DIRECTION: KeyCode = KeyCode::KEY_ROTATE_DISPLAY;

/// Another name of the key that shows all applications.
pub const KEY_DASHBOARD: KeyCode = KeyCode::KEY_ALL_APPLICATIONS;

/// Another name of the key that leaves the brightness to the machine.
pub const KEY_BRIGHTNESS_ZERO: KeyCode = KeyCode::KEY_BRIGHTNESS_AUTO;

/// Another name of the key for the mobile network.
pub const KEY_WIMAX: KeyCode = KeyCode::KEY_WWAN;

/// `code` is one of the numbers the kernel gives to a key known here.
pub open spec fn is_assigned(code: u16) -> bool {
    code <= 83 || 85 <= code <= 194 || 200 <= code <= 248
}

/// The key that bears the number `code`, if there is one.
pub open spec fn key_with_code(code: u16) -> Option<KeyCode> {
    match code {
        0 => Some(KeyCode::KEY_RESERVED),
        1 => Some(KeyCode::KEY_ESC),
        2 => Some(KeyCode::KEY_1),
        3 => Some(KeyCode::KEY_2),
        4 => Some(KeyCode::KEY_3),
        5 => Some(KeyCode::KEY_4),
        6 => Some(KeyCode::KEY_5),
        7 => Some(KeyCode::KEY_6),
        8 => Some(KeyCode::KEY_7),
        9 => Some(KeyCode::KEY_8),
        10 => Some(KeyCode::KEY_9),
        11 => Some(KeyCode::KEY_0),
        12 => Some(KeyCode::KEY_MINUS),
        13 => Some(KeyCode::KEY_EQUAL),
        14 => Some(KeyCode::KEY_BACKSPACE),
        15 => Some(KeyCode::KEY_TAB),
        16 => Some(KeyCode::KEY_Q),
        17 => Some(KeyCode::KEY_W),
        18 => Some(KeyCode::KEY_E),
        19 => Some(KeyCode::KEY_R),
        20 => Some(KeyCode::KEY_T),
        21 => Some(KeyCode::KEY_Y),
        22 => Some(KeyCode::KEY_U),
        23 => Some(KeyCode::KEY_I),
        24 => Some(KeyCode::KEY_O),
        25 => Some(KeyCode::KEY_P),
        26 => Some(KeyCode::KEY_LEFTBRACE),
        27 => Some(KeyCode::KEY_RIGHTBRACE),
        28 => Some(KeyCode::KEY_ENTER),
        29 => Some(KeyCode::KEY_LEFTCTRL),
        30 => Some(KeyCode::KEY_A),
        31 => Some(KeyCode::KEY_S),
        32 => Some(KeyCode::KEY_D),
        33 => Some(KeyCode::KEY_F),
        34 => Some(KeyCode::KEY_G),
        35 => Some(KeyCode::KEY_H),
        36 => Some(KeyCode::KEY_J),
        37 => Some(KeyCode::KEY_K),
        38 => Some(KeyCode::KEY_L),
        39 => Some(KeyCode::KEY_SEMICOLON),
        40 => Some(KeyCode::KEY_APOSTROPHE),
        41 => Some(KeyCode::KEY_GRAVE),
        42 => Some(KeyCode::KEY_LEFTSHIFT),
        43 => Some(KeyCode::KEY_BACKSLASH),
        44 => Some(KeyCode::KEY_Z),
        45 => Some(KeyCode::KEY_X),
        46 => Some(KeyCode::KEY_C),
        47 => Some(KeyCode::KEY_V),
        48 => Some(KeyCode::KEY_B),
        49 => Some(KeyCode::KEY_N),
        50 => Some(KeyCode::KEY_M),
        51 => Some(KeyCode::KEY_COMMA),
        52 => Some(KeyCode::KEY_DOT),
        53 => Some(KeyCode::KEY_SLASH),
        54 => Some(KeyCode::KEY_RIGHTSHIFT),
        55 => Some(KeyCode::KEY_KPASTERISK),
        56 => Some(KeyCode::KEY_LEFTALT),
        57 => Some(KeyCode::KEY_SPACE),
        58 => Some(KeyCode::KEY_CAPSLOCK),
        59 => Some(KeyCode::KEY_F1),
        60 => Some(KeyCode::KEY_F2),
        61 => Some(KeyCode::KEY_F3),
        62 => Some(KeyCode::KEY_F4),
        63 => Some(KeyCode::KEY_F5),
        64 => Some(KeyCode::KEY_F6),
        65 => Some(KeyCode::KEY_F7),
        66 => Some(KeyCode::KEY_F8),
        67 => Some(KeyCode::KEY_F9),
        68 => Some(KeyCode::KEY_F10),
        69 => Some(KeyCode::KEY_NUMLOCK),
        70 => Some(KeyCode::KEY_SCROLLLOCK),
        71 => Some(KeyCode::KEY_KP7),
        72 => Some(KeyCode::KEY_KP8),
        73 => Some(KeyCode::KEY_KP9),
        74 => Some(KeyCode::KEY_KPMINUS),
        75 => Some(KeyCode::KEY_KP4),
        76 => Some(KeyCode::KEY_KP5),
        77 => Some(KeyCode::KEY_KP6),
        78 => Some(KeyCode::KEY_KPPLUS),
        79 => Some(KeyCode::KEY_KP1),
        80 => Some(KeyCode::KEY_KP2),
        81 => Some(KeyCode::KEY_KP3),
        82 => Some(KeyCode::KEY_KP0),
        83 => Some(KeyCode::KEY_KPDOT),
        85 => Some(KeyCode::KEY_ZENKAKUHANKAKU),
        86 => Some(KeyCode::KEY_102ND),
        87 => Some(KeyCode::KEY_F11),
        88 => Some(KeyCode::KEY_F12),
        89 => Some(KeyCode::KEY_RO),
        90 => Some(KeyCode::KEY_KATAKANA),
        91 => Some(KeyCode::KEY_HIRAGANA),
        92 => Some(KeyCode::KEY_HENKAN),
        93 => Some(KeyCode::KEY_KATAKANAHIRAGANA),
        94 => Some(KeyCode::KEY_MUHENKAN),
        95 => Some(KeyCode::KEY_KPJPCOMMA),
        96 => Some(KeyCode::KEY_KPENTER),
        97 => Some(KeyCode::KEY_RIGHTCTRL),
        98 => Some(KeyCode::KEY_KPSLASH),
        99 => Some(KeyCode::KEY_SYSRQ),
        100 => Some(KeyCode::KEY_RIGHTALT),
        101 => Some(KeyCode::KEY_LINEFEED),
        102 => Some(KeyCode::KEY_HOME),
        103 => Some(KeyCode::KEY_UP),
        104 => Some(KeyCode::KEY_PAGEUP),
        105 => Some(KeyCode::KEY_LEFT),
        106 => Some(KeyCode::KEY_RIGHT),
        107 => Some(KeyCode::KEY_END),
        108 => Some(KeyCode::KEY_DOWN),
        109 => Some(KeyCode::KEY_PAGEDOWN),
        110 => Some(KeyCode::KEY_INSERT),
        111 => Some(KeyCode::KEY_DELETE),
        112 => Some(KeyCode::KEY_MACRO),
        113 => Some(KeyCode::KEY_MUTE),
        114 => Some(KeyCode::KEY_VOLUMEDOWN),
        115 => Some(KeyCode::KEY_VOLUMEUP),
        116 => Some(KeyCode::KEY_POWER),
        117 => Some(KeyCode::KEY_KPEQUAL),
        118 => Some(KeyCode::KEY_KPPLUSMINUS),
        119 => Some(KeyCode::KEY_PAUSE),
        120 => Some(KeyCode::KEY_SCALE),
        121 => Some(KeyCode::KEY_KPCOMMA),
        122 => Some(KeyCode::KEY_HANGEUL),
        123 => Some(KeyCode::KEY_HANJA),
        124 => Some(KeyCode::KEY_YEN),
        125 => Some(KeyCode::KEY_LEFTMETA),
        126 => Some(KeyCode::KEY_RIGHTMETA),
        127 => Some(KeyCode::KEY_COMPOSE),
        128 => Some(KeyCode::KEY_STOP),
        129 => Some(KeyCode::KEY_AGAIN),
        130 => Some(KeyCode::KEY_PROPS),
        131 => Some(KeyCode::KEY_UNDO),
        132 => Some(KeyCode::KEY_FRONT),
        133 => Some(KeyCode::KEY_COPY),
        134 => Some(KeyCode::KEY_OPEN),
        135 => Some(KeyCode::KEY_PASTE),
        136 => Some(KeyCode::KEY_FIND),
        137 => Some(KeyCode::KEY_CUT),
        138 => Some(KeyCode::KEY_HELP),
        139 => Some(KeyCode::KEY_MENU),
        140 => Some(KeyCode::KEY_CALC),
        141 => Some(KeyCode::KEY_SETUP),
        142 => Some(KeyCode::KEY_SLEEP),
        143 => Some(KeyCode::KEY_WAKEUP),
        144 => Some(KeyCode::KEY_FILE),
        145 => Some(KeyCode::KEY_SENDFILE),
        146 => Some(KeyCode::KEY_DELETEFILE),
        147 => Some(KeyCode::KEY_XFER),
        148 => Some(KeyCode::KEY_PROG1),
        149 => Some(KeyCode::KEY_PROG2),
        150 => Some(KeyCode::KEY_WWW),
        151 => Some(KeyCode::KEY_MSDOS),
        152 => Some(KeyCode::KEY_SCREENLOCK),
        153 => Some(KeyCode::KEY_ROTATE_DISPLAY),
        154 => Some(KeyCode::KEY_CYCLEWINDOWS),
        155 => Some(KeyCode::KEY_MAIL),
        156 => Some(KeyCode::KEY_BOOKMARKS),
        157 => Some(KeyCode::KEY_COMPUTER),
        158 => Some(KeyCode::KEY_BACK),
        159 => Some(KeyCode::KEY_FORWARD),
        160 => Some(KeyCode::KEY_CLOSECD),
        161 => Some(KeyCode::KEY_EJECTCD),
        162 => Some(KeyCode::KEY_EJECTCLOSECD),
        163 => Some(KeyCode::KEY_NEXTSONG),
        164 => Some(KeyCode::KEY_PLAYPAUSE),
        165 => Some(KeyCode::KEY_PREVIOUSSONG),
        166 => Some(KeyCode::KEY_STOPCD),
        167 => Some(KeyCode::KEY_RECORD),
        168 => Some(KeyCode::KEY_REWIND),
        169 => Some(KeyCode::KEY_PHONE),
        170 => Some(KeyCode::KEY_ISO),
        171 => Some(KeyCode::KEY_CONFIG),
        172 => Some(KeyCode::KEY_HOMEPAGE),
        173 => Some(KeyCode::KEY_REFRESH),
        174 => Some(KeyCode::KEY_EXIT),
        175 => Some(KeyCode::KEY_MOVE),
        176 => Some(KeyCode::KEY_EDIT),
        177 => Some(KeyCode::KEY_SCROLLUP),
        178 => Some(KeyCode::KEY_SCROLLDOWN),
        179 => Some(KeyCode::KEY_KPLEFTPAREN),
        180 => Some(KeyCode::KEY_KPRIGHTPAREN),
        181 => Some(KeyCode::KEY_NEW),
        182 => Some(KeyCode::KEY_REDO),
        183 => Some(KeyCode::KEY_F13),
        184 => Some(KeyCode::KEY_F14),
        185 => Some(KeyCode::KEY_F15),
        186 => Some(KeyCode::KEY_F16),
        187 => Some(KeyCode::KEY_F17),
        188 => Some(KeyCode::KEY_F18),
        189 => Some(KeyCode::KEY_F19),
        190 => Some(KeyCode::KEY_F20),
        191 => Some(KeyCode::KEY_F21),
        192 => Some(KeyCode::KEY_F22),
        193 => Some(KeyCode::KEY_F23),
        194 => Some(KeyCode::KEY_F24),
        200 => Some(KeyCode::KEY_PLAYCD),
        201 => Some(KeyCode::KEY_PAUSECD),
        202 => Some(KeyCode::KEY_PROG3),
        203 => Some(KeyCode::KEY_PROG4),
        204 => Some(KeyCode::KEY_ALL_APPLICATIONS),
        205 => Some(KeyCode::KEY_SUSPEND),
        206 => Some(KeyCode::KEY_CLOSE),
        207 => Some(KeyCode::KEY_PLAY),
        208 => Some(KeyCode::KEY_FASTFORWARD),
        209 => Some(KeyCode::KEY_BASSBOOST),
        210 => Some(KeyCode::KEY_PRINT),
        211 => Some(KeyCode::KEY_HP),
        212 => Some(KeyCode::KEY_CAMERA),
        213 => Some(KeyCode::KEY_SOUND),
        214 => Some(KeyCode::KEY_QUESTION),
        215 => Some(KeyCode::KEY_EMAIL),
        216 => Some(KeyCode::KEY_CHAT),
        217 => Some(KeyCode::KEY_SEARCH),
        218 => Some(KeyCode::KEY_CONNECT),
        219 => Some(KeyCode::KEY_FINANCE),
        220 => Some(KeyCode::KEY_SPORT),
        221 => Some(KeyCode::KEY_SHOP),
        222 => Some(KeyCode::KEY_ALTERASE),
        223 => Some(KeyCode::KEY_CANCEL),
        224 => Some(KeyCode::KEY_BRIGHTNESSDOWN),
        225 => Some(KeyCode::KEY_BRIGHTNESSUP),
        226 => Some(KeyCode::KEY_MEDIA),
        227 => Some(KeyCode::KEY_SWITCHVIDEOMODE),
        228 => Some(KeyCode::KEY_KBDILLUMTOGGLE),
        229 => Some(KeyCode::KEY_KBDILLUMDOWN),
        230 => Some(KeyCode::KEY_KBDILLUMUP),
        231 => Some(KeyCode::KEY_SEND),
        232 => Some(KeyCode::KEY_REPLY),
        233 => Some(KeyCode::KEY_FORWARDMAIL),
        234 => Some(KeyCode::KEY_SAVE),
        235 => Some(KeyCode::KEY_DOCUMENTS),
        236 => Some(KeyCode::KEY_BATTERY),
        237 => Some(KeyCode::KEY_BLUETOOTH),
        238 => Some(KeyCode::KEY_WLAN),
        239 => Some(KeyCode::KEY_UWB),
        240 => Some(KeyCode::KEY_UNKNOWN),
        241 => Some(KeyCode::KEY_VIDEO_NEXT),
        242 => Some(KeyCode::KEY_VIDEO_PREV),
        243 => Some(KeyCode::KEY_BRIGHTNESS_CYCLE),
        244 => Some(KeyCode::KEY_BRIGHTNESS_AUTO),
        245 => Some(KeyCode::KEY_DISPLAY_OFF),
        246 => Some(KeyCode::KEY_WWAN),
        247 => Some(KeyCode::KEY_RFKILL),
        248 => Some(KeyCode::KEY_MICMUTE),
        _ => None,
    }
}

/// The key that stands for `code` in an event: an unassigned number is reported as
/// `KEY_UNKNOWN`.
pub open spec fn key_or_unknown(code: u16) -> KeyCode {
    match key_with_code(code) {
        Some(key) => key,
        None => KeyCode::KEY_UNKNOWN,
    }
}

/// The windowing layer's name for the key numbered `code`: the main block and the keypad
/// row by row, then the keys beyond them.
pub open spec fn window_key(code: int) -> Option<event::KeyCode> {
    if 1 <= code <= 15 {
        Some(
            seq![
                event::KeyCode::Escape, event::KeyCode::Key1, event::KeyCode::Key2,
                event::KeyCode::Key3, event::KeyCode::Key4, event::KeyCode::Key5,
                event::KeyCode::Key6, event::KeyCode::Key7, event::KeyCode::Key8,
                event::KeyCode::Key9, event::KeyCode::Key0, event::KeyCode::Minus,
                event::KeyCode::Equal, event::KeyCode::Backspace, event::KeyCode::Tab
            ][code - 1],
        )
    } else if 16 <= code <= 29 {
        Some(
            seq![
                event::KeyCode::Q, event::KeyCode::W, event::KeyCode::E, event::KeyCode::R,
                event::KeyCode::T, event::KeyCode::Y, event::KeyCode::U, event::KeyCode::I,
                event::KeyCode::O, event::KeyCode::P, event::KeyCode::LeftBracket,
                event::KeyCode::RightBracket, event::KeyCode::Enter, event::KeyCode::LeftControl
            ][code - 16],
        )
    } else if 30 <= code <= 43 {
        Some(
            seq![
                event::KeyCode::A, event::KeyCode::S, event::KeyCode::D, event::KeyCode::F,
                event::KeyCode::G, event::KeyCode::H, event::KeyCode::J, event::KeyCode::K,
                event::KeyCode::L, event::KeyCode::Semicolon, event::KeyCode::Apostrophe,
                event::KeyCode::GraveAccent, event::KeyCode::LeftShift, event::KeyCode::Backslash
            ][code - 30],
        )
    } else if 44 <= code <= 58 {
        Some(
            seq![
                event::KeyCode::Z, event::KeyCode::X, event::KeyCode::C, event::KeyCode::V,
                event::KeyCode::B, event::KeyCode::N, event::KeyCode::M, event::KeyCode::Comma,
                event::KeyCode::Period, event::KeyCode::Slash, event::KeyCode::RightShift,
                event::KeyCode::KpMultiply, event::KeyCode::LeftAlt, event::KeyCode::Space,
                event::KeyCode::CapsLock
            ][code - 44],
        )
    } else if 59 <= code <= 70 {
        Some(
            seq![
                event::KeyCode::F1, event::KeyCode::F2, event::KeyCode::F3, event::KeyCode::F4,
                event::KeyCode::F5, event::KeyCode::F6, event::KeyCode::F7, event::KeyCode::F8,
                event::KeyCode::F9, event::KeyCode::F10, event::KeyCode::NumLock,
                event::KeyCode::ScrollLock
            ][code - 59],
        )
    } else if 71 <= code <= 83 {
        Some(
            seq![
                event::KeyCode::Kp7, event::KeyCode::Kp8, event::KeyCode::Kp9,
                event::KeyCode::KpSubtract, event::KeyCode::Kp4, event::KeyCode::Kp5,
                event::KeyCode::Kp6, event::KeyCode::KpAdd, event::KeyCode::Kp1,
                event::KeyCode::Kp2, event::KeyCode::Kp3, event::KeyCode::Kp0,
                event::KeyCode::KpDecimal
            ][code - 71],
        )
    } else if 102 <= code <= 111 {
        Some(
            seq![
                event::KeyCode::Home, event::KeyCode::Up, event::KeyCode::PageUp,
                event::KeyCode::Left, event::KeyCode::Right, event::KeyCode::End,
                event::KeyCode::Down, event::KeyCode::PageDown, event::KeyCode::Insert,
                event::KeyCode::Delete
            ][code - 102],
        )
    } else if 183 <= code <= 194 {
        Some(
            seq![
                event::KeyCode::F13, event::KeyCode::F14, event::KeyCode::F15,
                event::KeyCode::F16, event::KeyCode::F17, event::KeyCode::F18,
                event::KeyCode::F19, event::KeyCode::F20, event::KeyCode::F21,
                event::KeyCode::F22, event::KeyCode::F23, event::KeyCode::F24
            ][code - 183],
        )
    } else {
        other_window_key(code)
    }
}

/// The windowing layer's name for the keys that stand alone in the kernel's numbering.
pub open spec fn other_window_key(code: int) -> Option<event::KeyCode> {
    if code == 87 {
        Some(event::KeyCode::F11)
    } else if code == 88 {
        Some(event::KeyCode::F12)
    } else if code == 96 {
        Some(event::KeyCode::KpEnter)
    } else if code == 97 {
        Some(event::KeyCode::RightControl)
    } else if code == 98 {
        Some(event::KeyCode::KpDivide)
    } else if code == 100 {
        Some(event::KeyCode::RightAlt)
    } else if code == 117 {
        Some(event::KeyCode::KpEqual)
    } else if code == 119 {
        Some(event::KeyCode::Pause)
    } else if code == 125 {
        Some(event::KeyCode::LeftSuper)
    } else if code == 126 {
        Some(event::KeyCode::RightSuper)
    } else if code == 139 {
        Some(event::KeyCode::Menu)
    } else if code == 240 {
        Some(event::KeyCode::Unknown)
    } else {
        None
    }
}

/// What the key numbered `code` types on a US keyboard, without and with shift, row by row.
/// The keypad types as the main block does.
pub open spec fn us_layout(code: int) -> Option<(char, char)> {
    if 2 <= code <= 13 {
        Some(
            (
                seq!['1', '2', '3', '4', '5', '6', '7', '8', '9', '0', '-', '='][code - 2],
                seq!['!', '@', '#', '$', '%', '^', '&', '*', '(', ')', '_', '+'][code - 2],
            ),
        )
    } else if 16 <= code <= 27 {
        Some(
            (
                seq!['q', 'w', 'e', 'r', 't', 'y', 'u', 'i', 'o', 'p', '[', ']'][code - 16],
                seq!['Q', 'W', 'E', 'R', 'T', 'Y', 'U', 'I', 'O', 'P', '{', '}'][code - 16],
            ),
        )
    } else if 30 <= code <= 41 {
        Some(
            (
                seq!['a', 's', 'd', 'f', 'g', 'h', 'j', 'k', 'l', ';', '\'', '`'][code - 30],
                seq!['A', 'S', 'D', 'F', 'G', 'H', 'J', 'K', 'L', ':', '"', '~'][code - 30],
            ),
        )
    } else if 43 <= code <= 53 {
        Some(
            (
                seq!['\\', 'z', 'x', 'c', 'v', 'b', 'n', 'm', ',', '.', '/'][code - 43],
                seq!['|', 'Z', 'X', 'C', 'V', 'B', 'N', 'M', '<', '>', '?'][code - 43],
            ),
        )
    } else if 71 <= code <= 83 {
        Some(
            (
                seq!['7', '8', '9', '-', '4', '5', '6', '=', '1', '2', '3', '0', '.'][code - 71],
                seq!['&', '*', '(', '_', '$', '%', '^', '+', '!', '@', '#', ')', '>'][code - 71],
            ),
        )
    } else if code == 15 {
        Some(('\t', '\t'))
    } else if code == 55 {
        Some(('*', '*'))
    } else if code == 57 {
        Some((' ', ' '))
    } else {
        None
    }
}

impl KeyCode {
    /// The number by which the kernel reports the key.
    pub open spec fn spec_code(self) -> u16 {
        match self {
            KeyCode::KEY_RESERVED => 0,
            KeyCode::KEY_ESC => 1,
            KeyCode::KEY_1 => 2,
            KeyCode::KEY_2 => 3,
            KeyCode::KEY_3 => 4,
            KeyCode::KEY_4 => 5,
            KeyCode::KEY_5 => 6,
            KeyCode::KEY_6 => 7,
            KeyCode::KEY_7 => 8,
            KeyCode::KEY_8 => 9,
            KeyCode::KEY_9 => 10,
            KeyCode::KEY_0 => 11,
            KeyCode::KEY_MINUS => 12,
            KeyCode::KEY_EQUAL => 13,
            KeyCode::KEY_BACKSPACE => 14,
            KeyCode::KEY_TAB => 15,
            KeyCode::KEY_Q => 16,
            KeyCode::KEY_W => 17,
            KeyCode::KEY_E => 18,
            KeyCode::KEY_R => 19,
            KeyCode::KEY_T => 20,
            KeyCode::KEY_Y => 21,
            KeyCode::KEY_U => 22,
            KeyCode::KEY_I => 23,
            KeyCode::KEY_O => 24,
            KeyCode::KEY_P => 25,
            KeyCode::KEY_LEFTBRACE => 26,
            KeyCode::KEY_RIGHTBRACE => 27,
            KeyCode::KEY_ENTER => 28,
            KeyCode::KEY_LEFTCTRL => 29,
            KeyCode::KEY_A => 30,
            KeyCode::KEY_S => 31,
            KeyCode::KEY_D => 32,
            KeyCode::KEY_F => 33,
            KeyCode::KEY_G => 34,
            KeyCode::KEY_H => 35,
            KeyCode::KEY_J => 36,
            KeyCode::KEY_K => 37,
            KeyCode::KEY_L => 38,
            KeyCode::KEY_SEMICOLON => 39,
            KeyCode::KEY_APOSTROPHE => 40,
            KeyCode::KEY_GRAVE => 41,
            KeyCode::KEY_LEFTSHIFT => 42,
            KeyCode::KEY_BACKSLASH => 43,
            KeyCode::KEY_Z => 44,
            KeyCode::KEY_X => 45,
            KeyCode::KEY_C => 46,
            KeyCode::KEY_V => 47,
            KeyCode::KEY_B => 48,
            KeyCode::KEY_N => 49,
            KeyCode::KEY_M => 50,
            KeyCode::KEY_COMMA => 51,
            KeyCode::KEY_DOT => 52,
            KeyCode::KEY_SLASH => 53,
            KeyCode::KEY_RIGHTSHIFT => 54,
            KeyCode::KEY_KPASTERISK => 55,
            KeyCode::KEY_LEFTALT => 56,
            KeyCode::KEY_SPACE => 57,
            KeyCode::KEY_CAPSLOCK => 58,
            KeyCode::KEY_F1 => 59,
            KeyCode::KEY_F2 => 60,
            KeyCode::KEY_F3 => 61,
            KeyCode::KEY_F4 => 62,
            KeyCode::KEY_F5 => 63,
            KeyCode::KEY_F6 => 64,
            KeyCode::KEY_F7 => 65,
            KeyCode::KEY_F8 => 66,
            KeyCode::KEY_F9 => 67,
            KeyCode::KEY_F10 => 68,
            KeyCode::KEY_NUMLOCK => 69,
            KeyCode::KEY_SCROLLLOCK => 70,
            KeyCode::KEY_KP7 => 71,
            KeyCode::KEY_KP8 => 72,
            KeyCode::KEY_KP9 => 73,
            KeyCode::KEY_KPMINUS => 74,
            KeyCode::KEY_KP4 => 75,
            KeyCode::KEY_KP5 => 76,
            KeyCode::KEY_KP6 => 77,
            KeyCode::KEY_KPPLUS => 78,
            KeyCode::KEY_KP1 => 79,
            KeyCode::KEY_KP2 => 80,
            KeyCode::KEY_KP3 => 81,
            KeyCode::KEY_KP0 => 82,
            KeyCode::KEY_KPDOT => 83,
            KeyCode::KEY_ZENKAKUHANKAKU => 85,
            KeyCode::KEY_102ND => 86,
            KeyCode::KEY_F11 => 87,
            KeyCode::KEY_F12 => 88,
            KeyCode::KEY_RO => 89,
            KeyCode::KEY_KATAKANA => 90,
            KeyCode::KEY_HIRAGANA => 91,
            KeyCode::KEY_HENKAN => 92,
            KeyCode::KEY_KATAKANAHIRAGANA => 93,
            KeyCode::KEY_MUHENKAN => 94,
            KeyCode::KEY_KPJPCOMMA => 95,
            KeyCode::KEY_KPENTER => 96,
            KeyCode::KEY_RIGHTCTRL => 97,
            KeyCode::KEY_KPSLASH => 98,
            KeyCode::KEY_SYSRQ => 99,
            KeyCode::KEY_RIGHTALT => 100,
            KeyCode::KEY_LINEFEED => 101,
            KeyCode::KEY_HOME => 102,
            KeyCode::KEY_UP => 103,
            KeyCode::KEY_PAGEUP => 104,
            KeyCode::KEY_LEFT => 105,
            KeyCode::KEY_RIGHT => 106,
            KeyCode::KEY_END => 107,
            KeyCode::KEY_DOWN => 108,
            KeyCode::KEY_PAGEDOWN => 109,
            KeyCode::KEY_INSERT => 110,
            KeyCode::KEY_DELETE => 111,
            KeyCode::KEY_MACRO => 112,
            KeyCode::KEY_MUTE => 113,
            KeyCode::KEY_VOLUMEDOWN => 114,
            KeyCode::KEY_VOLUMEUP => 115,
            KeyCode::KEY_POWER => 116,
            KeyCode::KEY_KPEQUAL => 117,
            KeyCode::KEY_KPPLUSMINUS => 118,
            KeyCode::KEY_PAUSE => 119,
            KeyCode::KEY_SCALE => 120,
            KeyCode::KEY_KPCOMMA => 121,
            KeyCode::KEY_HANGEUL => 122,
            KeyCode::KEY_HANJA => 123,
            KeyCode::KEY_YEN => 124,
            KeyCode::KEY_LEFTMETA => 125,
            KeyCode::KEY_RIGHTMETA => 126,
            KeyCode::KEY_COMPOSE => 127,
            KeyCode::KEY_STOP => 128,
            KeyCode::KEY_AGAIN => 129,
            KeyCode::KEY_PROPS => 130,
            KeyCode::KEY_UNDO => 131,
            KeyCode::KEY_FRONT => 132,
            KeyCode::KEY_COPY => 133,
            KeyCode::KEY_OPEN => 134,
            KeyCode::KEY_PASTE => 135,
            KeyCode::KEY_FIND => 136,
            KeyCode::KEY_CUT => 137,
            KeyCode::KEY_HELP => 138,
            KeyCode::KEY_MENU => 139,
            KeyCode::KEY_CALC => 140,
            KeyCode::KEY_SETUP => 141,
            KeyCode::KEY_SLEEP => 142,
            KeyCode::KEY_WAKEUP => 143,
            KeyCode::KEY_FILE => 144,
            KeyCode::KEY_SENDFILE => 145,
            KeyCode::KEY_DELETEFILE => 146,
            KeyCode::KEY_XFER => 147,
            KeyCode::KEY_PROG1 => 148,
            KeyCode::KEY_PROG2 => 149,
            KeyCode::KEY_WWW => 150,
            KeyCode::KEY_MSDOS => 151,
            KeyCode::KEY_SCREENLOCK => 152,
            KeyCode::KEY_ROTATE_DISPLAY => 153,
            KeyCode::KEY_CYCLEWINDOWS => 154,
            KeyCode::KEY_MAIL => 155,
            KeyCode::KEY_BOOKMARKS => 156,
            KeyCode::KEY_COMPUTER => 157,
            KeyCode::KEY_BACK => 158,
            KeyCode::KEY_FORWARD => 159,
            KeyCode::KEY_CLOSECD => 160,
            KeyCode::KEY_EJECTCD => 161,
            KeyCode::KEY_EJECTCLOSECD => 162,
            KeyCode::KEY_NEXTSONG => 163,
            KeyCode::KEY_PLAYPAUSE => 164,
            KeyCode::KEY_PREVIOUSSONG => 165,
            KeyCode::KEY_STOPCD => 166,
            KeyCode::KEY_RECORD => 167,
            KeyCode::KEY_REWIND => 168,
            KeyCode::KEY_PHONE => 169,
            KeyCode::KEY_ISO => 170,
            KeyCode::KEY_CONFIG => 171,
            KeyCode::KEY_HOMEPAGE => 172,
            KeyCode::KEY_REFRESH => 173,
            KeyCode::KEY_EXIT => 174,
            KeyCode::KEY_MOVE => 175,
            KeyCode::KEY_EDIT => 176,
            KeyCode::KEY_SCROLLUP => 177,
            KeyCode::KEY_SCROLLDOWN => 178,
            KeyCode::KEY_KPLEFTPAREN => 179,
            KeyCode::KEY_KPRIGHTPAREN => 180,
            KeyCode::KEY_NEW => 181,
            KeyCode::KEY_REDO => 182,
            KeyCode::KEY_F13 => 183,
            KeyCode::KEY_F14 => 184,
            KeyCode::KEY_F15 => 185,
            KeyCode::KEY_F16 => 186,
            KeyCode::KEY_F17 => 187,
            KeyCode::KEY_F18 => 188,
            KeyCode::KEY_F19 => 189,
            KeyCode::KEY_F20 => 190,
            KeyCode::KEY_F21 => 191,
            KeyCode::KEY_F22 => 192,
            KeyCode::KEY_F23 => 193,
            KeyCode::KEY_F24 => 194,
            KeyCode::KEY_PLAYCD => 200,
            KeyCode::KEY_PAUSECD => 201,
            KeyCode::KEY_PROG3 => 202,
            KeyCode::KEY_PROG4 => 203,
            KeyCode::KEY_ALL_APPLICATIONS => 204,
            KeyCode::KEY_SUSPEND => 205,
            KeyCode::KEY_CLOSE => 206,
            KeyCode::KEY_PLAY => 207,
            KeyCode::KEY_FASTFORWARD => 208,
            KeyCode::KEY_BASSBOOST => 209,
            KeyCode::KEY_PRINT => 210,
            KeyCode::KEY_HP => 211,
            KeyCode::KEY_CAMERA => 212,
            KeyCode::KEY_SOUND => 213,
            KeyCode::KEY_QUESTION => 214,
            KeyCode::KEY_EMAIL => 215,
            KeyCode::KEY_CHAT => 216,
            KeyCode::KEY_SEARCH => 217,
            KeyCode::KEY_CONNECT => 218,
            KeyCode::KEY_FINANCE => 219,
            KeyCode::KEY_SPORT => 220,
            KeyCode::KEY_SHOP => 221,
            KeyCode::KEY_ALTERASE => 222,
            KeyCode::KEY_CANCEL => 223,
            KeyCode::KEY_BRIGHTNESSDOWN => 224,
            KeyCode::KEY_BRIGHTNESSUP => 225,
            KeyCode::KEY_MEDIA => 226,
            KeyCode::KEY_SWITCHVIDEOMODE => 227,
            KeyCode::KEY_KBDILLUMTOGGLE => 228,
            KeyCode::KEY_KBDILLUMDOWN => 229,
            KeyCode::KEY_KBDILLUMUP => 230,
            KeyCode::KEY_SEND => 231,
            KeyCode::KEY_REPLY => 232,
            KeyCode::KEY_FORWARDMAIL => 233,
            KeyCode::KEY_SAVE => 234,
            KeyCode::KEY_DOCUMENTS => 235,
            KeyCode::KEY_BATTERY => 236,
            KeyCode::KEY_BLUETOOTH => 237,
            KeyCode::KEY_WLAN => 238,
            KeyCode::KEY_UWB => 239,
            KeyCode::KEY_UNKNOWN => 240,
            KeyCode::KEY_VIDEO_NEXT => 241,
            KeyCode::KEY_VIDEO_PREV => 242,
            KeyCode::KEY_BRIGHTNESS_CYCLE => 243,
            KeyCode::KEY_BRIGHTNESS_AUTO => 244,
            KeyCode::KEY_DISPLAY_OFF => 245,
            KeyCode::KEY_WWAN => 246,
            KeyCode::KEY_RFKILL => 247,
            KeyCode::KEY_MICMUTE => 248,
        }
    }

    /// The number by which the kernel reports the key.
    #[verifier::when_used_as_spec(spec_code)]
    pub fn code(self) -> (code: u16)
        ensures
            code == self.spec_code(),
    {
        match self {
            KeyCode::KEY_RESERVED => 0,
            KeyCode::KEY_ESC => 1,
            KeyCode::KEY_1 => 2,
            KeyCode::KEY_2 => 3,
            KeyCode::KEY_3 => 4,
            KeyCode::KEY_4 => 5,
            KeyCode::KEY_5 => 6,
            KeyCode::KEY_6 => 7,
            KeyCode::KEY_7 => 8,
            KeyCode::KEY_8 => 9,
            KeyCode::KEY_9 => 10,
            KeyCode::KEY_0 => 11,
            KeyCode::KEY_MINUS => 12,
            KeyCode::KEY_EQUAL => 13,
            KeyCode::KEY_BACKSPACE => 14,
            KeyCode::KEY_TAB => 15,
            KeyCode::KEY_Q => 16,
            KeyCode::KEY_W => 17,
            KeyCode::KEY_E => 18,
            KeyCode::KEY_R => 19,
            KeyCode::KEY_T => 20,
            KeyCode::KEY_Y => 21,
            KeyCode::KEY_U => 22,
            KeyCode::KEY_I => 23,
            KeyCode::KEY_O => 24,
            KeyCode::KEY_P => 25,
            KeyCode::KEY_LEFTBRACE => 26,
            KeyCode::KEY_RIGHTBRACE => 27,
            KeyCode::KEY_ENTER => 28,
            KeyCode::KEY_LEFTCTRL => 29,
            KeyCode::KEY_A => 30,
            KeyCode::KEY_S => 31,
            KeyCode::KEY_D => 32,
            KeyCode::KEY_F => 33,
            KeyCode::KEY_G => 34,
            KeyCode::KEY_H => 35,
            KeyCode::KEY_J => 36,
            KeyCode::KEY_K => 37,
            KeyCode::KEY_L => 38,
            KeyCode::KEY_SEMICOLON => 39,
            KeyCode::KEY_APOSTROPHE => 40,
            KeyCode::KEY_GRAVE => 41,
            KeyCode::KEY_LEFTSHIFT => 42,
            KeyCode::KEY_BACKSLASH => 43,
            KeyCode::KEY_Z => 44,
            KeyCode::KEY_X => 45,
            KeyCode::KEY_C => 46,
            KeyCode::KEY_V => 47,
            KeyCode::KEY_B => 48,
            KeyCode::KEY_N => 49,
            KeyCode::KEY_M => 50,
            KeyCode::KEY_COMMA => 51,
            KeyCode::KEY_DOT => 52,
            KeyCode::KEY_SLASH => 53,
            KeyCode::KEY_RIGHTSHIFT => 54,
            KeyCode::KEY_KPASTERISK => 55,
            KeyCode::KEY_LEFTALT => 56,
            KeyCode::KEY_SPACE => 57,
            KeyCode::KEY_CAPSLOCK => 58,
            KeyCode::KEY_F1 => 59,
            KeyCode::KEY_F2 => 60,
            KeyCode::KEY_F3 => 61,
            KeyCode::KEY_F4 => 62,
            KeyCode::KEY_F5 => 63,
            KeyCode::KEY_F6 => 64,
            KeyCode::KEY_F7 => 65,
            KeyCode::KEY_F8 => 66,
            KeyCode::KEY_F9 => 67,
            KeyCode::KEY_F10 => 68,
            KeyCode::KEY_NUMLOCK => 69,
            KeyCode::KEY_SCROLLLOCK => 70,
            KeyCode::KEY_KP7 => 71,
            KeyCode::KEY_KP8 => 72,
            KeyCode::KEY_KP9 => 73,
            KeyCode::KEY_KPMINUS => 74,
            KeyCode::KEY_KP4 => 75,
            KeyCode::KEY_KP5 => 76,
            KeyCode::KEY_KP6 => 77,
            KeyCode::KEY_KPPLUS => 78,
            KeyCode::KEY_KP1 => 79,
            KeyCode::KEY_KP2 => 80,
            KeyCode::KEY_KP3 => 81,
            KeyCode::KEY_KP0 => 82,
            KeyCode::KEY_KPDOT => 83,
            KeyCode::KEY_ZENKAKUHANKAKU => 85,
            KeyCode::KEY_102ND => 86,
            KeyCode::KEY_F11 => 87,
            KeyCode::KEY_F12 => 88,
            KeyCode::KEY_RO => 89,
            KeyCode::KEY_KATAKANA => 90,
            KeyCode::KEY_HIRAGANA => 91,
            KeyCode::KEY_HENKAN => 92,
            KeyCode::KEY_KATAKANAHIRAGANA => 93,
            KeyCode::KEY_MUHENKAN => 94,
            KeyCode::KEY_KPJPCOMMA => 95,
            KeyCode::KEY_KPENTER => 96,
            KeyCode::KEY_RIGHTCTRL => 97,
            KeyCode::KEY_KPSLASH => 98,
            KeyCode::KEY_SYSRQ => 99,
            KeyCode::KEY_RIGHTALT => 100,
            KeyCode::KEY_LINEFEED => 101,
            KeyCode::KEY_HOME => 102,
            KeyCode::KEY_UP => 103,
            KeyCode::KEY_PAGEUP => 104,
            KeyCode::KEY_LEFT => 105,
            KeyCode::KEY_RIGHT => 106,
            KeyCode::KEY_END => 107,
            KeyCode::KEY_DOWN => 108,
            KeyCode::KEY_PAGEDOWN => 109,
            KeyCode::KEY_INSERT => 110,
            KeyCode::KEY_DELETE => 111,
            KeyCode::KEY_MACRO => 112,
            KeyCode::KEY_MUTE => 113,
            KeyCode::KEY_VOLUMEDOWN => 114,
            KeyCode::KEY_VOLUMEUP => 115,
            KeyCode::KEY_POWER => 116,
            KeyCode::KEY_KPEQUAL => 117,
            KeyCode::KEY_KPPLUSMINUS => 118,
            KeyCode::KEY_PAUSE => 119,
            KeyCode::KEY_SCALE => 120,
            KeyCode::KEY_KPCOMMA => 121,
            KeyCode::KEY_HANGEUL => 122,
            KeyCode::KEY_HANJA => 123,
            KeyCode::KEY_YEN => 124,
            KeyCode::KEY_LEFTMETA => 125,
            KeyCode::KEY_RIGHTMETA => 126,
            KeyCode::KEY_COMPOSE => 127,
            KeyCode::KEY_STOP => 128,
            KeyCode::KEY_AGAIN => 129,
            KeyCode::KEY_PROPS => 130,
            KeyCode::KEY_UNDO => 131,
            KeyCode::KEY_FRONT => 132,
            KeyCode::KEY_COPY => 133,
            KeyCode::KEY_OPEN => 134,
            KeyCode::KEY_PASTE => 135,
            KeyCode::KEY_FIND => 136,
            KeyCode::KEY_CUT => 137,
            KeyCode::KEY_HELP => 138,
            KeyCode::KEY_MENU => 139,
            KeyCode::KEY_CALC => 140,
            KeyCode::KEY_SETUP => 141,
            KeyCode::KEY_SLEEP => 142,
            KeyCode::KEY_WAKEUP => 143,
            KeyCode::KEY_FILE => 144,
            KeyCode::KEY_SENDFILE => 145,
            KeyCode::KEY_DELETEFILE => 146,
            KeyCode::KEY_XFER => 147,
            KeyCode::KEY_PROG1 => 148,
            KeyCode::KEY_PROG2 => 149,
            KeyCode::KEY_WWW => 150,
            KeyCode::KEY_MSDOS => 151,
            KeyCode::KEY_SCREENLOCK => 152,
            KeyCode::KEY_ROTATE_DISPLAY => 153,
            KeyCode::KEY_CYCLEWINDOWS => 154,
            KeyCode::KEY_MAIL => 155,
            KeyCode::KEY_BOOKMARKS => 156,
            KeyCode::KEY_COMPUTER => 157,
            KeyCode::KEY_BACK => 158,
            KeyCode::KEY_FORWARD => 159,
            KeyCode::KEY_CLOSECD => 160,
            KeyCode::KEY_EJECTCD => 161,
            KeyCode::KEY_EJECTCLOSECD => 162,
            KeyCode::KEY_NEXTSONG => 163,
            KeyCode::KEY_PLAYPAUSE => 164,
            KeyCode::KEY_PREVIOUSSONG => 165,
            KeyCode::KEY_STOPCD => 166,
            KeyCode::KEY_RECORD => 167,
            KeyCode::KEY_REWIND => 168,
            KeyCode::KEY_PHONE => 169,
            KeyCode::KEY_ISO => 170,
            KeyCode::KEY_CONFIG => 171,
            KeyCode::KEY_HOMEPAGE => 172,
            KeyCode::KEY_REFRESH => 173,
            KeyCode::KEY_EXIT => 174,
            KeyCode::KEY_MOVE => 175,
            KeyCode::KEY_EDIT => 176,
            KeyCode::KEY_SCROLLUP => 177,
            KeyCode::KEY_SCROLLDOWN => 178,
            KeyCode::KEY_KPLEFTPAREN => 179,
            KeyCode::KEY_KPRIGHTPAREN => 180,
            KeyCode::KEY_NEW => 181,
            KeyCode::KEY_REDO => 182,
            KeyCode::KEY_F13 => 183,
            KeyCode::KEY_F14 => 184,
            KeyCode::KEY_F15 => 185,
            KeyCode::KEY_F16 => 186,
            KeyCode::KEY_F17 => 187,
            KeyCode::KEY_F18 => 188,
            KeyCode::KEY_F19 => 189,
            KeyCode::KEY_F20 => 190,
            KeyCode::KEY_F21 => 191,
            KeyCode::KEY_F22 => 192,
            KeyCode::KEY_F23 => 193,
            KeyCode::KEY_F24 => 194,
            KeyCode::KEY_PLAYCD => 200,
            KeyCode::KEY_PAUSECD => 201,
            KeyCode::KEY_PROG3 => 202,
            KeyCode::KEY_PROG4 => 203,
            KeyCode::KEY_ALL_APPLICATIONS => 204,
            KeyCode::KEY_SUSPEND => 205,
            KeyCode::KEY_CLOSE => 206,
            KeyCode::KEY_PLAY => 207,
            KeyCode::KEY_FASTFORWARD => 208,
            KeyCode::KEY_BASSBOOST => 209,
            KeyCode::KEY_PRINT => 210,
            KeyCode::KEY_HP => 211,
            KeyCode::KEY_CAMERA => 212,
            KeyCode::KEY_SOUND => 213,
            KeyCode::KEY_QUESTION => 214,
            KeyCode::KEY_EMAIL => 215,
            KeyCode::KEY_CHAT => 216,
            KeyCode::KEY_SEARCH => 217,
            KeyCode::KEY_CONNECT => 218,
            KeyCode::KEY_FINANCE => 219,
            KeyCode::KEY_SPORT => 220,
            KeyCode::KEY_SHOP => 221,
            KeyCode::KEY_ALTERASE => 222,
            KeyCode::KEY_CANCEL => 223,
            KeyCode::KEY_BRIGHTNESSDOWN => 224,
            KeyCode::KEY_BRIGHTNESSUP => 225,
            KeyCode::KEY_MEDIA => 226,
            KeyCode::KEY_SWITCHVIDEOMODE => 227,
            KeyCode::KEY_KBDILLUMTOGGLE => 228,
            KeyCode::KEY_KBDILLUMDOWN => 229,
            KeyCode::KEY_KBDILLUMUP => 230,
            KeyCode::KEY_SEND => 231,
            KeyCode::KEY_REPLY => 232,
            KeyCode::KEY_FORWARDMAIL => 233,
            KeyCode::KEY_SAVE => 234,
            KeyCode::KEY_DOCUMENTS => 235,
            KeyCode::KEY_BATTERY => 236,
            KeyCode::KEY_BLUETOOTH => 237,
            KeyCode::KEY_WLAN => 238,
            KeyCode::KEY_UWB => 239,
            KeyCode::KEY_UNKNOWN => 240,
            KeyCode::KEY_VIDEO_NEXT => 241,
            KeyCode::KEY_VIDEO_PREV => 242,
            KeyCode::KEY_BRIGHTNESS_CYCLE => 243,
            KeyCode::KEY_BRIGHTNESS_AUTO => 244,
            KeyCode::KEY_DISPLAY_OFF => 245,
            KeyCode::KEY_WWAN => 246,
            KeyCode::KEY_RFKILL => 247,
            KeyCode::KEY_MICMUTE => 248,
        }
    }

    /// The key that bears the number `code`.
    #[verifier::rlimit(80)]
    #[verifier::spinoff_prover]
    pub fn from_code(code: u16) -> (key: Option<KeyCode>)
        ensures
            key is Some <==> is_assigned(code),
            key matches Some(k) ==> k.code() == code,
            key == key_with_code(code),
    {
        Some(
            match code {
                0 => KeyCode::KEY_RESERVED,
                1 => KeyCode::KEY_ESC,
                2 => KeyCode::KEY_1,
                3 => KeyCode::KEY_2,
                4 => KeyCode::KEY_3,
                5 => KeyCode::KEY_4,
                6 => KeyCode::KEY_5,
                7 => KeyCode::KEY_6,
                8 => KeyCode::KEY_7,
                9 => KeyCode::KEY_8,
                10 => KeyCode::KEY_9,
                11 => KeyCode::KEY_0,
                12 => KeyCode::KEY_MINUS,
                13 => KeyCode::KEY_EQUAL,
                14 => KeyCode::KEY_BACKSPACE,
                15 => KeyCode::KEY_TAB,
                16 => KeyCode::KEY_Q,
                17 => KeyCode::KEY_W,
                18 => KeyCode::KEY_E,
                19 => KeyCode::KEY_R,
                20 => KeyCode::KEY_T,
                21 => KeyCode::KEY_Y,
                22 => KeyCode::KEY_U,
                23 => KeyCode::KEY_I,
                24 => KeyCode::KEY_O,
                25 => KeyCode::KEY_P,
                26 => KeyCode::KEY_LEFTBRACE,
                27 => KeyCode::KEY_RIGHTBRACE,
                28 => KeyCode::KEY_ENTER,
                29 => KeyCode::KEY_LEFTCTRL,
                30 => KeyCode::KEY_A,
                31 => KeyCode::KEY_S,
                32 => KeyCode::KEY_D,
                33 => KeyCode::KEY_F,
                34 => KeyCode::KEY_G,
                35 => KeyCode::KEY_H,
                36 => KeyCode::KEY_J,
                37 => KeyCode::KEY_K,
                38 => KeyCode::KEY_L,
                39 => KeyCode::KEY_SEMICOLON,
                40 => KeyCode::KEY_APOSTROPHE,
                41 => KeyCode::KEY_GRAVE,
                42 => KeyCode::KEY_LEFTSHIFT,
                43 => KeyCode::KEY_BACKSLASH,
                44 => KeyCode::KEY_Z,
                45 => KeyCode::KEY_X,
                46 => KeyCode::KEY_C,
                47 => KeyCode::KEY_V,
                48 => KeyCode::KEY_B,
                49 => KeyCode::KEY_N,
                50 => KeyCode::KEY_M,
                51 => KeyCode::KEY_COMMA,
                52 => KeyCode::KEY_DOT,
                53 => KeyCode::KEY_SLASH,
                54 => KeyCode::KEY_RIGHTSHIFT,
                55 => KeyCode::KEY_KPASTERISK,
                56 => KeyCode::KEY_LEFTALT,
                57 => KeyCode::KEY_SPACE,
                58 => KeyCode::KEY_CAPSLOCK,
                59 => KeyCode::KEY_F1,
                60 => KeyCode::KEY_F2,
                61 => KeyCode::KEY_F3,
                62 => KeyCode::KEY_F4,
                63 => KeyCode::KEY_F5,
                64 => KeyCode::KEY_F6,
                65 => KeyCode::KEY_F7,
                66 => KeyCode::KEY_F8,
                67 => KeyCode::KEY_F9,
                68 => KeyCode::KEY_F10,
                69 => KeyCode::KEY_NUMLOCK,
                70 => KeyCode::KEY_SCROLLLOCK,
                71 => KeyCode::KEY_KP7,
                72 => KeyCode::KEY_KP8,
                73 => KeyCode::KEY_KP9,
                74 => KeyCode::KEY_KPMINUS,
                75 => KeyCode::KEY_KP4,
                76 => KeyCode::KEY_KP5,
                77 => KeyCode::KEY_KP6,
                78 => KeyCode::KEY_KPPLUS,
                79 => KeyCode::KEY_KP1,
                80 => KeyCode::KEY_KP2,
                81 => KeyCode::KEY_KP3,
                82 => KeyCode::KEY_KP0,
                83 => KeyCode::KEY_KPDOT,
                85 => KeyCode::KEY_ZENKAKUHANKAKU,
                86 => KeyCode::KEY_102ND,
                87 => KeyCode::KEY_F11,
                88 => KeyCode::KEY_F12,
                89 => KeyCode::KEY_RO,
                90 => KeyCode::KEY_KATAKANA,
                91 => KeyCode::KEY_HIRAGANA,
                92 => KeyCode::KEY_HENKAN,
                93 => KeyCode::KEY_KATAKANAHIRAGANA,
                94 => KeyCode::KEY_MUHENKAN,
                95 => KeyCode::KEY_KPJPCOMMA,
                96 => KeyCode::KEY_KPENTER,
                97 => KeyCode::KEY_RIGHTCTRL,
                98 => KeyCode::KEY_KPSLASH,
                99 => KeyCode::KEY_SYSRQ,
                100 => KeyCode::KEY_RIGHTALT,
                101 => KeyCode::KEY_LINEFEED,
                102 => KeyCode::KEY_HOME,
                103 => KeyCode::KEY_UP,
                104 => KeyCode::KEY_PAGEUP,
                105 => KeyCode::KEY_LEFT,
                106 => KeyCode::KEY_RIGHT,
                107 => KeyCode::KEY_END,
                108 => KeyCode::KEY_DOWN,
                109 => KeyCode::KEY_PAGEDOWN,
                110 => KeyCode::KEY_INSERT,
                111 => KeyCode::KEY_DELETE,
                112 => KeyCode::KEY_MACRO,
                113 => KeyCode::KEY_MUTE,
                114 => KeyCode::KEY_VOLUMEDOWN,
                115 => KeyCode::KEY_VOLUMEUP,
                116 => KeyCode::KEY_POWER,
                117 => KeyCode::KEY_KPEQUAL,
                118 => KeyCode::KEY_KPPLUSMINUS,
                119 => KeyCode::KEY_PAUSE,
                120 => KeyCode::KEY_SCALE,
                121 => KeyCode::KEY_KPCOMMA,
                122 => KeyCode::KEY_HANGEUL,
                123 => KeyCode::KEY_HANJA,
                124 => KeyCode::KEY_YEN,
                125 => KeyCode::KEY_LEFTMETA,
                126 => KeyCode::KEY_RIGHTMETA,
                127 => KeyCode::KEY_COMPOSE,
                128 => KeyCode::KEY_STOP,
                129 => KeyCode::KEY_AGAIN,
                130 => KeyCode::KEY_PROPS,
                131 => KeyCode::KEY_UNDO,
                132 => KeyCode::KEY_FRONT,
                133 => KeyCode::KEY_COPY,
                134 => KeyCode::KEY_OPEN,
                135 => KeyCode::KEY_PASTE,
                136 => KeyCode::KEY_FIND,
                137 => KeyCode::KEY_CUT,
                138 => KeyCode::KEY_HELP,
                139 => KeyCode::KEY_MENU,
                140 => KeyCode::KEY_CALC,
                141 => KeyCode::KEY_SETUP,
                142 => KeyCode::KEY_SLEEP,
                143 => KeyCode::KEY_WAKEUP,
                144 => KeyCode::KEY_FILE,
                145 => KeyCode::KEY_SENDFILE,
                146 => KeyCode::KEY_DELETEFILE,
                147 => KeyCode::KEY_XFER,
                148 => KeyCode::KEY_PROG1,
                149 => KeyCode::KEY_PROG2,
                150 => KeyCode::KEY_WWW,
                151 => KeyCode::KEY_MSDOS,
                152 => KeyCode::KEY_SCREENLOCK,
                153 => KeyCode::KEY_ROTATE_DISPLAY,
                154 => KeyCode::KEY_CYCLEWINDOWS,
                155 => KeyCode::KEY_MAIL,
                156 => KeyCode::KEY_BOOKMARKS,
                157 => KeyCode::KEY_COMPUTER,
                158 => KeyCode::KEY_BACK,
                159 => KeyCode::KEY_FORWARD,
                160 => KeyCode::KEY_CLOSECD,
                161 => KeyCode::KEY_EJECTCD,
                162 => KeyCode::KEY_EJECTCLOSECD,
                163 => KeyCode::KEY_NEXTSONG,
                164 => KeyCode::KEY_PLAYPAUSE,
                165 => KeyCode::KEY_PREVIOUSSONG,
                166 => KeyCode::KEY_STOPCD,
                167 => KeyCode::KEY_RECORD,
                168 => KeyCode::KEY_REWIND,
                169 => KeyCode::KEY_PHONE,
                170 => KeyCode::KEY_ISO,
                171 => KeyCode::KEY_CONFIG,
                172 => KeyCode::KEY_HOMEPAGE,
                173 => KeyCode::KEY_REFRESH,
                174 => KeyCode::KEY_EXIT,
                175 => KeyCode::KEY_MOVE,
                176 => KeyCode::KEY_EDIT,
                177 => KeyCode::KEY_SCROLLUP,
                178 => KeyCode::KEY_SCROLLDOWN,
                179 => KeyCode::KEY_KPLEFTPAREN,
                180 => KeyCode::KEY_KPRIGHTPAREN,
                181 => KeyCode::KEY_NEW,
                182 => KeyCode::KEY_REDO,
                183 => KeyCode::KEY_F13,
                184 => KeyCode::KEY_F14,
                185 => KeyCode::KEY_F15,
                186 => KeyCode::KEY_F16,
                187 => KeyCode::KEY_F17,
                188 => KeyCode::KEY_F18,
                189 => KeyCode::KEY_F19,
                190 => KeyCode::KEY_F20,
                191 => KeyCode::KEY_F21,
                192 => KeyCode::KEY_F22,
                193 => KeyCode::KEY_F23,
                194 => KeyCode::KEY_F24,
                200 => KeyCode::KEY_PLAYCD,
                201 => KeyCode::KEY_PAUSECD,
                202 => KeyCode::KEY_PROG3,
                203 => KeyCode::KEY_PROG4,
                204 => KeyCode::KEY_ALL_APPLICATIONS,
                205 => KeyCode::KEY_SUSPEND,
                206 => KeyCode::KEY_CLOSE,
                207 => KeyCode::KEY_PLAY,
                208 => KeyCode::KEY_FASTFORWARD,
                209 => KeyCode::KEY_BASSBOOST,
                210 => KeyCode::KEY_PRINT,
                211 => KeyCode::KEY_HP,
                212 => KeyCode::KEY_CAMERA,
                213 => KeyCode::KEY_SOUND,
                214 => KeyCode::KEY_QUESTION,
                215 => KeyCode::KEY_EMAIL,
                216 => KeyCode::KEY_CHAT,
                217 => KeyCode::KEY_SEARCH,
                218 => KeyCode::KEY_CONNECT,
                219 => KeyCode::KEY_FINANCE,
                220 => KeyCode::KEY_SPORT,
                221 => KeyCode::KEY_SHOP,
                222 => KeyCode::KEY_ALTERASE,
                223 => KeyCode::KEY_CANCEL,
                224 => KeyCode::KEY_BRIGHTNESSDOWN,
                225 => KeyCode::KEY_BRIGHTNESSUP,
                226 => KeyCode::KEY_MEDIA,
                227 => KeyCode::KEY_SWITCHVIDEOMODE,
                228 => KeyCode::KEY_KBDILLUMTOGGLE,
                229 => KeyCode::KEY_KBDILLUMDOWN,
                230 => KeyCode::KEY_KBDILLUMUP,
                231 => KeyCode::KEY_SEND,
                232 => KeyCode::KEY_REPLY,
                233 => KeyCode::KEY_FORWARDMAIL,
                234 => KeyCode::KEY_SAVE,
                235 => KeyCode::KEY_DOCUMENTS,
                236 => KeyCode::KEY_BATTERY,
                237 => KeyCode::KEY_BLUETOOTH,
                238 => KeyCode::KEY_WLAN,
                239 => KeyCode::KEY_UWB,
                240 => KeyCode::KEY_UNKNOWN,
                241 => KeyCode::KEY_VIDEO_NEXT,
                242 => KeyCode::KEY_VIDEO_PREV,
                243 => KeyCode::KEY_BRIGHTNESS_CYCLE,
                244 => KeyCode::KEY_BRIGHTNESS_AUTO,
                245 => KeyCode::KEY_DISPLAY_OFF,
                246 => KeyCode::KEY_WWAN,
                247 => KeyCode::KEY_RFKILL,
                248 => KeyCode::KEY_MICMUTE,
                _ => return None,
            },
        )
    }

    /// The windowing layer's name for the key, if it has one.
    pub fn to_macroquad_keycode(&self) -> (key: Option<event::KeyCode>)
        ensures
            key == window_key(self.code() as int),
    {
        Some(
            match self {
                KeyCode::KEY_SPACE => event::KeyCode::Space,
                KeyCode::KEY_APOSTROPHE => event::KeyCode::Apostrophe,
                KeyCode::KEY_COMMA => event::KeyCode::Comma,
                KeyCode::KEY_MINUS => event::KeyCode::Minus,
                KeyCode::KEY_DOT => event::KeyCode::Period,
                KeyCode::KEY_SLASH => event::KeyCode::Slash,
                KeyCode::KEY_0 => event::KeyCode::Key0,
                KeyCode::KEY_1 => event::KeyCode::Key1,
                KeyCode::KEY_2 => event::KeyCode::Key2,
                KeyCode::KEY_3 => event::KeyCode::Key3,
                KeyCode::KEY_4 => event::KeyCode::Key4,
                KeyCode::KEY_5 => event::KeyCode::Key5,
                KeyCode::KEY_6 => event::KeyCode::Key6,
                KeyCode::KEY_7 => event::KeyCode::Key7,
                KeyCode::KEY_8 => event::KeyCode::Key8,
                KeyCode::KEY_9 => event::KeyCode::Key9,
                KeyCode::KEY_SEMICOLON => event::KeyCode::Semicolon,
                KeyCode::KEY_EQUAL => event::KeyCode::Equal,
                KeyCode::KEY_A => event::KeyCode::A,
                KeyCode::KEY_B => event::KeyCode::B,
                KeyCode::KEY_C => event::KeyCode::C,
                KeyCode::KEY_D => event::KeyCode::D,
                KeyCode::KEY_E => event::KeyCode::E,
                KeyCode::KEY_F => event::KeyCode::F,
                KeyCode::KEY_G => event::KeyCode::G,
                KeyCode::KEY_H => event::KeyCode::H,
                KeyCode::KEY_I => event::KeyCode::I,
                KeyCode::KEY_J => event::KeyCode::J,
                KeyCode::KEY_K => event::KeyCode::K,
                KeyCode::KEY_L => event::KeyCode::L,
                KeyCode::KEY_M => event::KeyCode::M,
                KeyCode::KEY_N => event::KeyCode::N,
                KeyCode::KEY_O => event::KeyCode::O,
                KeyCode::KEY_P => event::KeyCode::P,
                KeyCode::KEY_Q => event::KeyCode::Q,
                KeyCode::KEY_R => event::KeyCode::R,
                KeyCode::KEY_S => event::KeyCode::S,
                KeyCode::KEY_T => event::KeyCode::T,
                KeyCode::KEY_U => event::KeyCode::U,
                KeyCode::KEY_V => event::KeyCode::V,
                KeyCode::KEY_W => event::KeyCode::W,
                KeyCode::KEY_X => event::KeyCode::X,
                KeyCode::KEY_Y => event::KeyCode::Y,
                KeyCode::KEY_Z => event::KeyCode::Z,
                KeyCode::KEY_LEFTBRACE => event::KeyCode::LeftBracket,
                KeyCode::KEY_BACKSLASH => event::KeyCode::Backslash,
                KeyCode::KEY_RIGHTBRACE => event::KeyCode::RightBracket,
                KeyCode::KEY_GRAVE => event::KeyCode::GraveAccent,
                KeyCode::KEY_ESC => event::KeyCode::Escape,
                KeyCode::KEY_ENTER => event::KeyCode::Enter,
                KeyCode::KEY_TAB => event::KeyCode::Tab,
                KeyCode::KEY_BACKSPACE => event::KeyCode::Backspace,
                KeyCode::KEY_INSERT => event::KeyCode::Insert,
                KeyCode::KEY_DELETE => event::KeyCode::Delete,
                KeyCode::KEY_RIGHT => event::KeyCode::Right,
                KeyCode::KEY_LEFT => event::KeyCode::Left,
                KeyCode::KEY_DOWN => event::KeyCode::Down,
                KeyCode::KEY_UP => event::KeyCode::Up,
                KeyCode::KEY_PAGEUP => event::KeyCode::PageUp,
                KeyCode::KEY_PAGEDOWN => event::KeyCode::PageDown,
                KeyCode::KEY_HOME => event::KeyCode::Home,
                KeyCode::KEY_END => event::KeyCode::End,
                KeyCode::KEY_CAPSLOCK => event::KeyCode::CapsLock,
                KeyCode::KEY_SCROLLLOCK => event::KeyCode::ScrollLock,
                KeyCode::KEY_NUMLOCK => event::KeyCode::NumLock,
                KeyCode::KEY_PAUSE => event::KeyCode::Pause,
                KeyCode::KEY_F1 => event::KeyCode::F1,
                KeyCode::KEY_F2 => event::KeyCode::F2,
                KeyCode::KEY_F3 => event::KeyCode::F3,
                KeyCode::KEY_F4 => event::KeyCode::F4,
                KeyCode::KEY_F5 => event::KeyCode::F5,
                KeyCode::KEY_F6 => event::KeyCode::F6,
                KeyCode::KEY_F7 => event::KeyCode::F7,
                KeyCode::KEY_F8 => event::KeyCode::F8,
                KeyCode::KEY_F9 => event::KeyCode::F9,
                KeyCode::KEY_F10 => event::KeyCode::F10,
                KeyCode::KEY_F11 => event::KeyCode::F11,
                KeyCode::KEY_F12 => event::KeyCode::F12,
                KeyCode::KEY_F13 => event::KeyCode::F13,
                KeyCode::KEY_F14 => event::KeyCode::F14,
                KeyCode::KEY_F15 => event::KeyCode::F15,
                KeyCode::KEY_F16 => event::KeyCode::F16,
                KeyCode::KEY_F17 => event::KeyCode::F17,
                KeyCode::KEY_F18 => event::KeyCode::F18,
                KeyCode::KEY_F19 => event::KeyCode::F19,
                KeyCode::KEY_F20 => event::KeyCode::F20,
                KeyCode::KEY_F21 => event::KeyCode::F21,
                KeyCode::KEY_F22 => event::KeyCode::F22,
                KeyCode::KEY_F23 => event::KeyCode::F23,
                KeyCode::KEY_F24 => event::KeyCode::F24,
                KeyCode::KEY_KP0 => event::KeyCode::Kp0,
                KeyCode::KEY_KP1 => event::KeyCode::Kp1,
                KeyCode::KEY_KP2 => event::KeyCode::Kp2,
                KeyCode::KEY_KP3 => event::KeyCode::Kp3,
                KeyCode::KEY_KP4 => event::KeyCode::Kp4,
                KeyCode::KEY_KP5 => event::KeyCode::Kp5,
                KeyCode::KEY_KP6 => event::KeyCode::Kp6,
                KeyCode::KEY_KP7 => event::KeyCode::Kp7,
                KeyCode::KEY_KP8 => event::KeyCode::Kp8,
                KeyCode::KEY_KP9 => event::KeyCode::Kp9,
                KeyCode::KEY_KPDOT => event::KeyCode::KpDecimal,
                KeyCode::KEY_KPSLASH => event::KeyCode::KpDivide,
                KeyCode::KEY_KPASTERISK => event::KeyCode::KpMultiply,
                KeyCode::KEY_KPMINUS => event::KeyCode::KpSubtract,
                KeyCode::KEY_KPPLUS => event::KeyCode::KpAdd,
                KeyCode::KEY_KPENTER => event::KeyCode::KpEnter,
                KeyCode::KEY_KPEQUAL => event::KeyCode::KpEqual,
                KeyCode::KEY_LEFTSHIFT => event::KeyCode::LeftShift,
                KeyCode::KEY_LEFTCTRL => event::KeyCode::LeftControl,
                KeyCode::KEY_LEFTALT => event::KeyCode::LeftAlt,
                KeyCode::KEY_LEFTMETA => event::KeyCode::LeftSuper,
                KeyCode::KEY_RIGHTSHIFT => event::KeyCode::RightShift,
                KeyCode::KEY_RIGHTCTRL => event::KeyCode::RightControl,
                KeyCode::KEY_RIGHTALT => event::KeyCode::RightAlt,
                KeyCode::KEY_RIGHTMETA => event::KeyCode::RightSuper,
                KeyCode::KEY_MENU => event::KeyCode::Menu,
                KeyCode::KEY_UNKNOWN => event::KeyCode::Unknown,
                _ => return None,
            },
        )
    }
}

/// What the key types on a US keyboard, without and with shift.
pub fn chars_from_keycode(keycode: KeyCode) -> (chars: Option<(char, char)>)
    ensures
        chars == us_layout(keycode.code() as int),
{
    Some(
        match keycode {
            KeyCode::KEY_1 => ('1', '!'),
            KeyCode::KEY_2 => ('2', '@'),
            KeyCode::KEY_3 => ('3', '#'),
            KeyCode::KEY_4 => ('4', '$'),
            KeyCode::KEY_5 => ('5', '%'),
            KeyCode::KEY_6 => ('6', '^'),
            KeyCode::KEY_7 => ('7', '&'),
            KeyCode::KEY_8 => ('8', '*'),
            KeyCode::KEY_9 => ('9', '('),
            KeyCode::KEY_0 => ('0', ')'),
            KeyCode::KEY_A => ('a', 'A'),
            KeyCode::KEY_APOSTROPHE => ('\'', '"'),
            KeyCode::KEY_B => ('b', 'B'),
            KeyCode::KEY_BACKSLASH => ('\\', '|'),
            KeyCode::KEY_C => ('c', 'C'),
            KeyCode::KEY_COMMA => (',', '<'),
            KeyCode::KEY_D => ('d', 'D'),
            KeyCode::KEY_DOT => ('.', '>'),
            KeyCode::KEY_E => ('e', 'E'),
            KeyCode::KEY_EQUAL => ('=', '+'),
            KeyCode::KEY_F => ('f', 'F'),
            KeyCode::KEY_G => ('g', 'G'),
            KeyCode::KEY_GRAVE => ('`', '~'),
            KeyCode::KEY_H => ('h', 'H'),
            KeyCode::KEY_I => ('i', 'I'),
            KeyCode::KEY_J => ('j', 'J'),
            KeyCode::KEY_K => ('k', 'K'),
            KeyCode::KEY_KP1 => ('1', '!'),
            KeyCode::KEY_KP2 => ('2', '@'),
            KeyCode::KEY_KP3 => ('3', '#'),
            KeyCode::KEY_KP4 => ('4', '$'),
            KeyCode::KEY_KP5 => ('5', '%'),
            KeyCode::KEY_KP6 => ('6', '^'),
            KeyCode::KEY_KP7 => ('7', '&'),
            KeyCode::KEY_KP8 => ('8', '*'),
            KeyCode::KEY_KP9 => ('9', '('),
            KeyCode::KEY_KP0 => ('0', ')'),
            KeyCode::KEY_KPASTERISK => ('*', '*'),
            KeyCode::KEY_KPDOT => ('.', '>'),
            KeyCode::KEY_KPMINUS => ('-', '_'),
            KeyCode::KEY_KPPLUS => ('=', '+'),
            KeyCode::KEY_L => ('l', 'L'),
            KeyCode::KEY_LEFTBRACE => ('[', '{'),
            KeyCode::KEY_M => ('m', 'M'),
            KeyCode::KEY_MINUS => ('-', '_'),
            KeyCode::KEY_N => ('n', 'N'),
            KeyCode::KEY_O => ('o', 'O'),
            KeyCode::KEY_P => ('p', 'P'),
            KeyCode::KEY_Q => ('q', 'Q'),
            KeyCode::KEY_R => ('r', 'R'),
            KeyCode::KEY_RIGHTBRACE => (']', '}'),
            KeyCode::KEY_S => ('s', 'S'),
            KeyCode::KEY_SEMICOLON => (';', ':'),
            KeyCode::KEY_SLASH => ('/', '?'),
            KeyCode::KEY_SPACE => (' ', ' '),
            KeyCode::KEY_T => ('t', 'T'),
            KeyCode::KEY_TAB => ('\t', '\t'),
            KeyCode::KEY_U => ('u', 'U'),
            KeyCode::KEY_V => ('v', 'V'),
            KeyCode::KEY_W => ('w', 'W'),
            KeyCode::KEY_X => ('x', 'X'),
            KeyCode::KEY_Y => ('y', 'Y'),
            KeyCode::KEY_Z => ('z', 'Z'),
            _ => return None,
        },
    )
}

/// Looking up a key's number gives the key back.
pub proof fn law_code_round_trip(key: KeyCode)
    ensures
        key_with_code(key.code()) == Some(key),
{
}

/// A number that is looked up is the number of the key that is found, and one is found exactly
/// for the assigned numbers.
pub proof fn law_lookup_is_exact(code: u16)
    ensures
        key_with_code(code) matches Some(key) ==> key.code() == code,
        key_with_code(code) is Some <==> is_assigned(code),
{
}

/// No two keys share a number.
pub proof fn law_codes_distinct(a: KeyCode, b: KeyCode)
    requires
        a.code() == b.code(),
    ensures
        a == b,
{
    law_code_round_trip(a);
    law_code_round_trip(b);
}

/// No two keys are the same key to the windowing layer.
pub proof fn law_window_keys_distinct(a: KeyCode, b: KeyCode)
    requires
        window_key(a.code() as int) is Some,
        window_key(a.code() as int) == window_key(b.code() as int),
    ensures
        a == b,
{
    lemma_window_key_injective(a.code() as int, b.code() as int);
    law_codes_distinct(a, b);
}

proof fn lemma_window_key_injective(a: int, b: int)
    requires
        window_key(a) is Some,
        window_key(a) == window_key(b),
    ensures
        a == b,
{
}

/// Every key that types a character also has a name in the windowing layer.
pub proof fn law_typing_keys_have_window_keys(key: KeyCode)
    ensures
        us_layout(key.code() as int) is Some ==> window_key(key.code() as int) is Some,
{
}

/// Shift turns a letter into its capital.
pub proof fn law_shift_capitalises(key: KeyCode)
    ensures
        us_layout(key.code() as int) matches Some((plain, shifted)) ==> 'a' <= plain <= 'z'
            ==> shifted as int == plain as int - 'a' as int + 'A' as int,
{
}

} // verus!
