use vstd::prelude::*;
use vstd::string::*;

verus! {

/// The largest numeric identifier that a key has.
pub const LAST_KEY_CODE: u16 = 248;

/// A symbolic key identifier of the Linux input subsystem.
///
/// Most keys are modelled after USB HUT 1.12. Every key has a fixed numeric
/// identifier, given by [`KeyCode::code`], and a canonical upper-case text
/// form, given by [`KeyCode::name`]. The digit keys and the 102nd key are
/// written in text as `"0"` to `"9"` and `"102ND"`; they are read from their
/// symbols, `"KEY_0"` to `"KEY_9"` and `"KEY_102ND"`, as well.
#[allow(non_camel_case_types)]
#[allow(clippy::upper_case_acronyms)]
#[derive(Copy, Clone, Debug, PartialEq, Eq, Structural)]
pub enum KeyCode {
    NONE,
    ESC,
    KEY_1,
    KEY_2,
    KEY_3,
    KEY_4,
    KEY_5,
    KEY_6,
    KEY_7,
    KEY_8,
    KEY_9,
    KEY_0,
    MINUS,
    EQUAL,
    BACKSPACE,
    TAB,
    Q,
    W,
    E,
    R,
    T,
    Y,
    U,
    I,
    O,
    P,
    LEFTBRACE,
    RIGHTBRACE,
    ENTER,
    LEFTCTRL,
    A,
    S,
    D,
    F,
    G,
    H,
    J,
    K,
    L,
    SEMICOLON,
    APOSTROPHE,
    GRAVE,
    LEFTSHIFT,
    BACKSLASH,
    Z,
    X,
    C,
    V,
    B,
    N,
    M,
    COMMA,
    DOT,
    SLASH,
    RIGHTSHIFT,
    KPASTERISK,
    LEFTALT,
    SPACE,
    CAPSLOCK,
    F1,
    F2,
    F3,
    F4,
    F5,
    F6,
    F7,
    F8,
    F9,
    F10,
    NUMLOCK,
    SCROLLLOCK,
    KP7,
    KP8,
    KP9,
    KPMINUS,
    KP4,
    KP5,
    KP6,
    KPPLUS,
    KP1,
    KP2,
    KP3,
    KP0,
    KPDOT,
    ZENKAKUHANKAKU,
    KEY_102ND,
    F11,
    F12,
    RO,
    KATAKANA,
    HIRAGANA,
    HENKAN,
    KATAKANAHIRAGANA,
    MUHENKAN,
    KPJPCOMMA,
    KPENTER,
    RIGHTCTRL,
    KPSLASH,
    SYSRQ,
    RIGHTALT,
    LINEFEED,
    HOME,
    UP,
    PAGEUP,
    LEFT,
    RIGHT,
    END,
    DOWN,
    PAGEDOWN,
    INSERT,
    DELETE,
    MACRO,
    MUTE,
    VOLUMEDOWN,
    VOLUMEUP,
    POWER,
    KPEQUAL,
    KPPLUSMINUS,
    PAUSE,
    SCALE,
    KPCOMMA,
    HANGEUL,
    HANJA,
    YEN,
    LEFTMETA,
    RIGHTMETA,
    COMPOSE,
    STOP,
    AGAIN,
    PROPS,
    UNDO,
    FRONT,
    COPY,
    OPEN,
    PASTE,
    FIND,
    CUT,
    HELP,
    MENU,
    CALC,
    SETUP,
    SLEEP,
    WAKEUP,
    FILE,
    SENDFILE,
    DELETEFILE,
    XFER,
    PROG1,
    PROG2,
    WWW,
    MSDOS,
    COFFEE,
    ROTATE_DISPLAY,
    CYCLEWINDOWS,
    MAIL,
    BOOKMARKS,
    COMPUTER,
    BACK,
    FORWARD,
    CLOSECD,
    EJECTCD,
    EJECTCLOSECD,
    NEXTSONG,
    PLAYPAUSE,
    PREVIOUSSONG,
    STOPCD,
    RECORD,
    REWIND,
    PHONE,
    ISO,
    CONFIG,
    HOMEPAGE,
    REFRESH,
    EXIT,
    MOVE,
    EDIT,
    SCROLLUP,
    SCROLLDOWN,
    KPLEFTPAREN,
    KPRIGHTPAREN,
    NEW,
    REDO,
    F13,
    F14,
    F15,
    F16,
    F17,
    F18,
    F19,
    F20,
    F21,
    F22,
    F23,
    F24,
    PLAYCD,
    PAUSECD,
    PROG3,
    PROG4,
    ALL_APPLICATIONS,
    SUSPEND,
    CLOSE,
    PLAY,
    FASTFORWARD,
    BASSBOOST,
    PRINT,
    HP,
    CAMERA,
    SOUND,
    QUESTION,
    EMAIL,
    CHAT,
    SEARCH,
    CONNECT,
    FINANCE,
    SPORT,
    SHOP,
    ALTERASE,
    CANCEL,
    BRIGHTNESSDOWN,
    BRIGHTNESSUP,
    MEDIA,
    SWITCHVIDEOMODE,
    KBDILLUMTOGGLE,
    KBDILLUMDOWN,
    KBDILLUMUP,
    SEND,
    REPLY,
    FORWARDMAIL,
    SAVE,
    DOCUMENTS,
    BATTERY,
    BLUETOOTH,
    WLAN,
    UWB,
    UNKNOWN,
    VIDEO_NEXT,
    VIDEO_PREV,
    BRIGHTNESS_CYCLE,
    BRIGHTNESS_AUTO,
    DISPLAY_OFF,
    WWAN,
    RFKILL,
    MICMUTE,
}

/// A failed lookup in the key table.
#[derive(Copy, Clone, Debug, PartialEq, Eq, Structural)]
pub enum KeyCodeError {
    /// The text is not the name of any key.
    UnknownKeyName,
    /// The number has no key assigned to it.
    OutOfRange,
}

/// The upper-case form of an ASCII lower-case letter, and any other
/// character unchanged.
pub open spec fn ascii_upper(c: char) -> char {
    if 'a' <= c <= 'z' {
        (c as int - 32) as char
    } else {
        c
    }
}

/// `text` with every ASCII lower-case letter changed to upper case.
pub open spec fn uppercase(text: Seq<char>) -> Seq<char> {
    text.map_values(|c: char| ascii_upper(c))
}

/// The upper-case form of `c` where it is an ASCII lower-case letter, else `c`.
pub fn to_ascii_upper(c: char) -> (upper: char)
    ensures
        upper == ascii_upper(c),
{
    if 'a' <= c && c <= 'z' {
        ((c as u8) - 32) as char
    } else {
        c
    }
}

/// Whether `text`, read without regard to the case of ASCII letters, is
/// `prefix` followed by `name`.
fn spells(text: &str, prefix: &str, name: &str) -> (hit: bool)
    ensures
        hit == (uppercase(text@) == prefix@ + name@),
{
    let length = text.unicode_len();
    let start = prefix.unicode_len();
    let n = name.unicode_len();
    let ghost wanted = prefix@ + name@;
    if length < start || length - start != n {
        assert(uppercase(text@).len() != wanted.len());
        return false;
    }
    let mut i: usize = 0;
    while i < length
        invariant
            i <= length,
            length == text@.len(),
            start == prefix@.len(),
            n == name@.len(),
            length == start + n,
            wanted == prefix@ + name@,
            forall|j: int| 0 <= j < i ==> ascii_upper(text@[j]) == wanted[j],
        decreases length - i,
    {
        let c = if i < start {
            prefix.get_char(i)
        } else {
            name.get_char(i - start)
        };
        if to_ascii_upper(text.get_char(i)) != c {
            assert(uppercase(text@)[i as int] != wanted[i as int]);
            return false;
        }
        i += 1;
    }
    assert(uppercase(text@) =~= wanted);
    true
}

impl KeyCode {
    /// The numeric identifier of the key.
    pub open spec fn code(self) -> int {
        match self {
            KeyCode::NONE => 0,
            KeyCode::ESC => 1,
            KeyCode::KEY_1 => 2,
            KeyCode::KEY_2 => 3,
            KeyCode::KEY_3 => 4,
            KeyCode::KEY_4 => 5,
            KeyCode::KEY_5 => 6,
            KeyCode::KEY_6 => 7,
            KeyCode::KEY_7 => 8,
            KeyCode::KEY_8 => 9,
            KeyCode::KEY_9 => 10,
            KeyCode::KEY_0 => 11,
            KeyCode::MINUS => 12,
            KeyCode::EQUAL => 13,
            KeyCode::BACKSPACE => 14,
            KeyCode::TAB => 15,
            KeyCode::Q => 16,
            KeyCode::W => 17,
            KeyCode::E => 18,
            KeyCode::R => 19,
            KeyCode::T => 20,
            KeyCode::Y => 21,
            KeyCode::U => 22,
            KeyCode::I => 23,
            KeyCode::O => 24,
            KeyCode::P => 25,
            KeyCode::LEFTBRACE => 26,
            KeyCode::RIGHTBRACE => 27,
            KeyCode::ENTER => 28,
            KeyCode::LEFTCTRL => 29,
            KeyCode::A => 30,
            KeyCode::S => 31,
            KeyCode::D => 32,
            KeyCode::F => 33,
            KeyCode::G => 34,
            KeyCode::H => 35,
            KeyCode::J => 36,
            KeyCode::K => 37,
            KeyCode::L => 38,
            KeyCode::SEMICOLON => 39,
            KeyCode::APOSTROPHE => 40,
            KeyCode::GRAVE => 41,
            KeyCode::LEFTSHIFT => 42,
            KeyCode::BACKSLASH => 43,
            KeyCode::Z => 44,
            KeyCode::X => 45,
            KeyCode::C => 46,
            KeyCode::V => 47,
            KeyCode::B => 48,
            KeyCode::N => 49,
            KeyCode::M => 50,
            KeyCode::COMMA => 51,
            KeyCode::DOT => 52,
            KeyCode::SLASH => 53,
            KeyCode::RIGHTSHIFT => 54,
            KeyCode::KPASTERISK => 55,
            KeyCode::LEFTALT => 56,
            KeyCode::SPACE => 57,
            KeyCode::CAPSLOCK => 58,
            KeyCode::F1 => 59,
            KeyCode::F2 => 60,
            KeyCode::F3 => 61,
            KeyCode::F4 => 62,
            KeyCode::F5 => 63,
            KeyCode::F6 => 64,
            KeyCode::F7 => 65,
            KeyCode::F8 => 66,
            KeyCode::F9 => 67,
            KeyCode::F10 => 68,
            KeyCode::NUMLOCK => 69,
            KeyCode::SCROLLLOCK => 70,
            KeyCode::KP7 => 71,
            KeyCode::KP8 => 72,
            KeyCode::KP9 => 73,
            KeyCode::KPMINUS => 74,
            KeyCode::KP4 => 75,
            KeyCode::KP5 => 76,
            KeyCode::KP6 => 77,
            KeyCode::KPPLUS => 78,
            KeyCode::KP1 => 79,
            KeyCode::KP2 => 80,
            KeyCode::KP3 => 81,
            KeyCode::KP0 => 82,
            KeyCode::KPDOT => 83,
            KeyCode::ZENKAKUHANKAKU => 85,
            KeyCode::KEY_102ND => 86,
            KeyCode::F11 => 87,
            KeyCode::F12 => 88,
            KeyCode::RO => 89,
            KeyCode::KATAKANA => 90,
            KeyCode::HIRAGANA => 91,
            KeyCode::HENKAN => 92,
            KeyCode::KATAKANAHIRAGANA => 93,
            KeyCode::MUHENKAN => 94,
            KeyCode::KPJPCOMMA => 95,
            KeyCode::KPENTER => 96,
            KeyCode::RIGHTCTRL => 97,
            KeyCode::KPSLASH => 98,
            KeyCode::SYSRQ => 99,
            KeyCode::RIGHTALT => 100,
            KeyCode::LINEFEED => 101,
            KeyCode::HOME => 102,
            KeyCode::UP => 103,
            KeyCode::PAGEUP => 104,
            KeyCode::LEFT => 105,
            KeyCode::RIGHT => 106,
            KeyCode::END => 107,
            KeyCode::DOWN => 108,
            KeyCode::PAGEDOWN => 109,
            KeyCode::INSERT => 110,
            KeyCode::DELETE => 111,
            KeyCode::MACRO => 112,
            KeyCode::MUTE => 113,
            KeyCode::VOLUMEDOWN => 114,
            KeyCode::VOLUMEUP => 115,
            KeyCode::POWER => 116,
            KeyCode::KPEQUAL => 117,
            KeyCode::KPPLUSMINUS => 118,
            KeyCode::PAUSE => 119,
            KeyCode::SCALE => 120,
            KeyCode::KPCOMMA => 121,
            KeyCode::HANGEUL => 122,
            KeyCode::HANJA => 123,
            KeyCode::YEN => 124,
            KeyCode::LEFTMETA => 125,
            KeyCode::RIGHTMETA => 126,
            KeyCode::COMPOSE => 127,
            KeyCode::STOP => 128,
            KeyCode::AGAIN => 129,
            KeyCode::PROPS => 130,
            KeyCode::UNDO => 131,
            KeyCode::FRONT => 132,
            KeyCode::COPY => 133,
            KeyCode::OPEN => 134,
            KeyCode::PASTE => 135,
            KeyCode::FIND => 136,
            KeyCode::CUT => 137,
            KeyCode::HELP => 138,
            KeyCode::MENU => 139,
            KeyCode::CALC => 140,
            KeyCode::SETUP => 141,
            KeyCode::SLEEP => 142,
            KeyCode::WAKEUP => 143,
            KeyCode::FILE => 144,
            KeyCode::SENDFILE => 145,
            KeyCode::DELETEFILE => 146,
            KeyCode::XFER => 147,
            KeyCode::PROG1 => 148,
            KeyCode::PROG2 => 149,
            KeyCode::WWW => 150,
            KeyCode::MSDOS => 151,
            KeyCode::COFFEE => 152,
            KeyCode::ROTATE_DISPLAY => 153,
            KeyCode::CYCLEWINDOWS => 154,
            KeyCode::MAIL => 155,
            KeyCode::BOOKMARKS => 156,
            KeyCode::COMPUTER => 157,
            KeyCode::BACK => 158,
            KeyCode::FORWARD => 159,
            KeyCode::CLOSECD => 160,
            KeyCode::EJECTCD => 161,
            KeyCode::EJECTCLOSECD => 162,
            KeyCode::NEXTSONG => 163,
            KeyCode::PLAYPAUSE => 164,
            KeyCode::PREVIOUSSONG => 165,
            KeyCode::STOPCD => 166,
            KeyCode::RECORD => 167,
            KeyCode::REWIND => 168,
            KeyCode::PHONE => 169,
            KeyCode::ISO => 170,
            KeyCode::CONFIG => 171,
            KeyCode::HOMEPAGE => 172,
            KeyCode::REFRESH => 173,
            KeyCode::EXIT => 174,
            KeyCode::MOVE => 175,
            KeyCode::EDIT => 176,
            KeyCode::SCROLLUP => 177,
            KeyCode::SCROLLDOWN => 178,
            KeyCode::KPLEFTPAREN => 179,
            KeyCode::KPRIGHTPAREN => 180,
            KeyCode::NEW => 181,
            KeyCode::REDO => 182,
            KeyCode::F13 => 183,
            KeyCode::F14 => 184,
            KeyCode::F15 => 185,
            KeyCode::F16 => 186,
            KeyCode::F17 => 187,
            KeyCode::F18 => 188,
            KeyCode::F19 => 189,
            KeyCode::F20 => 190,
            KeyCode::F21 => 191,
            KeyCode::F22 => 192,
            KeyCode::F23 => 193,
            KeyCode::F24 => 194,
            KeyCode::PLAYCD => 200,
            KeyCode::PAUSECD => 201,
            KeyCode::PROG3 => 202,
            KeyCode::PROG4 => 203,
            KeyCode::ALL_APPLICATIONS => 204,
            KeyCode::SUSPEND => 205,
            KeyCode::CLOSE => 206,
            KeyCode::PLAY => 207,
            KeyCode::FASTFORWARD => 208,
            KeyCode::BASSBOOST => 209,
            KeyCode::PRINT => 210,
            KeyCode::HP => 211,
            KeyCode::CAMERA => 212,
            KeyCode::SOUND => 213,
            KeyCode::QUESTION => 214,
            KeyCode::EMAIL => 215,
            KeyCode::CHAT => 216,
            KeyCode::SEARCH => 217,
            KeyCode::CONNECT => 218,
            KeyCode::FINANCE => 219,
            KeyCode::SPORT => 220,
            KeyCode::SHOP => 221,
            KeyCode::ALTERASE => 222,
            KeyCode::CANCEL => 223,
            KeyCode::BRIGHTNESSDOWN => 224,
            KeyCode::BRIGHTNESSUP => 225,
            KeyCode::MEDIA => 226,
            KeyCode::SWITCHVIDEOMODE => 227,
            KeyCode::KBDILLUMTOGGLE => 228,
            KeyCode::KBDILLUMDOWN => 229,
            KeyCode::KBDILLUMUP => 230,
            KeyCode::SEND => 231,
            KeyCode::REPLY => 232,
            KeyCode::FORWARDMAIL => 233,
            KeyCode::SAVE => 234,
            KeyCode::DOCUMENTS => 235,
            KeyCode::BATTERY => 236,
            KeyCode::BLUETOOTH => 237,
            KeyCode::WLAN => 238,
            KeyCode::UWB => 239,
            KeyCode::UNKNOWN => 240,
            KeyCode::VIDEO_NEXT => 241,
            KeyCode::VIDEO_PREV => 242,
            KeyCode::BRIGHTNESS_CYCLE => 243,
            KeyCode::BRIGHTNESS_AUTO => 244,
            KeyCode::DISPLAY_OFF => 245,
            KeyCode::WWAN => 246,
            KeyCode::RFKILL => 247,
            KeyCode::MICMUTE => 248,
        }
    }

    /// Whether some key has the numeric identifier `n`.
    ///
    /// The identifiers run from 0 to 248 with two gaps: 84, and 195 to 199.
    pub open spec fn is_assigned(n: int) -> bool {
        0 <= n <= 248 && n != 84 && !(195 <= n <= 199)
    }

    /// The canonical text form of the key.
    pub open spec fn name(self) -> Seq<char> {
        match self {
            KeyCode::NONE => "NONE"@,
            KeyCode::ESC => "ESC"@,
            KeyCode::KEY_1 => "1"@,
            KeyCode::KEY_2 => "2"@,
            KeyCode::KEY_3 => "3"@,
            KeyCode::KEY_4 => "4"@,
            KeyCode::KEY_5 => "5"@,
            KeyCode::KEY_6 => "6"@,
            KeyCode::KEY_7 => "7"@,
            KeyCode::KEY_8 => "8"@,
            KeyCode::KEY_9 => "9"@,
            KeyCode::KEY_0 => "0"@,
            KeyCode::MINUS => "MINUS"@,
            KeyCode::EQUAL => "EQUAL"@,
            KeyCode::BACKSPACE => "BACKSPACE"@,
            KeyCode::TAB => "TAB"@,
            KeyCode::Q => "Q"@,
            KeyCode::W => "W"@,
            KeyCode::E => "E"@,
            KeyCode::R => "R"@,
            KeyCode::T => "T"@,
            KeyCode::Y => "Y"@,
            KeyCode::U => "U"@,
            KeyCode::I => "I"@,
            KeyCode::O => "O"@,
            KeyCode::P => "P"@,
            KeyCode::LEFTBRACE => "LEFTBRACE"@,
            KeyCode::RIGHTBRACE => "RIGHTBRACE"@,
            KeyCode::ENTER => "ENTER"@,
            KeyCode::LEFTCTRL => "LEFTCTRL"@,
            KeyCode::A => "A"@,
            KeyCode::S => "S"@,
            KeyCode::D => "D"@,
            KeyCode::F => "F"@,
            KeyCode::G => "G"@,
            KeyCode::H => "H"@,
            KeyCode::J => "J"@,
            KeyCode::K => "K"@,
            KeyCode::L => "L"@,
            KeyCode::SEMICOLON => "SEMICOLON"@,
            KeyCode::APOSTROPHE => "APOSTROPHE"@,
            KeyCode::GRAVE => "GRAVE"@,
            KeyCode::LEFTSHIFT => "LEFTSHIFT"@,
            KeyCode::BACKSLASH => "BACKSLASH"@,
            KeyCode::Z => "Z"@,
            KeyCode::X => "X"@,
            KeyCode::C => "C"@,
            KeyCode::V => "V"@,
            KeyCode::B => "B"@,
            KeyCode::N => "N"@,
            KeyCode::M => "M"@,
            KeyCode::COMMA => "COMMA"@,
            KeyCode::DOT => "DOT"@,
            KeyCode::SLASH => "SLASH"@,
            KeyCode::RIGHTSHIFT => "RIGHTSHIFT"@,
            KeyCode::KPASTERISK => "KPASTERISK"@,
            KeyCode::LEFTALT => "LEFTALT"@,
            KeyCode::SPACE => "SPACE"@,
            KeyCode::CAPSLOCK => "CAPSLOCK"@,
            KeyCode::F1 => "F1"@,
            KeyCode::F2 => "F2"@,
            KeyCode::F3 => "F3"@,
            KeyCode::F4 => "F4"@,
            KeyCode::F5 => "F5"@,
            KeyCode::F6 => "F6"@,
            KeyCode::F7 => "F7"@,
            KeyCode::F8 => "F8"@,
            KeyCode::F9 => "F9"@,
            KeyCode::F10 => "F10"@,
            KeyCode::NUMLOCK => "NUMLOCK"@,
            KeyCode::SCROLLLOCK => "SCROLLLOCK"@,
            KeyCode::KP7 => "KP7"@,
            KeyCode::KP8 => "KP8"@,
            KeyCode::KP9 => "KP9"@,
            KeyCode::KPMINUS => "KPMINUS"@,
            KeyCode::KP4 => "KP4"@,
            KeyCode::KP5 => "KP5"@,
            KeyCode::KP6 => "KP6"@,
            KeyCode::KPPLUS => "KPPLUS"@,
            KeyCode::KP1 => "KP1"@,
            KeyCode::KP2 => "KP2"@,
            KeyCode::KP3 => "KP3"@,
            KeyCode::KP0 => "KP0"@,
            KeyCode::KPDOT => "KPDOT"@,
            KeyCode::ZENKAKUHANKAKU => "ZENKAKUHANKAKU"@,
            KeyCode::KEY_102ND => "102ND"@,
            KeyCode::F11 => "F11"@,
            KeyCode::F12 => "F12"@,
            KeyCode::RO => "RO"@,
            KeyCode::KATAKANA => "KATAKANA"@,
            KeyCode::HIRAGANA => "HIRAGANA"@,
            KeyCode::HENKAN => "HENKAN"@,
            KeyCode::KATAKANAHIRAGANA => "KATAKANAHIRAGANA"@,
            KeyCode::MUHENKAN => "MUHENKAN"@,
            KeyCode::KPJPCOMMA => "KPJPCOMMA"@,
            KeyCode::KPENTER => "KPENTER"@,
            KeyCode::RIGHTCTRL => "RIGHTCTRL"@,
            KeyCode::KPSLASH => "KPSLASH"@,
            KeyCode::SYSRQ => "SYSRQ"@,
            KeyCode::RIGHTALT => "RIGHTALT"@,
            KeyCode::LINEFEED => "LINEFEED"@,
            KeyCode::HOME => "HOME"@,
            KeyCode::UP => "UP"@,
            KeyCode::PAGEUP => "PAGEUP"@,
            KeyCode::LEFT => "LEFT"@,
            KeyCode::RIGHT => "RIGHT"@,
            KeyCode::END => "END"@,
            KeyCode::DOWN => "DOWN"@,
            KeyCode::PAGEDOWN => "PAGEDOWN"@,
            KeyCode::INSERT => "INSERT"@,
            KeyCode::DELETE => "DELETE"@,
            KeyCode::MACRO => "MACRO"@,
            KeyCode::MUTE => "MUTE"@,
            KeyCode::VOLUMEDOWN => "VOLUMEDOWN"@,
            KeyCode::VOLUMEUP => "VOLUMEUP"@,
            KeyCode::POWER => "POWER"@,
            KeyCode::KPEQUAL => "KPEQUAL"@,
            KeyCode::KPPLUSMINUS => "KPPLUSMINUS"@,
            KeyCode::PAUSE => "PAUSE"@,
            KeyCode::SCALE => "SCALE"@,
            KeyCode::KPCOMMA => "KPCOMMA"@,
            KeyCode::HANGEUL => "HANGEUL"@,
            KeyCode::HANJA => "HANJA"@,
            KeyCode::YEN => "YEN"@,
            KeyCode::LEFTMETA => "LEFTMETA"@,
            KeyCode::RIGHTMETA => "RIGHTMETA"@,
            KeyCode::COMPOSE => "COMPOSE"@,
            KeyCode::STOP => "STOP"@,
            KeyCode::AGAIN => "AGAIN"@,
            KeyCode::PROPS => "PROPS"@,
            KeyCode::UNDO => "UNDO"@,
            KeyCode::FRONT => "FRONT"@,
            KeyCode::COPY => "COPY"@,
            KeyCode::OPEN => "OPEN"@,
            KeyCode::PASTE => "PASTE"@,
            KeyCode::FIND => "FIND"@,
            KeyCode::CUT => "CUT"@,
            KeyCode::HELP => "HELP"@,
            KeyCode::MENU => "MENU"@,
            KeyCode::CALC => "CALC"@,
            KeyCode::SETUP => "SETUP"@,
            KeyCode::SLEEP => "SLEEP"@,
            KeyCode::WAKEUP => "WAKEUP"@,
            KeyCode::FILE => "FILE"@,
            KeyCode::SENDFILE => "SENDFILE"@,
            KeyCode::DELETEFILE => "DELETEFILE"@,
            KeyCode::XFER => "XFER"@,
            KeyCode::PROG1 => "PROG1"@,
            KeyCode::PROG2 => "PROG2"@,
            KeyCode::WWW => "WWW"@,
            KeyCode::MSDOS => "MSDOS"@,
            KeyCode::COFFEE => "COFFEE"@,
            KeyCode::ROTATE_DISPLAY => "ROTATE_DISPLAY"@,
            KeyCode::CYCLEWINDOWS => "CYCLEWINDOWS"@,
            KeyCode::MAIL => "MAIL"@,
            KeyCode::BOOKMARKS => "BOOKMARKS"@,
            KeyCode::COMPUTER => "COMPUTER"@,
            KeyCode::BACK => "BACK"@,
            KeyCode::FORWARD => "FORWARD"@,
            KeyCode::CLOSECD => "CLOSECD"@,
            KeyCode::EJECTCD => "EJECTCD"@,
            KeyCode::EJECTCLOSECD => "EJECTCLOSECD"@,
            KeyCode::NEXTSONG => "NEXTSONG"@,
            KeyCode::PLAYPAUSE => "PLAYPAUSE"@,
            KeyCode::PREVIOUSSONG => "PREVIOUSSONG"@,
            KeyCode::STOPCD => "STOPCD"@,
            KeyCode::RECORD => "RECORD"@,
            KeyCode::REWIND => "REWIND"@,
            KeyCode::PHONE => "PHONE"@,
            KeyCode::ISO => "ISO"@,
            KeyCode::CONFIG => "CONFIG"@,
            KeyCode::HOMEPAGE => "HOMEPAGE"@,
            KeyCode::REFRESH => "REFRESH"@,
            KeyCode::EXIT => "EXIT"@,
            KeyCode::MOVE => "MOVE"@,
            KeyCode::EDIT => "EDIT"@,
            KeyCode::SCROLLUP => "SCROLLUP"@,
            KeyCode::SCROLLDOWN => "SCROLLDOWN"@,
            KeyCode::KPLEFTPAREN => "KPLEFTPAREN"@,
            KeyCode::KPRIGHTPAREN => "KPRIGHTPAREN"@,
            KeyCode::NEW => "NEW"@,
            KeyCode::REDO => "REDO"@,
            KeyCode::F13 => "F13"@,
            KeyCode::F14 => "F14"@,
            KeyCode::F15 => "F15"@,
            KeyCode::F16 => "F16"@,
            KeyCode::F17 => "F17"@,
            KeyCode::F18 => "F18"@,
            KeyCode::F19 => "F19"@,
            KeyCode::F20 => "F20"@,
            KeyCode::F21 => "F21"@,
            KeyCode::F22 => "F22"@,
            KeyCode::F23 => "F23"@,
            KeyCode::F24 => "F24"@,
            KeyCode::PLAYCD => "PLAYCD"@,
            KeyCode::PAUSECD => "PAUSECD"@,
            KeyCode::PROG3 => "PROG3"@,
            KeyCode::PROG4 => "PROG4"@,
            KeyCode::ALL_APPLICATIONS => "ALL_APPLICATIONS"@,
            KeyCode::SUSPEND => "SUSPEND"@,
            KeyCode::CLOSE => "CLOSE"@,
            KeyCode::PLAY => "PLAY"@,
            KeyCode::FASTFORWARD => "FASTFORWARD"@,
            KeyCode::BASSBOOST => "BASSBOOST"@,
            KeyCode::PRINT => "PRINT"@,
            KeyCode::HP => "HP"@,
            KeyCode::CAMERA => "CAMERA"@,
            KeyCode::SOUND => "SOUND"@,
            KeyCode::QUESTION => "QUESTION"@,
            KeyCode::EMAIL => "EMAIL"@,
            KeyCode::CHAT => "CHAT"@,
            KeyCode::SEARCH => "SEARCH"@,
            KeyCode::CONNECT => "CONNECT"@,
            KeyCode::FINANCE => "FINANCE"@,
            KeyCode::SPORT => "SPORT"@,
            KeyCode::SHOP => "SHOP"@,
            KeyCode::ALTERASE => "ALTERASE"@,
            KeyCode::CANCEL => "CANCEL"@,
            KeyCode::BRIGHTNESSDOWN => "BRIGHTNESSDOWN"@,
            KeyCode::BRIGHTNESSUP => "BRIGHTNESSUP"@,
            KeyCode::MEDIA => "MEDIA"@,
            KeyCode::SWITCHVIDEOMODE => "SWITCHVIDEOMODE"@,
            KeyCode::KBDILLUMTOGGLE => "KBDILLUMTOGGLE"@,
            KeyCode::KBDILLUMDOWN => "KBDILLUMDOWN"@,
            KeyCode::KBDILLUMUP => "KBDILLUMUP"@,
            KeyCode::SEND => "SEND"@,
            KeyCode::REPLY => "REPLY"@,
            KeyCode::FORWARDMAIL => "FORWARDMAIL"@,
            KeyCode::SAVE => "SAVE"@,
            KeyCode::DOCUMENTS => "DOCUMENTS"@,
            KeyCode::BATTERY => "BATTERY"@,
            KeyCode::BLUETOOTH => "BLUETOOTH"@,
            KeyCode::WLAN => "WLAN"@,
            KeyCode::UWB => "UWB"@,
            KeyCode::UNKNOWN => "UNKNOWN"@,
            KeyCode::VIDEO_NEXT => "VIDEO_NEXT"@,
            KeyCode::VIDEO_PREV => "VIDEO_PREV"@,
            KeyCode::BRIGHTNESS_CYCLE => "BRIGHTNESS_CYCLE"@,
            KeyCode::BRIGHTNESS_AUTO => "BRIGHTNESS_AUTO"@,
            KeyCode::DISPLAY_OFF => "DISPLAY_OFF"@,
            KeyCode::WWAN => "WWAN"@,
            KeyCode::RFKILL => "RFKILL"@,
            KeyCode::MICMUTE => "MICMUTE"@,
        }
    }

    /// The key whose numeric identifier is `n`, if any.
    pub open spec fn with_code(n: int) -> Option<KeyCode> {
        if exists|k: KeyCode| k.code() == n {
            Some(choose|k: KeyCode| k.code() == n)
        } else {
            None
        }
    }

    /// Whether the text form of the key starts with a digit, so that its
    /// symbol cannot be its text form: the ten digit keys and the 102nd key.
    pub open spec fn is_numbered(self) -> bool {
        matches!(
            self,
            KeyCode::KEY_1 | KeyCode::KEY_2 | KeyCode::KEY_3 | KeyCode::KEY_4 | KeyCode::KEY_5
                | KeyCode::KEY_6 | KeyCode::KEY_7 | KeyCode::KEY_8 | KeyCode::KEY_9
                | KeyCode::KEY_0 | KeyCode::KEY_102ND
        )
    }

    /// The symbol of the key: `KEY_` and the text form for a key whose text
    /// form starts with a digit (`KEY_1`, `KEY_102ND`), and the text form
    /// itself for every other key.
    pub open spec fn symbol(self) -> Seq<char> {
        if self.is_numbered() {
            "KEY_"@ + self.name()
        } else {
            self.name()
        }
    }

    /// The key that `text` names, if any: the one whose text form or whose
    /// symbol is `text` in upper case.
    pub open spec fn lookup(text: Seq<char>) -> Option<KeyCode> {
        if exists|k: KeyCode| k.name() == uppercase(text) || k.symbol() == uppercase(text) {
            Some(choose|k: KeyCode| k.name() == uppercase(text) || k.symbol() == uppercase(text))
        } else {
            None
        }
    }

    /// The numeric identifier of the key, as a 16-bit value.
    pub fn to_u16(self) -> (n: u16)
        ensures
            n == self.code(),
    {
        match self {
            KeyCode::NONE => 0,
            KeyCode::ESC => 1,
            KeyCode::KEY_1 => 2,
            KeyCode::KEY_2 => 3,
            KeyCode::KEY_3 => 4,
            KeyCode::KEY_4 => 5,
            KeyCode::KEY_5 => 6,
            KeyCode::KEY_6 => 7,
            KeyCode::KEY_7 => 8,
            KeyCode::KEY_8 => 9,
            KeyCode::KEY_9 => 10,
            KeyCode::KEY_0 => 11,
            KeyCode::MINUS => 12,
            KeyCode::EQUAL => 13,
            KeyCode::BACKSPACE => 14,
            KeyCode::TAB => 15,
            KeyCode::Q => 16,
            KeyCode::W => 17,
            KeyCode::E => 18,
            KeyCode::R => 19,
            KeyCode::T => 20,
            KeyCode::Y => 21,
            KeyCode::U => 22,
            KeyCode::I => 23,
            KeyCode::O => 24,
            KeyCode::P => 25,
            KeyCode::LEFTBRACE => 26,
            KeyCode::RIGHTBRACE => 27,
            KeyCode::ENTER => 28,
            KeyCode::LEFTCTRL => 29,
            KeyCode::A => 30,
            KeyCode::S => 31,
            KeyCode::D => 32,
            KeyCode::F => 33,
            KeyCode::G => 34,
            KeyCode::H => 35,
            KeyCode::J => 36,
            KeyCode::K => 37,
            KeyCode::L => 38,
            KeyCode::SEMICOLON => 39,
            KeyCode::APOSTROPHE => 40,
            KeyCode::GRAVE => 41,
            KeyCode::LEFTSHIFT => 42,
            KeyCode::BACKSLASH => 43,
            KeyCode::Z => 44,
            KeyCode::X => 45,
            KeyCode::C => 46,
            KeyCode::V => 47,
            KeyCode::B => 48,
            KeyCode::N => 49,
            KeyCode::M => 50,
            KeyCode::COMMA => 51,
            KeyCode::DOT => 52,
            KeyCode::SLASH => 53,
            KeyCode::RIGHTSHIFT => 54,
            KeyCode::KPASTERISK => 55,
            KeyCode::LEFTALT => 56,
            KeyCode::SPACE => 57,
            KeyCode::CAPSLOCK => 58,
            KeyCode::F1 => 59,
            KeyCode::F2 => 60,
            KeyCode::F3 => 61,
            KeyCode::F4 => 62,
            KeyCode::F5 => 63,
            KeyCode::F6 => 64,
            KeyCode::F7 => 65,
            KeyCode::F8 => 66,
            KeyCode::F9 => 67,
            KeyCode::F10 => 68,
            KeyCode::NUMLOCK => 69,
            KeyCode::SCROLLLOCK => 70,
            KeyCode::KP7 => 71,
            KeyCode::KP8 => 72,
            KeyCode::KP9 => 73,
            KeyCode::KPMINUS => 74,
            KeyCode::KP4 => 75,
            KeyCode::KP5 => 76,
            KeyCode::KP6 => 77,
            KeyCode::KPPLUS => 78,
            KeyCode::KP1 => 79,
            KeyCode::KP2 => 80,
            KeyCode::KP3 => 81,
            KeyCode::KP0 => 82,
            KeyCode::KPDOT => 83,
            KeyCode::ZENKAKUHANKAKU => 85,
            KeyCode::KEY_102ND => 86,
            KeyCode::F11 => 87,
            KeyCode::F12 => 88,
            KeyCode::RO => 89,
            KeyCode::KATAKANA => 90,
            KeyCode::HIRAGANA => 91,
            KeyCode::HENKAN => 92,
            KeyCode::KATAKANAHIRAGANA => 93,
            KeyCode::MUHENKAN => 94,
            KeyCode::KPJPCOMMA => 95,
            KeyCode::KPENTER => 96,
            KeyCode::RIGHTCTRL => 97,
            KeyCode::KPSLASH => 98,
            KeyCode::SYSRQ => 99,
            KeyCode::RIGHTALT => 100,
            KeyCode::LINEFEED => 101,
            KeyCode::HOME => 102,
            KeyCode::UP => 103,
            KeyCode::PAGEUP => 104,
            KeyCode::LEFT => 105,
            KeyCode::RIGHT => 106,
            KeyCode::END => 107,
            KeyCode::DOWN => 108,
            KeyCode::PAGEDOWN => 109,
            KeyCode::INSERT => 110,
            KeyCode::DELETE => 111,
            KeyCode::MACRO => 112,
            KeyCode::MUTE => 113,
            KeyCode::VOLUMEDOWN => 114,
            KeyCode::VOLUMEUP => 115,
            KeyCode::POWER => 116,
            KeyCode::KPEQUAL => 117,
            KeyCode::KPPLUSMINUS => 118,
            KeyCode::PAUSE => 119,
            KeyCode::SCALE => 120,
            KeyCode::KPCOMMA => 121,
            KeyCode::HANGEUL => 122,
            KeyCode::HANJA => 123,
            KeyCode::YEN => 124,
            KeyCode::LEFTMETA => 125,
            KeyCode::RIGHTMETA => 126,
            KeyCode::COMPOSE => 127,
            KeyCode::STOP => 128,
            KeyCode::AGAIN => 129,
            KeyCode::PROPS => 130,
            KeyCode::UNDO => 131,
            KeyCode::FRONT => 132,
            KeyCode::COPY => 133,
            KeyCode::OPEN => 134,
            KeyCode::PASTE => 135,
            KeyCode::FIND => 136,
            KeyCode::CUT => 137,
            KeyCode::HELP => 138,
            KeyCode::MENU => 139,
            KeyCode::CALC => 140,
            KeyCode::SETUP => 141,
            KeyCode::SLEEP => 142,
            KeyCode::WAKEUP => 143,
            KeyCode::FILE => 144,
            KeyCode::SENDFILE => 145,
            KeyCode::DELETEFILE => 146,
            KeyCode::XFER => 147,
            KeyCode::PROG1 => 148,
            KeyCode::PROG2 => 149,
            KeyCode::WWW => 150,
            KeyCode::MSDOS => 151,
            KeyCode::COFFEE => 152,
            KeyCode::ROTATE_DISPLAY => 153,
            KeyCode::CYCLEWINDOWS => 154,
            KeyCode::MAIL => 155,
            KeyCode::BOOKMARKS => 156,
            KeyCode::COMPUTER => 157,
            KeyCode::BACK => 158,
            KeyCode::FORWARD => 159,
            KeyCode::CLOSECD => 160,
            KeyCode::EJECTCD => 161,
            KeyCode::EJECTCLOSECD => 162,
            KeyCode::NEXTSONG => 163,
            KeyCode::PLAYPAUSE => 164,
            KeyCode::PREVIOUSSONG => 165,
            KeyCode::STOPCD => 166,
            KeyCode::RECORD => 167,
            KeyCode::REWIND => 168,
            KeyCode::PHONE => 169,
            KeyCode::ISO => 170,
            KeyCode::CONFIG => 171,
            KeyCode::HOMEPAGE => 172,
            KeyCode::REFRESH => 173,
            KeyCode::EXIT => 174,
            KeyCode::MOVE => 175,
            KeyCode::EDIT => 176,
            KeyCode::SCROLLUP => 177,
            KeyCode::SCROLLDOWN => 178,
            KeyCode::KPLEFTPAREN => 179,
            KeyCode::KPRIGHTPAREN => 180,
            KeyCode::NEW => 181,
            KeyCode::REDO => 182,
            KeyCode::F13 => 183,
            KeyCode::F14 => 184,
            KeyCode::F15 => 185,
            KeyCode::F16 => 186,
            KeyCode::F17 => 187,
            KeyCode::F18 => 188,
            KeyCode::F19 => 189,
            KeyCode::F20 => 190,
            KeyCode::F21 => 191,
            KeyCode::F22 => 192,
            KeyCode::F23 => 193,
            KeyCode::F24 => 194,
            KeyCode::PLAYCD => 200,
            KeyCode::PAUSECD => 201,
            KeyCode::PROG3 => 202,
            KeyCode::PROG4 => 203,
            KeyCode::ALL_APPLICATIONS => 204,
            KeyCode::SUSPEND => 205,
            KeyCode::CLOSE => 206,
            KeyCode::PLAY => 207,
            KeyCode::FASTFORWARD => 208,
            KeyCode::BASSBOOST => 209,
            KeyCode::PRINT => 210,
            KeyCode::HP => 211,
            KeyCode::CAMERA => 212,
            KeyCode::SOUND => 213,
            KeyCode::QUESTION => 214,
            KeyCode::EMAIL => 215,
            KeyCode::CHAT => 216,
            KeyCode::SEARCH => 217,
            KeyCode::CONNECT => 218,
            KeyCode::FINANCE => 219,
            KeyCode::SPORT => 220,
            KeyCode::SHOP => 221,
            KeyCode::ALTERASE => 222,
            KeyCode::CANCEL => 223,
            KeyCode::BRIGHTNESSDOWN => 224,
            KeyCode::BRIGHTNESSUP => 225,
            KeyCode::MEDIA => 226,
            KeyCode::SWITCHVIDEOMODE => 227,
            KeyCode::KBDILLUMTOGGLE => 228,
            KeyCode::KBDILLUMDOWN => 229,
            KeyCode::KBDILLUMUP => 230,
            KeyCode::SEND => 231,
            KeyCode::REPLY => 232,
            KeyCode::FORWARDMAIL => 233,
            KeyCode::SAVE => 234,
            KeyCode::DOCUMENTS => 235,
            KeyCode::BATTERY => 236,
            KeyCode::BLUETOOTH => 237,
            KeyCode::WLAN => 238,
            KeyCode::UWB => 239,
            KeyCode::UNKNOWN => 240,
            KeyCode::VIDEO_NEXT => 241,
            KeyCode::VIDEO_PREV => 242,
            KeyCode::BRIGHTNESS_CYCLE => 243,
            KeyCode::BRIGHTNESS_AUTO => 244,
            KeyCode::DISPLAY_OFF => 245,
            KeyCode::WWAN => 246,
            KeyCode::RFKILL => 247,
            KeyCode::MICMUTE => 248,
        }
    }

    /// The table behind `from_repr`, from a number to the key that has it.
    #[verifier::rlimit(50)]
    fn key_at(code: u16) -> (key: Option<KeyCode>)
        ensures
            key is Some <==> Self::is_assigned(code as int),
            key matches Some(k) ==> k.code() == code,
    {
        match code {
            0 => Some(KeyCode::NONE),
            1 => Some(KeyCode::ESC),
            2 => Some(KeyCode::KEY_1),
            3 => Some(KeyCode::KEY_2),
            4 => Some(KeyCode::KEY_3),
            5 => Some(KeyCode::KEY_4),
            6 => Some(KeyCode::KEY_5),
            7 => Some(KeyCode::KEY_6),
            8 => Some(KeyCode::KEY_7),
            9 => Some(KeyCode::KEY_8),
            10 => Some(KeyCode::KEY_9),
            11 => Some(KeyCode::KEY_0),
            12 => Some(KeyCode::MINUS),
            13 => Some(KeyCode::EQUAL),
            14 => Some(KeyCode::BACKSPACE),
            15 => Some(KeyCode::TAB),
            16 => Some(KeyCode::Q),
            17 => Some(KeyCode::W),
            18 => Some(KeyCode::E),
            19 => Some(KeyCode::R),
            20 => Some(KeyCode::T),
            21 => Some(KeyCode::Y),
            22 => Some(KeyCode::U),
            23 => Some(KeyCode::I),
            24 => Some(KeyCode::O),
            25 => Some(KeyCode::P),
            26 => Some(KeyCode::LEFTBRACE),
            27 => Some(KeyCode::RIGHTBRACE),
            28 => Some(KeyCode::ENTER),
            29 => Some(KeyCode::LEFTCTRL),
            30 => Some(KeyCode::A),
            31 => Some(KeyCode::S),
            32 => Some(KeyCode::D),
            33 => Some(KeyCode::F),
            34 => Some(KeyCode::G),
            35 => Some(KeyCode::H),
            36 => Some(KeyCode::J),
            37 => Some(KeyCode::K),
            38 => Some(KeyCode::L),
            39 => Some(KeyCode::SEMICOLON),
            40 => Some(KeyCode::APOSTROPHE),
            41 => Some(KeyCode::GRAVE),
            42 => Some(KeyCode::LEFTSHIFT),
            43 => Some(KeyCode::BACKSLASH),
            44 => Some(KeyCode::Z),
            45 => Some(KeyCode::X),
            46 => Some(KeyCode::C),
            47 => Some(KeyCode::V),
            48 => Some(KeyCode::B),
            49 => Some(KeyCode::N),
            50 => Some(KeyCode::M),
            51 => Some(KeyCode::COMMA),
            52 => Some(KeyCode::DOT),
            53 => Some(KeyCode::SLASH),
            54 => Some(KeyCode::RIGHTSHIFT),
            55 => Some(KeyCode::KPASTERISK),
            56 => Some(KeyCode::LEFTALT),
            57 => Some(KeyCode::SPACE),
            58 => Some(KeyCode::CAPSLOCK),
            59 => Some(KeyCode::F1),
            60 => Some(KeyCode::F2),
            61 => Some(KeyCode::F3),
            62 => Some(KeyCode::F4),
            63 => Some(KeyCode::F5),
            64 => Some(KeyCode::F6),
            65 => Some(KeyCode::F7),
            66 => Some(KeyCode::F8),
            67 => Some(KeyCode::F9),
            68 => Some(KeyCode::F10),
            69 => Some(KeyCode::NUMLOCK),
            70 => Some(KeyCode::SCROLLLOCK),
            71 => Some(KeyCode::KP7),
            72 => Some(KeyCode::KP8),
            73 => Some(KeyCode::KP9),
            74 => Some(KeyCode::KPMINUS),
            75 => Some(KeyCode::KP4),
            76 => Some(KeyCode::KP5),
            77 => Some(KeyCode::KP6),
            78 => Some(KeyCode::KPPLUS),
            79 => Some(KeyCode::KP1),
            80 => Some(KeyCode::KP2),
            81 => Some(KeyCode::KP3),
            82 => Some(KeyCode::KP0),
            83 => Some(KeyCode::KPDOT),
            85 => Some(KeyCode::ZENKAKUHANKAKU),
            86 => Some(KeyCode::KEY_102ND),
            87 => Some(KeyCode::F11),
            88 => Some(KeyCode::F12),
            89 => Some(KeyCode::RO),
            90 => Some(KeyCode::KATAKANA),
            91 => Some(KeyCode::HIRAGANA),
            92 => Some(KeyCode::HENKAN),
            93 => Some(KeyCode::KATAKANAHIRAGANA),
            94 => Some(KeyCode::MUHENKAN),
            95 => Some(KeyCode::KPJPCOMMA),
            96 => Some(KeyCode::KPENTER),
            97 => Some(KeyCode::RIGHTCTRL),
            98 => Some(KeyCode::KPSLASH),
            99 => Some(KeyCode::SYSRQ),
            100 => Some(KeyCode::RIGHTALT),
            101 => Some(KeyCode::LINEFEED),
            102 => Some(KeyCode::HOME),
            103 => Some(KeyCode::UP),
            104 => Some(KeyCode::PAGEUP),
            105 => Some(KeyCode::LEFT),
            106 => Some(KeyCode::RIGHT),
            107 => Some(KeyCode::END),
            108 => Some(KeyCode::DOWN),
            109 => Some(KeyCode::PAGEDOWN),
            110 => Some(KeyCode::INSERT),
            111 => Some(KeyCode::DELETE),
            112 => Some(KeyCode::MACRO),
            113 => Some(KeyCode::MUTE),
            114 => Some(KeyCode::VOLUMEDOWN),
            115 => Some(KeyCode::VOLUMEUP),
            116 => Some(KeyCode::POWER),
            117 => Some(KeyCode::KPEQUAL),
            118 => Some(KeyCode::KPPLUSMINUS),
            119 => Some(KeyCode::PAUSE),
            120 => Some(KeyCode::SCALE),
            121 => Some(KeyCode::KPCOMMA),
            122 => Some(KeyCode::HANGEUL),
            123 => Some(KeyCode::HANJA),
            124 => Some(KeyCode::YEN),
            125 => Some(KeyCode::LEFTMETA),
            126 => Some(KeyCode::RIGHTMETA),
            127 => Some(KeyCode::COMPOSE),
            128 => Some(KeyCode::STOP),
            129 => Some(KeyCode::AGAIN),
            130 => Some(KeyCode::PROPS),
            131 => Some(KeyCode::UNDO),
            132 => Some(KeyCode::FRONT),
            133 => Some(KeyCode::COPY),
            134 => Some(KeyCode::OPEN),
            135 => Some(KeyCode::PASTE),
            136 => Some(KeyCode::FIND),
            137 => Some(KeyCode::CUT),
            138 => Some(KeyCode::HELP),
            139 => Some(KeyCode::MENU),
            140 => Some(KeyCode::CALC),
            141 => Some(KeyCode::SETUP),
            142 => Some(KeyCode::SLEEP),
            143 => Some(KeyCode::WAKEUP),
            144 => Some(KeyCode::FILE),
            145 => Some(KeyCode::SENDFILE),
            146 => Some(KeyCode::DELETEFILE),
            147 => Some(KeyCode::XFER),
            148 => Some(KeyCode::PROG1),
            149 => Some(KeyCode::PROG2),
            150 => Some(KeyCode::WWW),
            151 => Some(KeyCode::MSDOS),
            152 => Some(KeyCode::COFFEE),
            153 => Some(KeyCode::ROTATE_DISPLAY),
            154 => Some(KeyCode::CYCLEWINDOWS),
            155 => Some(KeyCode::MAIL),
            156 => Some(KeyCode::BOOKMARKS),
            157 => Some(KeyCode::COMPUTER),
            158 => Some(KeyCode::BACK),
            159 => Some(KeyCode::FORWARD),
            160 => Some(KeyCode::CLOSECD),
            161 => Some(KeyCode::EJECTCD),
            162 => Some(KeyCode::EJECTCLOSECD),
            163 => Some(KeyCode::NEXTSONG),
            164 => Some(KeyCode::PLAYPAUSE),
            165 => Some(KeyCode::PREVIOUSSONG),
            166 => Some(KeyCode::STOPCD),
            167 => Some(KeyCode::RECORD),
            168 => Some(KeyCode::REWIND),
            169 => Some(KeyCode::PHONE),
            170 => Some(KeyCode::ISO),
            171 => Some(KeyCode::CONFIG),
            172 => Some(KeyCode::HOMEPAGE),
            173 => Some(KeyCode::REFRESH),
            174 => Some(KeyCode::EXIT),
            175 => Some(KeyCode::MOVE),
            176 => Some(KeyCode::EDIT),
            177 => Some(KeyCode::SCROLLUP),
            178 => Some(KeyCode::SCROLLDOWN),
            179 => Some(KeyCode::KPLEFTPAREN),
            180 => Some(KeyCode::KPRIGHTPAREN),
            181 => Some(KeyCode::NEW),
            182 => Some(KeyCode::REDO),
            183 => Some(KeyCode::F13),
            184 => Some(KeyCode::F14),
            185 => Some(KeyCode::F15),
            186 => Some(KeyCode::F16),
            187 => Some(KeyCode::F17),
            188 => Some(KeyCode::F18),
            189 => Some(KeyCode::F19),
            190 => Some(KeyCode::F20),
            191 => Some(KeyCode::F21),
            192 => Some(KeyCode::F22),
            193 => Some(KeyCode::F23),
            194 => Some(KeyCode::F24),
            200 => Some(KeyCode::PLAYCD),
            201 => Some(KeyCode::PAUSECD),
            202 => Some(KeyCode::PROG3),
            203 => Some(KeyCode::PROG4),
            204 => Some(KeyCode::ALL_APPLICATIONS),
            205 => Some(KeyCode::SUSPEND),
            206 => Some(KeyCode::CLOSE),
            207 => Some(KeyCode::PLAY),
            208 => Some(KeyCode::FASTFORWARD),
            209 => Some(KeyCode::BASSBOOST),
            210 => Some(KeyCode::PRINT),
            211 => Some(KeyCode::HP),
            212 => Some(KeyCode::CAMERA),
            213 => Some(KeyCode::SOUND),
            214 => Some(KeyCode::QUESTION),
            215 => Some(KeyCode::EMAIL),
            216 => Some(KeyCode::CHAT),
            217 => Some(KeyCode::SEARCH),
            218 => Some(KeyCode::CONNECT),
            219 => Some(KeyCode::FINANCE),
            220 => Some(KeyCode::SPORT),
            221 => Some(KeyCode::SHOP),
            222 => Some(KeyCode::ALTERASE),
            223 => Some(KeyCode::CANCEL),
            224 => Some(KeyCode::BRIGHTNESSDOWN),
            225 => Some(KeyCode::BRIGHTNESSUP),
            226 => Some(KeyCode::MEDIA),
            227 => Some(KeyCode::SWITCHVIDEOMODE),
            228 => Some(KeyCode::KBDILLUMTOGGLE),
            229 => Some(KeyCode::KBDILLUMDOWN),
            230 => Some(KeyCode::KBDILLUMUP),
            231 => Some(KeyCode::SEND),
            232 => Some(KeyCode::REPLY),
            233 => Some(KeyCode::FORWARDMAIL),
            234 => Some(KeyCode::SAVE),
            235 => Some(KeyCode::DOCUMENTS),
            236 => Some(KeyCode::BATTERY),
            237 => Some(KeyCode::BLUETOOTH),
            238 => Some(KeyCode::WLAN),
            239 => Some(KeyCode::UWB),
            240 => Some(KeyCode::UNKNOWN),
            241 => Some(KeyCode::VIDEO_NEXT),
            242 => Some(KeyCode::VIDEO_PREV),
            243 => Some(KeyCode::BRIGHTNESS_CYCLE),
            244 => Some(KeyCode::BRIGHTNESS_AUTO),
            245 => Some(KeyCode::DISPLAY_OFF),
            246 => Some(KeyCode::WWAN),
            247 => Some(KeyCode::RFKILL),
            248 => Some(KeyCode::MICMUTE),
            _ => None,
        }
    }

    /// The key with the numeric identifier `code`, or `None` where no key
    /// has it. The numbers that have a key are those from 0 to 248 but for
    /// 84 and for 195 to 199.
    pub fn from_repr(code: u16) -> (key: Option<KeyCode>)
        ensures
            key == Self::with_code(code as int),
            key is Some <==> Self::is_assigned(code as int),
    {
        let key = Self::key_at(code);
        proof {
            match key {
                Some(k) => lemma_codes_distinct(k, Self::with_code(code as int).unwrap()),
                None => {
                    assert forall|k: KeyCode| k.code() != code by {
                        lemma_code_assigned(k);
                    }
                },
            }
        }
        key
    }

    /// The key with the numeric identifier `code`, or the error
    /// `OutOfRange` where no key has it.
    pub fn from_code(code: u16) -> (key: Result<KeyCode, KeyCodeError>)
        ensures
            key == match Self::with_code(code as int) {
                Some(k) => Ok::<KeyCode, KeyCodeError>(k),
                None => Err(KeyCodeError::OutOfRange),
            },
    {
        match Self::from_repr(code) {
            Some(k) => Ok(k),
            None => Err(KeyCodeError::OutOfRange),
        }
    }

    /// The canonical text form of the key.
    pub fn as_ref(&self) -> (text: &'static str)
        ensures
            text@ == self.name(),
    {
        match self {
            KeyCode::NONE => "NONE",
            KeyCode::ESC => "ESC",
            KeyCode::KEY_1 => "1",
            KeyCode::KEY_2 => "2",
            KeyCode::KEY_3 => "3",
            KeyCode::KEY_4 => "4",
            KeyCode::KEY_5 => "5",
            KeyCode::KEY_6 => "6",
            KeyCode::KEY_7 => "7",
            KeyCode::KEY_8 => "8",
            KeyCode::KEY_9 => "9",
            KeyCode::KEY_0 => "0",
            KeyCode::MINUS => "MINUS",
            KeyCode::EQUAL => "EQUAL",
            KeyCode::BACKSPACE => "BACKSPACE",
            KeyCode::TAB => "TAB",
            KeyCode::Q => "Q",
            KeyCode::W => "W",
            KeyCode::E => "E",
            KeyCode::R => "R",
            KeyCode::T => "T",
            KeyCode::Y => "Y",
            KeyCode::U => "U",
            KeyCode::I => "I",
            KeyCode::O => "O",
            KeyCode::P => "P",
            KeyCode::LEFTBRACE => "LEFTBRACE",
            KeyCode::RIGHTBRACE => "RIGHTBRACE",
            KeyCode::ENTER => "ENTER",
            KeyCode::LEFTCTRL => "LEFTCTRL",
            KeyCode::A => "A",
            KeyCode::S => "S",
            KeyCode::D => "D",
            KeyCode::F => "F",
            KeyCode::G => "G",
            KeyCode::H => "H",
            KeyCode::J => "J",
            KeyCode::K => "K",
            KeyCode::L => "L",
            KeyCode::SEMICOLON => "SEMICOLON",
            KeyCode::APOSTROPHE => "APOSTROPHE",
            KeyCode::GRAVE => "GRAVE",
            KeyCode::LEFTSHIFT => "LEFTSHIFT",
            KeyCode::BACKSLASH => "BACKSLASH",
            KeyCode::Z => "Z",
            KeyCode::X => "X",
            KeyCode::C => "C",
            KeyCode::V => "V",
            KeyCode::B => "B",
            KeyCode::N => "N",
            KeyCode::M => "M",
            KeyCode::COMMA => "COMMA",
            KeyCode::DOT => "DOT",
            KeyCode::SLASH => "SLASH",
            KeyCode::RIGHTSHIFT => "RIGHTSHIFT",
            KeyCode::KPASTERISK => "KPASTERISK",
            KeyCode::LEFTALT => "LEFTALT",
            KeyCode::SPACE => "SPACE",
            KeyCode::CAPSLOCK => "CAPSLOCK",
            KeyCode::F1 => "F1",
            KeyCode::F2 => "F2",
            KeyCode::F3 => "F3",
            KeyCode::F4 => "F4",
            KeyCode::F5 => "F5",
            KeyCode::F6 => "F6",
            KeyCode::F7 => "F7",
            KeyCode::F8 => "F8",
            KeyCode::F9 => "F9",
            KeyCode::F10 => "F10",
            KeyCode::NUMLOCK => "NUMLOCK",
            KeyCode::SCROLLLOCK => "SCROLLLOCK",
            KeyCode::KP7 => "KP7",
            KeyCode::KP8 => "KP8",
            KeyCode::KP9 => "KP9",
            KeyCode::KPMINUS => "KPMINUS",
            KeyCode::KP4 => "KP4",
            KeyCode::KP5 => "KP5",
            KeyCode::KP6 => "KP6",
            KeyCode::KPPLUS => "KPPLUS",
            KeyCode::KP1 => "KP1",
            KeyCode::KP2 => "KP2",
            KeyCode::KP3 => "KP3",
            KeyCode::KP0 => "KP0",
            KeyCode::KPDOT => "KPDOT",
            KeyCode::ZENKAKUHANKAKU => "ZENKAKUHANKAKU",
            KeyCode::KEY_102ND => "102ND",
            KeyCode::F11 => "F11",
            KeyCode::F12 => "F12",
            KeyCode::RO => "RO",
            KeyCode::KATAKANA => "KATAKANA",
            KeyCode::HIRAGANA => "HIRAGANA",
            KeyCode::HENKAN => "HENKAN",
            KeyCode::KATAKANAHIRAGANA => "KATAKANAHIRAGANA",
            KeyCode::MUHENKAN => "MUHENKAN",
            KeyCode::KPJPCOMMA => "KPJPCOMMA",
            KeyCode::KPENTER => "KPENTER",
            KeyCode::RIGHTCTRL => "RIGHTCTRL",
            KeyCode::KPSLASH => "KPSLASH",
            KeyCode::SYSRQ => "SYSRQ",
            KeyCode::RIGHTALT => "RIGHTALT",
            KeyCode::LINEFEED => "LINEFEED",
            KeyCode::HOME => "HOME",
            KeyCode::UP => "UP",
            KeyCode::PAGEUP => "PAGEUP",
            KeyCode::LEFT => "LEFT",
            KeyCode::RIGHT => "RIGHT",
            KeyCode::END => "END",
            KeyCode::DOWN => "DOWN",
            KeyCode::PAGEDOWN => "PAGEDOWN",
            KeyCode::INSERT => "INSERT",
            KeyCode::DELETE => "DELETE",
            KeyCode::MACRO => "MACRO",
            KeyCode::MUTE => "MUTE",
            KeyCode::VOLUMEDOWN => "VOLUMEDOWN",
            KeyCode::VOLUMEUP => "VOLUMEUP",
            KeyCode::POWER => "POWER",
            KeyCode::KPEQUAL => "KPEQUAL",
            KeyCode::KPPLUSMINUS => "KPPLUSMINUS",
            KeyCode::PAUSE => "PAUSE",
            KeyCode::SCALE => "SCALE",
            KeyCode::KPCOMMA => "KPCOMMA",
            KeyCode::HANGEUL => "HANGEUL",
            KeyCode::HANJA => "HANJA",
            KeyCode::YEN => "YEN",
            KeyCode::LEFTMETA => "LEFTMETA",
            KeyCode::RIGHTMETA => "RIGHTMETA",
            KeyCode::COMPOSE => "COMPOSE",
            KeyCode::STOP => "STOP",
            KeyCode::AGAIN => "AGAIN",
            KeyCode::PROPS => "PROPS",
            KeyCode::UNDO => "UNDO",
            KeyCode::FRONT => "FRONT",
            KeyCode::COPY => "COPY",
            KeyCode::OPEN => "OPEN",
            KeyCode::PASTE => "PASTE",
            KeyCode::FIND => "FIND",
            KeyCode::CUT => "CUT",
            KeyCode::HELP => "HELP",
            KeyCode::MENU => "MENU",
            KeyCode::CALC => "CALC",
            KeyCode::SETUP => "SETUP",
            KeyCode::SLEEP => "SLEEP",
            KeyCode::WAKEUP => "WAKEUP",
            KeyCode::FILE => "FILE",
            KeyCode::SENDFILE => "SENDFILE",
            KeyCode::DELETEFILE => "DELETEFILE",
            KeyCode::XFER => "XFER",
            KeyCode::PROG1 => "PROG1",
            KeyCode::PROG2 => "PROG2",
            KeyCode::WWW => "WWW",
            KeyCode::MSDOS => "MSDOS",
            KeyCode::COFFEE => "COFFEE",
            KeyCode::ROTATE_DISPLAY => "ROTATE_DISPLAY",
            KeyCode::CYCLEWINDOWS => "CYCLEWINDOWS",
            KeyCode::MAIL => "MAIL",
            KeyCode::BOOKMARKS => "BOOKMARKS",
            KeyCode::COMPUTER => "COMPUTER",
            KeyCode::BACK => "BACK",
            KeyCode::FORWARD => "FORWARD",
            KeyCode::CLOSECD => "CLOSECD",
            KeyCode::EJECTCD => "EJECTCD",
            KeyCode::EJECTCLOSECD => "EJECTCLOSECD",
            KeyCode::NEXTSONG => "NEXTSONG",
            KeyCode::PLAYPAUSE => "PLAYPAUSE",
            KeyCode::PREVIOUSSONG => "PREVIOUSSONG",
            KeyCode::STOPCD => "STOPCD",
            KeyCode::RECORD => "RECORD",
            KeyCode::REWIND => "REWIND",
            KeyCode::PHONE => "PHONE",
            KeyCode::ISO => "ISO",
            KeyCode::CONFIG => "CONFIG",
            KeyCode::HOMEPAGE => "HOMEPAGE",
            KeyCode::REFRESH => "REFRESH",
            KeyCode::EXIT => "EXIT",
            KeyCode::MOVE => "MOVE",
            KeyCode::EDIT => "EDIT",
            KeyCode::SCROLLUP => "SCROLLUP",
            KeyCode::SCROLLDOWN => "SCROLLDOWN",
            KeyCode::KPLEFTPAREN => "KPLEFTPAREN",
            KeyCode::KPRIGHTPAREN => "KPRIGHTPAREN",
            KeyCode::NEW => "NEW",
            KeyCode::REDO => "REDO",
            KeyCode::F13 => "F13",
            KeyCode::F14 => "F14",
            KeyCode::F15 => "F15",
            KeyCode::F16 => "F16",
            KeyCode::F17 => "F17",
            KeyCode::F18 => "F18",
            KeyCode::F19 => "F19",
            KeyCode::F20 => "F20",
            KeyCode::F21 => "F21",
            KeyCode::F22 => "F22",
            KeyCode::F23 => "F23",
            KeyCode::F24 => "F24",
            KeyCode::PLAYCD => "PLAYCD",
            KeyCode::PAUSECD => "PAUSECD",
            KeyCode::PROG3 => "PROG3",
            KeyCode::PROG4 => "PROG4",
            KeyCode::ALL_APPLICATIONS => "ALL_APPLICATIONS",
            KeyCode::SUSPEND => "SUSPEND",
            KeyCode::CLOSE => "CLOSE",
            KeyCode::PLAY => "PLAY",
            KeyCode::FASTFORWARD => "FASTFORWARD",
            KeyCode::BASSBOOST => "BASSBOOST",
            KeyCode::PRINT => "PRINT",
            KeyCode::HP => "HP",
            KeyCode::CAMERA => "CAMERA",
            KeyCode::SOUND => "SOUND",
            KeyCode::QUESTION => "QUESTION",
            KeyCode::EMAIL => "EMAIL",
            KeyCode::CHAT => "CHAT",
            KeyCode::SEARCH => "SEARCH",
            KeyCode::CONNECT => "CONNECT",
            KeyCode::FINANCE => "FINANCE",
            KeyCode::SPORT => "SPORT",
            KeyCode::SHOP => "SHOP",
            KeyCode::ALTERASE => "ALTERASE",
            KeyCode::CANCEL => "CANCEL",
            KeyCode::BRIGHTNESSDOWN => "BRIGHTNESSDOWN",
            KeyCode::BRIGHTNESSUP => "BRIGHTNESSUP",
            KeyCode::MEDIA => "MEDIA",
            KeyCode::SWITCHVIDEOMODE => "SWITCHVIDEOMODE",
            KeyCode::KBDILLUMTOGGLE => "KBDILLUMTOGGLE",
            KeyCode::KBDILLUMDOWN => "KBDILLUMDOWN",
            KeyCode::KBDILLUMUP => "KBDILLUMUP",
            KeyCode::SEND => "SEND",
            KeyCode::REPLY => "REPLY",
            KeyCode::FORWARDMAIL => "FORWARDMAIL",
            KeyCode::SAVE => "SAVE",
            KeyCode::DOCUMENTS => "DOCUMENTS",
            KeyCode::BATTERY => "BATTERY",
            KeyCode::BLUETOOTH => "BLUETOOTH",
            KeyCode::WLAN => "WLAN",
            KeyCode::UWB => "UWB",
            KeyCode::UNKNOWN => "UNKNOWN",
            KeyCode::VIDEO_NEXT => "VIDEO_NEXT",
            KeyCode::VIDEO_PREV => "VIDEO_PREV",
            KeyCode::BRIGHTNESS_CYCLE => "BRIGHTNESS_CYCLE",
            KeyCode::BRIGHTNESS_AUTO => "BRIGHTNESS_AUTO",
            KeyCode::DISPLAY_OFF => "DISPLAY_OFF",
            KeyCode::WWAN => "WWAN",
            KeyCode::RFKILL => "RFKILL",
            KeyCode::MICMUTE => "MICMUTE",
        }
    }

    /// Whether the text form of the key starts with a digit.
    fn numbered(self) -> (yes: bool)
        ensures
            yes == self.is_numbered(),
    {
        matches!(
            self,
            KeyCode::KEY_1 | KeyCode::KEY_2 | KeyCode::KEY_3 | KeyCode::KEY_4 | KeyCode::KEY_5
                | KeyCode::KEY_6 | KeyCode::KEY_7 | KeyCode::KEY_8 | KeyCode::KEY_9
                | KeyCode::KEY_0 | KeyCode::KEY_102ND
        )
    }

    /// Whether `text`, read without regard to the case of ASCII letters, is
    /// the text form of the key or its symbol.
    pub fn is_named(self, text: &str) -> (hit: bool)
        ensures
            hit == (self.name() == uppercase(text@) || self.symbol() == uppercase(text@)),
    {
        let name = self.as_ref();
        proof {
            reveal_strlit("");
            assert(""@ + name@ =~= name@);
        }
        spells(text, "", name) || (self.numbered() && spells(text, "KEY_", name))
    }

    /// The key that `text` names, without regard to the case of ASCII
    /// letters, or the error `UnknownKeyName` where it names none.
    pub fn from_text(text: &str) -> (key: Result<KeyCode, KeyCodeError>)
        ensures
            key == match Self::lookup(text@) {
                Some(k) => Ok::<KeyCode, KeyCodeError>(k),
                None => Err(KeyCodeError::UnknownKeyName),
            },
            key matches Ok(k) ==> k.name() == uppercase(text@) || k.symbol() == uppercase(text@),
            key is Err ==> forall|k: KeyCode|
                k.name() != uppercase(text@) && k.symbol() != uppercase(text@),
    {
        let mut code: u16 = 0;
        while code <= LAST_KEY_CODE
            invariant
                code <= LAST_KEY_CODE + 1,
                forall|k: KeyCode|
                    k.code() < code ==> k.name() != uppercase(text@) && k.symbol() != uppercase(
                        text@,
                    ),
            decreases LAST_KEY_CODE + 1 - code,
        {
            if let Some(key) = Self::from_repr(code) {
                if key.is_named(text) {
                    proof {
                        lemma_texts_distinct(key, Self::lookup(text@).unwrap(), uppercase(text@));
                    }
                    return Ok(key);
                }
                assert forall|k: KeyCode| k.code() == code implies k.name() != uppercase(text@)
                    && k.symbol() != uppercase(text@) by {
                    lemma_codes_distinct(k, key);
                }
            }
            code += 1;
        }
        assert forall|k: KeyCode| k.name() != uppercase(text@) && k.symbol() != uppercase(text@) by {
            lemma_code_assigned(k);
        }
        Err(KeyCodeError::UnknownKeyName)
    }
}

impl From<KeyCode> for usize {
    fn from(value: KeyCode) -> (n: usize) {
        value.to_u16() as usize
    }
}

impl vstd::std_specs::convert::FromSpecImpl<KeyCode> for usize {
    open spec fn obeys_from_spec() -> bool {
        true
    }

    open spec fn from_spec(value: KeyCode) -> usize {
        value.code() as usize
    }
}

impl From<KeyCode> for u16 {
    fn from(value: KeyCode) -> (n: u16) {
        value.to_u16()
    }
}

impl vstd::std_specs::convert::FromSpecImpl<KeyCode> for u16 {
    open spec fn obeys_from_spec() -> bool {
        true
    }

    open spec fn from_spec(value: KeyCode) -> u16 {
        value.code() as u16
    }
}

impl From<KeyCode> for u8 {
    fn from(value: KeyCode) -> (n: u8) {
        proof {
            lemma_code_assigned(value);
        }
        value.to_u16() as u8
    }
}

impl vstd::std_specs::convert::FromSpecImpl<KeyCode> for u8 {
    open spec fn obeys_from_spec() -> bool {
        true
    }

    open spec fn from_spec(value: KeyCode) -> u8 {
        value.code() as u8
    }
}

impl std::str::FromStr for KeyCode {
    type Err = KeyCodeError;

    fn from_str(text: &str) -> (key: Result<KeyCode, KeyCodeError>)
        ensures
            key == match KeyCode::lookup(text@) {
                Some(k) => Ok::<KeyCode, KeyCodeError>(k),
                None => Err(KeyCodeError::UnknownKeyName),
            },
    {
        KeyCode::from_text(text)
    }
}

/// Every key's numeric identifier is an assigned one, so it fits in a byte.
pub proof fn lemma_code_assigned(k: KeyCode)
    ensures
        KeyCode::is_assigned(k.code()),
{
}

/// No two keys share a numeric identifier.
pub proof fn lemma_codes_distinct(a: KeyCode, b: KeyCode)
    requires
        a.code() == b.code(),
    ensures
        a == b,
{
}

/// What the table of names holds, read off the literals: a name is in upper
/// case, does not start with `KE`, and belongs to one key only.
#[verifier::rlimit(50)]
proof fn lemma_name_table(a: KeyCode, b: KeyCode)
    ensures
        uppercase(a.name()) == a.name(),
        a.name().len() >= 1,
        !(a.name().len() >= 2 && a.name()[0] == 'K' && a.name()[1] == 'E'),
        a.name() == b.name() ==> a == b,
{
    reveal_strlit("NONE");
    reveal_strlit("ESC");
    reveal_strlit("1");
    reveal_strlit("2");
    reveal_strlit("3");
    reveal_strlit("4");
    reveal_strlit("5");
    reveal_strlit("6");
    reveal_strlit("7");
    reveal_strlit("8");
    reveal_strlit("9");
    reveal_strlit("0");
    reveal_strlit("MINUS");
    reveal_strlit("EQUAL");
    reveal_strlit("BACKSPACE");
    reveal_strlit("TAB");
    reveal_strlit("Q");
    reveal_strlit("W");
    reveal_strlit("E");
    reveal_strlit("R");
    reveal_strlit("T");
    reveal_strlit("Y");
    reveal_strlit("U");
    reveal_strlit("I");
    reveal_strlit("O");
    reveal_strlit("P");
    reveal_strlit("LEFTBRACE");
    reveal_strlit("RIGHTBRACE");
    reveal_strlit("ENTER");
    reveal_strlit("LEFTCTRL");
    reveal_strlit("A");
    reveal_strlit("S");
    reveal_strlit("D");
    reveal_strlit("F");
    reveal_strlit("G");
    reveal_strlit("H");
    reveal_strlit("J");
    reveal_strlit("K");
    reveal_strlit("L");
    reveal_strlit("SEMICOLON");
    reveal_strlit("APOSTROPHE");
    reveal_strlit("GRAVE");
    reveal_strlit("LEFTSHIFT");
    reveal_strlit("BACKSLASH");
    reveal_strlit("Z");
    reveal_strlit("X");
    reveal_strlit("C");
    reveal_strlit("V");
    reveal_strlit("B");
    reveal_strlit("N");
    reveal_strlit("M");
    reveal_strlit("COMMA");
    reveal_strlit("DOT");
    reveal_strlit("SLASH");
    reveal_strlit("RIGHTSHIFT");
    reveal_strlit("KPASTERISK");
    reveal_strlit("LEFTALT");
    reveal_strlit("SPACE");
    reveal_strlit("CAPSLOCK");
    reveal_strlit("F1");
    reveal_strlit("F2");
    reveal_strlit("F3");
    reveal_strlit("F4");
    reveal_strlit("F5");
    reveal_strlit("F6");
    reveal_strlit("F7");
    reveal_strlit("F8");
    reveal_strlit("F9");
    reveal_strlit("F10");
    reveal_strlit("NUMLOCK");
    reveal_strlit("SCROLLLOCK");
    reveal_strlit("KP7");
    reveal_strlit("KP8");
    reveal_strlit("KP9");
    reveal_strlit("KPMINUS");
    reveal_strlit("KP4");
    reveal_strlit("KP5");
    reveal_strlit("KP6");
    reveal_strlit("KPPLUS");
    reveal_strlit("KP1");
    reveal_strlit("KP2");
    reveal_strlit("KP3");
    reveal_strlit("KP0");
    reveal_strlit("KPDOT");
    reveal_strlit("ZENKAKUHANKAKU");
    reveal_strlit("102ND");
    reveal_strlit("F11");
    reveal_strlit("F12");
    reveal_strlit("RO");
    reveal_strlit("KATAKANA");
    reveal_strlit("HIRAGANA");
    reveal_strlit("HENKAN");
    reveal_strlit("KATAKANAHIRAGANA");
    reveal_strlit("MUHENKAN");
    reveal_strlit("KPJPCOMMA");
    reveal_strlit("KPENTER");
    reveal_strlit("RIGHTCTRL");
    reveal_strlit("KPSLASH");
    reveal_strlit("SYSRQ");
    reveal_strlit("RIGHTALT");
    reveal_strlit("LINEFEED");
    reveal_strlit("HOME");
    reveal_strlit("UP");
    reveal_strlit("PAGEUP");
    reveal_strlit("LEFT");
    reveal_strlit("RIGHT");
    reveal_strlit("END");
    reveal_strlit("DOWN");
    reveal_strlit("PAGEDOWN");
    reveal_strlit("INSERT");
    reveal_strlit("DELETE");
    reveal_strlit("MACRO");
    reveal_strlit("MUTE");
    reveal_strlit("VOLUMEDOWN");
    reveal_strlit("VOLUMEUP");
    reveal_strlit("POWER");
    reveal_strlit("KPEQUAL");
    reveal_strlit("KPPLUSMINUS");
    reveal_strlit("PAUSE");
    reveal_strlit("SCALE");
    reveal_strlit("KPCOMMA");
    reveal_strlit("HANGEUL");
    reveal_strlit("HANJA");
    reveal_strlit("YEN");
    reveal_strlit("LEFTMETA");
    reveal_strlit("RIGHTMETA");
    reveal_strlit("COMPOSE");
    reveal_strlit("STOP");
    reveal_strlit("AGAIN");
    reveal_strlit("PROPS");
    reveal_strlit("UNDO");
    reveal_strlit("FRONT");
    reveal_strlit("COPY");
    reveal_strlit("OPEN");
    reveal_strlit("PASTE");
    reveal_strlit("FIND");
    reveal_strlit("CUT");
    reveal_strlit("HELP");
    reveal_strlit("MENU");
    reveal_strlit("CALC");
    reveal_strlit("SETUP");
    reveal_strlit("SLEEP");
    reveal_strlit("WAKEUP");
    reveal_strlit("FILE");
    reveal_strlit("SENDFILE");
    reveal_strlit("DELETEFILE");
    reveal_strlit("XFER");
    reveal_strlit("PROG1");
    reveal_strlit("PROG2");
    reveal_strlit("WWW");
    reveal_strlit("MSDOS");
    reveal_strlit("COFFEE");
    reveal_strlit("ROTATE_DISPLAY");
    reveal_strlit("CYCLEWINDOWS");
    reveal_strlit("MAIL");
    reveal_strlit("BOOKMARKS");
    reveal_strlit("COMPUTER");
    reveal_strlit("BACK");
    reveal_strlit("FORWARD");
    reveal_strlit("CLOSECD");
    reveal_strlit("EJECTCD");
    reveal_strlit("EJECTCLOSECD");
    reveal_strlit("NEXTSONG");
    reveal_strlit("PLAYPAUSE");
    reveal_strlit("PREVIOUSSONG");
    reveal_strlit("STOPCD");
    reveal_strlit("RECORD");
    reveal_strlit("REWIND");
    reveal_strlit("PHONE");
    reveal_strlit("ISO");
    reveal_strlit("CONFIG");
    reveal_strlit("HOMEPAGE");
    reveal_strlit("REFRESH");
    reveal_strlit("EXIT");
    reveal_strlit("MOVE");
    reveal_strlit("EDIT");
    reveal_strlit("SCROLLUP");
    reveal_strlit("SCROLLDOWN");
    reveal_strlit("KPLEFTPAREN");
    reveal_strlit("KPRIGHTPAREN");
    reveal_strlit("NEW");
    reveal_strlit("REDO");
    reveal_strlit("F13");
    reveal_strlit("F14");
    reveal_strlit("F15");
    reveal_strlit("F16");
    reveal_strlit("F17");
    reveal_strlit("F18");
    reveal_strlit("F19");
    reveal_strlit("F20");
    reveal_strlit("F21");
    reveal_strlit("F22");
    reveal_strlit("F23");
    reveal_strlit("F24");
    reveal_strlit("PLAYCD");
    reveal_strlit("PAUSECD");
    reveal_strlit("PROG3");
    reveal_strlit("PROG4");
    reveal_strlit("ALL_APPLICATIONS");
    reveal_strlit("SUSPEND");
    reveal_strlit("CLOSE");
    reveal_strlit("PLAY");
    reveal_strlit("FASTFORWARD");
    reveal_strlit("BASSBOOST");
    reveal_strlit("PRINT");
    reveal_strlit("HP");
    reveal_strlit("CAMERA");
    reveal_strlit("SOUND");
    reveal_strlit("QUESTION");
    reveal_strlit("EMAIL");
    reveal_strlit("CHAT");
    reveal_strlit("SEARCH");
    reveal_strlit("CONNECT");
    reveal_strlit("FINANCE");
    reveal_strlit("SPORT");
    reveal_strlit("SHOP");
    reveal_strlit("ALTERASE");
    reveal_strlit("CANCEL");
    reveal_strlit("BRIGHTNESSDOWN");
    reveal_strlit("BRIGHTNESSUP");
    reveal_strlit("MEDIA");
    reveal_strlit("SWITCHVIDEOMODE");
    reveal_strlit("KBDILLUMTOGGLE");
    reveal_strlit("KBDILLUMDOWN");
    reveal_strlit("KBDILLUMUP");
    reveal_strlit("SEND");
    reveal_strlit("REPLY");
    reveal_strlit("FORWARDMAIL");
    reveal_strlit("SAVE");
    reveal_strlit("DOCUMENTS");
    reveal_strlit("BATTERY");
    reveal_strlit("BLUETOOTH");
    reveal_strlit("WLAN");
    reveal_strlit("UWB");
    reveal_strlit("UNKNOWN");
    reveal_strlit("VIDEO_NEXT");
    reveal_strlit("VIDEO_PREV");
    reveal_strlit("BRIGHTNESS_CYCLE");
    reveal_strlit("BRIGHTNESS_AUTO");
    reveal_strlit("DISPLAY_OFF");
    reveal_strlit("WWAN");
    reveal_strlit("RFKILL");
    reveal_strlit("MICMUTE");
    let s = a.name();
    let t = b.name();
    assert(s.len() <= 16);
    assert(0 < s.len() ==> ascii_upper(s[0]) == s[0]);
    assert(1 < s.len() ==> ascii_upper(s[1]) == s[1]);
    assert(2 < s.len() ==> ascii_upper(s[2]) == s[2]);
    assert(3 < s.len() ==> ascii_upper(s[3]) == s[3]);
    assert(4 < s.len() ==> ascii_upper(s[4]) == s[4]);
    assert(5 < s.len() ==> ascii_upper(s[5]) == s[5]);
    assert(6 < s.len() ==> ascii_upper(s[6]) == s[6]);
    assert(7 < s.len() ==> ascii_upper(s[7]) == s[7]);
    assert(8 < s.len() ==> ascii_upper(s[8]) == s[8]);
    assert(9 < s.len() ==> ascii_upper(s[9]) == s[9]);
    assert(10 < s.len() ==> ascii_upper(s[10]) == s[10]);
    assert(11 < s.len() ==> ascii_upper(s[11]) == s[11]);
    assert(12 < s.len() ==> ascii_upper(s[12]) == s[12]);
    assert(13 < s.len() ==> ascii_upper(s[13]) == s[13]);
    assert(14 < s.len() ==> ascii_upper(s[14]) == s[14]);
    assert(15 < s.len() ==> ascii_upper(s[15]) == s[15]);
    assert(uppercase(s) =~= s);
    if s == t {
        assert(s.len() == t.len());
        assert(s[0] == t[0]);
        assert(s[1] == t[1]);
        assert(s[2] == t[2]);
        assert(s[3] == t[3]);
        assert(s[4] == t[4]);
        assert(s[5] == t[5]);
        assert(s[6] == t[6]);
        assert(s[7] == t[7]);
        assert(s[8] == t[8]);
        assert(s[9] == t[9]);
        assert(s[10] == t[10]);
        assert(s[11] == t[11]);
        assert(s[12] == t[12]);
        assert(s[13] == t[13]);
        assert(s[14] == t[14]);
        assert(s[15] == t[15]);
    }
}

/// No two keys share a text form.
pub proof fn lemma_names_distinct(a: KeyCode, b: KeyCode)
    requires
        a.name() == b.name(),
    ensures
        a == b,
{
    lemma_name_table(a, b);
}

/// The text form of a key is in upper case already.
pub proof fn lemma_name_is_uppercase(k: KeyCode)
    ensures
        uppercase(k.name()) == k.name(),
{
    lemma_name_table(k, k);
}

/// No text names two keys, be it by text form or by symbol.
pub proof fn lemma_texts_distinct(a: KeyCode, b: KeyCode, text: Seq<char>)
    requires
        a.name() == text || a.symbol() == text,
        b.name() == text || b.symbol() == text,
    ensures
        a == b,
{
    reveal_strlit("KEY_");
    lemma_name_table(a, b);
    lemma_name_table(b, a);
    let prefix = "KEY_"@;
    if a.is_numbered() {
        assert((prefix + a.name())[0] == 'K' && (prefix + a.name())[1] == 'E');
        assert((prefix + a.name()).skip(4) =~= a.name());
    }
    if b.is_numbered() {
        assert((prefix + b.name())[0] == 'K' && (prefix + b.name())[1] == 'E');
        assert((prefix + b.name()).skip(4) =~= b.name());
    }
}

/// The symbol of a key is in upper case already.
pub proof fn lemma_symbol_is_uppercase(k: KeyCode)
    ensures
        uppercase(k.symbol()) == k.symbol(),
{
    reveal_strlit("KEY_");
    lemma_name_table(k, k);
    if k.is_numbered() {
        let prefix = "KEY_"@;
        assert(uppercase(prefix) =~= prefix);
        assert(uppercase(prefix + k.name()) =~= uppercase(prefix) + uppercase(k.name()));
    }
}

/// A key's text form names that key: looking up what `as_ref` gives returns
/// the key it was given for. So does looking up its symbol.
pub proof fn lemma_text_round_trip(k: KeyCode)
    ensures
        KeyCode::lookup(k.name()) == Some(k),
        KeyCode::lookup(k.symbol()) == Some(k),
{
    lemma_name_is_uppercase(k);
    lemma_symbol_is_uppercase(k);
    lemma_texts_distinct(k, KeyCode::lookup(k.name()).unwrap(), k.name());
    lemma_texts_distinct(k, KeyCode::lookup(k.symbol()).unwrap(), k.symbol());
}

/// The lookup disregards the case of ASCII letters: two texts that are equal
/// once both are in upper case name the same key, or both name none.
pub proof fn lemma_lookup_ignores_case(s: Seq<char>, t: Seq<char>)
    requires
        uppercase(s) == uppercase(t),
    ensures
        KeyCode::lookup(s) == KeyCode::lookup(t),
{
}

/// A key's numeric identifier leads back to the key.
pub proof fn lemma_code_round_trip(k: KeyCode)
    ensures
        KeyCode::with_code(k.code()) == Some(k),
{
    lemma_codes_distinct(k, KeyCode::with_code(k.code()).unwrap());
}

/// A number that leads to a key is the numeric identifier of that key.
pub proof fn lemma_with_code_has_code(n: int)
    ensures
        KeyCode::with_code(n) matches Some(k) ==> k.code() == n,
{
}

} // verus!
