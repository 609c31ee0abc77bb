use vstd::prelude::*;

verus! {

/// A keyboard key, by its physical position, as the host application sees it.
///
/// Scancodes that the windowing library reports as unknown have no key.
#[allow(non_camel_case_types)]
#[derive(Debug, Clone, Copy, PartialEq, Eq, Hash, Structural)]
pub enum KeyboardKey {
    A,
    B,
    C,
    D,
    E,
    F,
    G,
    H,
    I,
    J,
    K,
    L,
    M,
    N,
    O,
    P,
    Q,
    R,
    S,
    T,
    U,
    V,
    W,
    X,
    Y,
    Z,
    _1,
    _2,
    _3,
    _4,
    _5,
    _6,
    _7,
    _8,
    _9,
    _0,
    Return,
    Escape,
    Backspace,
    Tab,
    Space,
    Minus,
    Equals,
    LeftBracket,
    RightBracket,
    Backslash,
    NonUsHash,
    Semicolon,
    Apostrophe,
    Grave,
    Comma,
    Period,
    Slash,
    CapsLock,
    F1,
    F2,
    F3,
    F4,
    F5,
    F6,
    F7,
    F8,
    F9,
    F10,
    F11,
    F12,
    PrintScreen,
    ScrollLock,
    Pause,
    Insert,
    Home,
    PageUp,
    Delete,
    End,
    PageDown,
    Right,
    Left,
    Down,
    Up,
    NumLockClear,
    KpDivide,
    KpMultiply,
    KpMinus,
    KpPlus,
    KpEnter,
    Kp1,
    Kp2,
    Kp3,
    Kp4,
    Kp5,
    Kp6,
    Kp7,
    Kp8,
    Kp9,
    Kp0,
    KpPeriod,
    NonUsBackslash,
    Application,
    Power,
    KpEquals,
    F13,
    F14,
    F15,
    F16,
    F17,
    F18,
    F19,
    F20,
    F21,
    F22,
    F23,
    F24,
    Execute,
    Help,
    Menu,
    Select,
    Stop,
    Again,
    Undo,
    Cut,
    Copy,
    Paste,
    Find,
    Mute,
    VolumeUp,
    VolumeDown,
    KpComma,
    KpEqualsAs400,
    International1,
    International2,
    International3,
    International4,
    International5,
    International6,
    International7,
    International8,
    International9,
    Lang1,
    Lang2,
    Lang3,
    Lang4,
    Lang5,
    Lang6,
    Lang7,
    Lang8,
    Lang9,
    AltErase,
    SysReq,
    Cancel,
    Clear,
    Prior,
    Return2,
    Separator,
    Out,
    Oper,
    ClearAgain,
    CrSel,
    ExSel,
    Kp00,
    Kp000,
    ThousandsSeparator,
    DecimalSeparator,
    CurrencyUnit,
    CurrencySubunit,
    KpLeftParen,
    KpRightParen,
    KpLeftBrace,
    KpRightBrace,
    KpTab,
    KpBackspace,
    KpA,
    KpB,
    KpC,
    KpD,
    KpE,
    KpF,
    KpXor,
    KpPower,
    KpPercent,
    KpLess,
    KpGreater,
    KpAmpersand,
    KpDblAmpersand,
    KpVerticalBar,
    KpDblVerticalBar,
    KpColon,
    KpHash,
    KpSpace,
    KpAt,
    KpExclam,
    KpMemStore,
    KpMemRecall,
    KpMemClear,
    KpMemAdd,
    KpMemSubtract,
    KpMemMultiply,
    KpMemDivide,
    KpPlusMinus,
    KpClear,
    KpClearEntry,
    KpBinary,
    KpOctal,
    KpDecimal,
    KpHexadecimal,
    LCtrl,
    LShift,
    LAlt,
    LGui,
    RCtrl,
    RShift,
    RAlt,
    RGui,
    Mode,
    Sleep,
    Wake,
    ChannelIncrement,
    ChannelDecrement,
    MediaPlay,
    MediaPause,
    MediaRecord,
    MediaFastForward,
    MediaRewind,
    MediaNextTrack,
    MediaPreviousTrack,
    MediaStop,
    MediaEject,
    MediaPlayPause,
    MediaSelect,
    AcNew,
    AcOpen,
    AcClose,
    AcExit,
    AcSave,
    AcPrint,
    AcProperties,
    AcSearch,
    AcHome,
    AcBack,
    AcForward,
    AcStop,
    AcRefresh,
    AcBookmarks,
}

/// The scancode that the windowing library reports for an unrecognised key.
pub const UNKNOWN_SCANCODE: i32 = 0;

/// The known keys by scancode (USB HID usage, as the windowing library
/// numbers it); every other scancode has no key.
pub open spec fn scancode_key(code: i32) -> Option<KeyboardKey> {
    match code {
        4 => Some(KeyboardKey::A),
        5 => Some(KeyboardKey::B),
        6 => Some(KeyboardKey::C),
        7 => Some(KeyboardKey::D),
        8 => Some(KeyboardKey::E),
        9 => Some(KeyboardKey::F),
        10 => Some(KeyboardKey::G),
        11 => Some(KeyboardKey::H),
        12 => Some(KeyboardKey::I),
        13 => Some(KeyboardKey::J),
        14 => Some(KeyboardKey::K),
        15 => Some(KeyboardKey::L),
        16 => Some(KeyboardKey::M),
        17 => Some(KeyboardKey::N),
        18 => Some(KeyboardKey::O),
        19 => Some(KeyboardKey::P),
        20 => Some(KeyboardKey::Q),
        21 => Some(KeyboardKey::R),
        22 => Some(KeyboardKey::S),
        23 => Some(KeyboardKey::T),
        24 => Some(KeyboardKey::U),
        25 => Some(KeyboardKey::V),
        26 => Some(KeyboardKey::W),
        27 => Some(KeyboardKey::X),
        28 => Some(KeyboardKey::Y),
        29 => Some(KeyboardKey::Z),
        30 => Some(KeyboardKey::_1),
        31 => Some(KeyboardKey::_2),
        32 => Some(KeyboardKey::_3),
        33 => Some(KeyboardKey::_4),
        34 => Some(KeyboardKey::_5),
        35 => Some(KeyboardKey::_6),
        36 => Some(KeyboardKey::_7),
        37 => Some(KeyboardKey::_8),
        38 => Some(KeyboardKey::_9),
        39 => Some(KeyboardKey::_0),
        40 => Some(KeyboardKey::Return),
        41 => Some(KeyboardKey::Escape),
        42 => Some(KeyboardKey::Backspace),
        43 => Some(KeyboardKey::Tab),
        44 => Some(KeyboardKey::Space),
        45 => Some(KeyboardKey::Minus),
        46 => Some(KeyboardKey::Equals),
        47 => Some(KeyboardKey::LeftBracket),
        48 => Some(KeyboardKey::RightBracket),
        49 => Some(KeyboardKey::Backslash),
        50 => Some(KeyboardKey::NonUsHash),
        51 => Some(KeyboardKey::Semicolon),
        52 => Some(KeyboardKey::Apostrophe),
        53 => Some(KeyboardKey::Grave),
        54 => Some(KeyboardKey::Comma),
        55 => Some(KeyboardKey::Period),
        56 => Some(KeyboardKey::Slash),
        57 => Some(KeyboardKey::CapsLock),
        58 => Some(KeyboardKey::F1),
        59 => Some(KeyboardKey::F2),
        60 => Some(KeyboardKey::F3),
        61 => Some(KeyboardKey::F4),
        62 => Some(KeyboardKey::F5),
        63 => Some(KeyboardKey::F6),
        64 => Some(KeyboardKey::F7),
        65 => Some(KeyboardKey::F8),
        66 => Some(KeyboardKey::F9),
        67 => Some(KeyboardKey::F10),
        68 => Some(KeyboardKey::F11),
        69 => Some(KeyboardKey::F12),
        70 => Some(KeyboardKey::PrintScreen),
        71 => Some(KeyboardKey::ScrollLock),
        72 => Some(KeyboardKey::Pause),
        73 => Some(KeyboardKey::Insert),
        74 => Some(KeyboardKey::Home),
        75 => Some(KeyboardKey::PageUp),
        76 => Some(KeyboardKey::Delete),
        77 => Some(KeyboardKey::End),
        78 => Some(KeyboardKey::PageDown),
        79 => Some(KeyboardKey::Right),
        80 => Some(KeyboardKey::Left),
        81 => Some(KeyboardKey::Down),
        82 => Some(KeyboardKey::Up),
        83 => Some(KeyboardKey::NumLockClear),
        84 => Some(KeyboardKey::KpDivide),
        85 => Some(KeyboardKey::KpMultiply),
        86 => Some(KeyboardKey::KpMinus),
        87 => Some(KeyboardKey::KpPlus),
        88 => Some(KeyboardKey::KpEnter),
        89 => Some(KeyboardKey::Kp1),
        90 => Some(KeyboardKey::Kp2),
        91 => Some(KeyboardKey::Kp3),
        92 => Some(KeyboardKey::Kp4),
        93 => Some(KeyboardKey::Kp5),
        94 => Some(KeyboardKey::Kp6),
        95 => Some(KeyboardKey::Kp7),
        96 => Some(KeyboardKey::Kp8),
        97 => Some(KeyboardKey::Kp9),
        98 => Some(KeyboardKey::Kp0),
        99 => Some(KeyboardKey::KpPeriod),
        100 => Some(KeyboardKey::NonUsBackslash),
        101 => Some(KeyboardKey::Application),
        102 => Some(KeyboardKey::Power),
        103 => Some(KeyboardKey::KpEquals),
        104 => Some(KeyboardKey::F13),
        105 => Some(KeyboardKey::F14),
        106 => Some(KeyboardKey::F15),
        107 => Some(KeyboardKey::F16),
        108 => Some(KeyboardKey::F17),
        109 => Some(KeyboardKey::F18),
        110 => Some(KeyboardKey::F19),
        111 => Some(KeyboardKey::F20),
        112 => Some(KeyboardKey::F21),
        113 => Some(KeyboardKey::F22),
        114 => Some(KeyboardKey::F23),
        115 => Some(KeyboardKey::F24),
        116 => Some(KeyboardKey::Execute),
        117 => Some(KeyboardKey::Help),
        118 => Some(KeyboardKey::Menu),
        119 => Some(KeyboardKey::Select),
        120 => Some(KeyboardKey::Stop),
        121 => Some(KeyboardKey::Again),
        122 => Some(KeyboardKey::Undo),
        123 => Some(KeyboardKey::Cut),
        124 => Some(KeyboardKey::Copy),
        125 => Some(KeyboardKey::Paste),
        126 => Some(KeyboardKey::Find),
        127 => Some(KeyboardKey::Mute),
        128 => Some(KeyboardKey::VolumeUp),
        129 => Some(KeyboardKey::VolumeDown),
        133 => Some(KeyboardKey::KpComma),
        134 => Some(KeyboardKey::KpEqualsAs400),
        135 => Some(KeyboardKey::International1),
        136 => Some(KeyboardKey::International2),
        137 => Some(KeyboardKey::International3),
        138 => Some(KeyboardKey::International4),
        139 => Some(KeyboardKey::International5),
        140 => Some(KeyboardKey::International6),
        141 => Some(KeyboardKey::International7),
        142 => Some(KeyboardKey::International8),
        143 => Some(KeyboardKey::International9),
        144 => Some(KeyboardKey::Lang1),
        145 => Some(KeyboardKey::Lang2),
        146 => Some(KeyboardKey::Lang3),
        147 => Some(KeyboardKey::Lang4),
        148 => Some(KeyboardKey::Lang5),
        149 => Some(KeyboardKey::Lang6),
        150 => Some(KeyboardKey::Lang7),
        151 => Some(KeyboardKey::Lang8),
        152 => Some(KeyboardKey::Lang9),
        153 => Some(KeyboardKey::AltErase),
        154 => Some(KeyboardKey::SysReq),
        155 => Some(KeyboardKey::Cancel),
        156 => Some(KeyboardKey::Clear),
        157 => Some(KeyboardKey::Prior),
        158 => Some(KeyboardKey::Return2),
        159 => Some(KeyboardKey::Separator),
        160 => Some(KeyboardKey::Out),
        161 => Some(KeyboardKey::Oper),
        162 => Some(KeyboardKey::ClearAgain),
        163 => Some(KeyboardKey::CrSel),
        164 => Some(KeyboardKey::ExSel),
        176 => Some(KeyboardKey::Kp00),
        177 => Some(KeyboardKey::Kp000),
        178 => Some(KeyboardKey::ThousandsSeparator),
        179 => Some(KeyboardKey::DecimalSeparator),
        180 => Some(KeyboardKey::CurrencyUnit),
        181 => Some(KeyboardKey::CurrencySubunit),
        182 => Some(KeyboardKey::KpLeftParen),
        183 => Some(KeyboardKey::KpRightParen),
        184 => Some(KeyboardKey::KpLeftBrace),
        185 => Some(KeyboardKey::KpRightBrace),
        186 => Some(KeyboardKey::KpTab),
        187 => Some(KeyboardKey::KpBackspace),
        188 => Some(KeyboardKey::KpA),
        189 => Some(KeyboardKey::KpB),
        190 => Some(KeyboardKey::KpC),
        191 => Some(KeyboardKey::KpD),
        192 => Some(KeyboardKey::KpE),
        193 => Some(KeyboardKey::KpF),
        194 => Some(KeyboardKey::KpXor),
        195 => Some(KeyboardKey::KpPower),
        196 => Some(KeyboardKey::KpPercent),
        197 => Some(KeyboardKey::KpLess),
        198 => Some(KeyboardKey::KpGreater),
        199 => Some(KeyboardKey::KpAmpersand),
        200 => Some(KeyboardKey::KpDblAmpersand),
        201 => Some(KeyboardKey::KpVerticalBar),
        202 => Some(KeyboardKey::KpDblVerticalBar),
        203 => Some(KeyboardKey::KpColon),
        204 => Some(KeyboardKey::KpHash),
        205 => Some(KeyboardKey::KpSpace),
        206 => Some(KeyboardKey::KpAt),
        207 => Some(KeyboardKey::KpExclam),
        208 => Some(KeyboardKey::KpMemStore),
        209 => Some(KeyboardKey::KpMemRecall),
        210 => Some(KeyboardKey::KpMemClear),
        211 => Some(KeyboardKey::KpMemAdd),
        212 => Some(KeyboardKey::KpMemSubtract),
        213 => Some(KeyboardKey::KpMemMultiply),
        214 => Some(KeyboardKey::KpMemDivide),
        215 => Some(KeyboardKey::KpPlusMinus),
        216 => Some(KeyboardKey::KpClear),
        217 => Some(KeyboardKey::KpClearEntry),
        218 => Some(KeyboardKey::KpBinary),
        219 => Some(KeyboardKey::KpOctal),
        220 => Some(KeyboardKey::KpDecimal),
        221 => Some(KeyboardKey::KpHexadecimal),
        224 => Some(KeyboardKey::LCtrl),
        225 => Some(KeyboardKey::LShift),
        226 => Some(KeyboardKey::LAlt),
        227 => Some(KeyboardKey::LGui),
        228 => Some(KeyboardKey::RCtrl),
        229 => Some(KeyboardKey::RShift),
        230 => Some(KeyboardKey::RAlt),
        231 => Some(KeyboardKey::RGui),
        257 => Some(KeyboardKey::Mode),
        258 => Some(KeyboardKey::Sleep),
        259 => Some(KeyboardKey::Wake),
        260 => Some(KeyboardKey::ChannelIncrement),
        261 => Some(KeyboardKey::ChannelDecrement),
        262 => Some(KeyboardKey::MediaPlay),
        263 => Some(KeyboardKey::MediaPause),
        264 => Some(KeyboardKey::MediaRecord),
        265 => Some(KeyboardKey::MediaFastForward),
        266 => Some(KeyboardKey::MediaRewind),
        267 => Some(KeyboardKey::MediaNextTrack),
        268 => Some(KeyboardKey::MediaPreviousTrack),
        269 => Some(KeyboardKey::MediaStop),
        270 => Some(KeyboardKey::MediaEject),
        271 => Some(KeyboardKey::MediaPlayPause),
        272 => Some(KeyboardKey::MediaSelect),
        273 => Some(KeyboardKey::AcNew),
        274 => Some(KeyboardKey::AcOpen),
        275 => Some(KeyboardKey::AcClose),
        276 => Some(KeyboardKey::AcExit),
        277 => Some(KeyboardKey::AcSave),
        278 => Some(KeyboardKey::AcPrint),
        279 => Some(KeyboardKey::AcProperties),
        280 => Some(KeyboardKey::AcSearch),
        281 => Some(KeyboardKey::AcHome),
        282 => Some(KeyboardKey::AcBack),
        283 => Some(KeyboardKey::AcForward),
        284 => Some(KeyboardKey::AcStop),
        285 => Some(KeyboardKey::AcRefresh),
        286 => Some(KeyboardKey::AcBookmarks),
        _ => None,
    }
}

impl KeyboardKey {
    /// The key at a scancode, if it is one of the known keys.
    pub fn from_scancode(code: i32) -> (r: Option<KeyboardKey>)
        ensures
            r == scancode_key(code),
    {
        match code {
            4 => Some(KeyboardKey::A),
            5 => Some(KeyboardKey::B),
            6 => Some(KeyboardKey::C),
            7 => Some(KeyboardKey::D),
            8 => Some(KeyboardKey::E),
            9 => Some(KeyboardKey::F),
            10 => Some(KeyboardKey::G),
            11 => Some(KeyboardKey::H),
            12 => Some(KeyboardKey::I),
            13 => Some(KeyboardKey::J),
            14 => Some(KeyboardKey::K),
            15 => Some(KeyboardKey::L),
            16 => Some(KeyboardKey::M),
            17 => Some(KeyboardKey::N),
            18 => Some(KeyboardKey::O),
            19 => Some(KeyboardKey::P),
            20 => Some(KeyboardKey::Q),
            21 => Some(KeyboardKey::R),
            22 => Some(KeyboardKey::S),
            23 => Some(KeyboardKey::T),
            24 => Some(KeyboardKey::U),
            25 => Some(KeyboardKey::V),
            26 => Some(KeyboardKey::W),
            27 => Some(KeyboardKey::X),
            28 => Some(KeyboardKey::Y),
            29 => Some(KeyboardKey::Z),
            30 => Some(KeyboardKey::_1),
            31 => Some(KeyboardKey::_2),
            32 => Some(KeyboardKey::_3),
            33 => Some(KeyboardKey::_4),
            34 => Some(KeyboardKey::_5),
            35 => Some(KeyboardKey::_6),
            36 => Some(KeyboardKey::_7),
            37 => Some(KeyboardKey::_8),
            38 => Some(KeyboardKey::_9),
            39 => Some(KeyboardKey::_0),
            40 => Some(KeyboardKey::Return),
            41 => Some(KeyboardKey::Escape),
            42 => Some(KeyboardKey::Backspace),
            43 => Some(KeyboardKey::Tab),
            44 => Some(KeyboardKey::Space),
            45 => Some(KeyboardKey::Minus),
            46 => Some(KeyboardKey::Equals),
            47 => Some(KeyboardKey::LeftBracket),
            48 => Some(KeyboardKey::RightBracket),
            49 => Some(KeyboardKey::Backslash),
            50 => Some(KeyboardKey::NonUsHash),
            51 => Some(KeyboardKey::Semicolon),
            52 => Some(KeyboardKey::Apostrophe),
            53 => Some(KeyboardKey::Grave),
            54 => Some(KeyboardKey::Comma),
            55 => Some(KeyboardKey::Period),
            56 => Some(KeyboardKey::Slash),
            57 => Some(KeyboardKey::CapsLock),
            58 => Some(KeyboardKey::F1),
            59 => Some(KeyboardKey::F2),
            60 => Some(KeyboardKey::F3),
            61 => Some(KeyboardKey::F4),
            62 => Some(KeyboardKey::F5),
            63 => Some(KeyboardKey::F6),
            64 => Some(KeyboardKey::F7),
            65 => Some(KeyboardKey::F8),
            66 => Some(KeyboardKey::F9),
            67 => Some(KeyboardKey::F10),
            68 => Some(KeyboardKey::F11),
            69 => Some(KeyboardKey::F12),
            70 => Some(KeyboardKey::PrintScreen),
            71 => Some(KeyboardKey::ScrollLock),
            72 => Some(KeyboardKey::Pause),
            73 => Some(KeyboardKey::Insert),
            74 => Some(KeyboardKey::Home),
            75 => Some(KeyboardKey::PageUp),
            76 => Some(KeyboardKey::Delete),
            77 => Some(KeyboardKey::End),
            78 => Some(KeyboardKey::PageDown),
            79 => Some(KeyboardKey::Right),
            80 => Some(KeyboardKey::Left),
            81 => Some(KeyboardKey::Down),
            82 => Some(KeyboardKey::Up),
            83 => Some(KeyboardKey::NumLockClear),
            84 => Some(KeyboardKey::KpDivide),
            85 => Some(KeyboardKey::KpMultiply),
            86 => Some(KeyboardKey::KpMinus),
            87 => Some(KeyboardKey::KpPlus),
            88 => Some(KeyboardKey::KpEnter),
            89 => Some(KeyboardKey::Kp1),
            90 => Some(KeyboardKey::Kp2),
            91 => Some(KeyboardKey::Kp3),
            92 => Some(KeyboardKey::Kp4),
            93 => Some(KeyboardKey::Kp5),
            94 => Some(KeyboardKey::Kp6),
            95 => Some(KeyboardKey::Kp7),
            96 => Some(KeyboardKey::Kp8),
            97 => Some(KeyboardKey::Kp9),
            98 => Some(KeyboardKey::Kp0),
            99 => Some(KeyboardKey::KpPeriod),
            100 => Some(KeyboardKey::NonUsBackslash),
            101 => Some(KeyboardKey::Application),
            102 => Some(KeyboardKey::Power),
            103 => Some(KeyboardKey::KpEquals),
            104 => Some(KeyboardKey::F13),
            105 => Some(KeyboardKey::F14),
            106 => Some(KeyboardKey::F15),
            107 => Some(KeyboardKey::F16),
            108 => Some(KeyboardKey::F17),
            109 => Some(KeyboardKey::F18),
            110 => Some(KeyboardKey::F19),
            111 => Some(KeyboardKey::F20),
            112 => Some(KeyboardKey::F21),
            113 => Some(KeyboardKey::F22),
            114 => Some(KeyboardKey::F23),
            115 => Some(KeyboardKey::F24),
            116 => Some(KeyboardKey::Execute),
            117 => Some(KeyboardKey::Help),
            118 => Some(KeyboardKey::Menu),
            119 => Some(KeyboardKey::Select),
            120 => Some(KeyboardKey::Stop),
            121 => Some(KeyboardKey::Again),
            122 => Some(KeyboardKey::Undo),
            123 => Some(KeyboardKey::Cut),
            124 => Some(KeyboardKey::Copy),
            125 => Some(KeyboardKey::Paste),
            126 => Some(KeyboardKey::Find),
            127 => Some(KeyboardKey::Mute),
            128 => Some(KeyboardKey::VolumeUp),
            129 => Some(KeyboardKey::VolumeDown),
            133 => Some(KeyboardKey::KpComma),
            134 => Some(KeyboardKey::KpEqualsAs400),
            135 => Some(KeyboardKey::International1),
            136 => Some(KeyboardKey::International2),
            137 => Some(KeyboardKey::International3),
            138 => Some(KeyboardKey::International4),
            139 => Some(KeyboardKey::International5),
            140 => Some(KeyboardKey::International6),
            141 => Some(KeyboardKey::International7),
            142 => Some(KeyboardKey::International8),
            143 => Some(KeyboardKey::International9),
            144 => Some(KeyboardKey::Lang1),
            145 => Some(KeyboardKey::Lang2),
            146 => Some(KeyboardKey::Lang3),
            147 => Some(KeyboardKey::Lang4),
            148 => Some(KeyboardKey::Lang5),
            149 => Some(KeyboardKey::Lang6),
            150 => Some(KeyboardKey::Lang7),
            151 => Some(KeyboardKey::Lang8),
            152 => Some(KeyboardKey::Lang9),
            153 => Some(KeyboardKey::AltErase),
            154 => Some(KeyboardKey::SysReq),
            155 => Some(KeyboardKey::Cancel),
            156 => Some(KeyboardKey::Clear),
            157 => Some(KeyboardKey::Prior),
            158 => Some(KeyboardKey::Return2),
            159 => Some(KeyboardKey::Separator),
            160 => Some(KeyboardKey::Out),
            161 => Some(KeyboardKey::Oper),
            162 => Some(KeyboardKey::ClearAgain),
            163 => Some(KeyboardKey::CrSel),
            164 => Some(KeyboardKey::ExSel),
            176 => Some(KeyboardKey::Kp00),
            177 => Some(KeyboardKey::Kp000),
            178 => Some(KeyboardKey::ThousandsSeparator),
            179 => Some(KeyboardKey::DecimalSeparator),
            180 => Some(KeyboardKey::CurrencyUnit),
            181 => Some(KeyboardKey::CurrencySubunit),
            182 => Some(KeyboardKey::KpLeftParen),
            183 => Some(KeyboardKey::KpRightParen),
            184 => Some(KeyboardKey::KpLeftBrace),
            185 => Some(KeyboardKey::KpRightBrace),
            186 => Some(KeyboardKey::KpTab),
            187 => Some(KeyboardKey::KpBackspace),
            188 => Some(KeyboardKey::KpA),
            189 => Some(KeyboardKey::KpB),
            190 => Some(KeyboardKey::KpC),
            191 => Some(KeyboardKey::KpD),
            192 => Some(KeyboardKey::KpE),
            193 => Some(KeyboardKey::KpF),
            194 => Some(KeyboardKey::KpXor),
            195 => Some(KeyboardKey::KpPower),
            196 => Some(KeyboardKey::KpPercent),
            197 => Some(KeyboardKey::KpLess),
            198 => Some(KeyboardKey::KpGreater),
            199 => Some(KeyboardKey::KpAmpersand),
            200 => Some(KeyboardKey::KpDblAmpersand),
            201 => Some(KeyboardKey::KpVerticalBar),
            202 => Some(KeyboardKey::KpDblVerticalBar),
            203 => Some(KeyboardKey::KpColon),
            204 => Some(KeyboardKey::KpHash),
            205 => Some(KeyboardKey::KpSpace),
            206 => Some(KeyboardKey::KpAt),
            207 => Some(KeyboardKey::KpExclam),
            208 => Some(KeyboardKey::KpMemStore),
            209 => Some(KeyboardKey::KpMemRecall),
            210 => Some(KeyboardKey::KpMemClear),
            211 => Some(KeyboardKey::KpMemAdd),
            212 => Some(KeyboardKey::KpMemSubtract),
            213 => Some(KeyboardKey::KpMemMultiply),
            214 => Some(KeyboardKey::KpMemDivide),
            215 => Some(KeyboardKey::KpPlusMinus),
            216 => Some(KeyboardKey::KpClear),
            217 => Some(KeyboardKey::KpClearEntry),
            218 => Some(KeyboardKey::KpBinary),
            219 => Some(KeyboardKey::KpOctal),
            220 => Some(KeyboardKey::KpDecimal),
            221 => Some(KeyboardKey::KpHexadecimal),
            224 => Some(KeyboardKey::LCtrl),
            225 => Some(KeyboardKey::LShift),
            226 => Some(KeyboardKey::LAlt),
            227 => Some(KeyboardKey::LGui),
            228 => Some(KeyboardKey::RCtrl),
            229 => Some(KeyboardKey::RShift),
            230 => Some(KeyboardKey::RAlt),
            231 => Some(KeyboardKey::RGui),
            257 => Some(KeyboardKey::Mode),
            258 => Some(KeyboardKey::Sleep),
            259 => Some(KeyboardKey::Wake),
            260 => Some(KeyboardKey::ChannelIncrement),
            261 => Some(KeyboardKey::ChannelDecrement),
            262 => Some(KeyboardKey::MediaPlay),
            263 => Some(KeyboardKey::MediaPause),
            264 => Some(KeyboardKey::MediaRecord),
            265 => Some(KeyboardKey::MediaFastForward),
            266 => Some(KeyboardKey::MediaRewind),
            267 => Some(KeyboardKey::MediaNextTrack),
            268 => Some(KeyboardKey::MediaPreviousTrack),
            269 => Some(KeyboardKey::MediaStop),
            270 => Some(KeyboardKey::MediaEject),
            271 => Some(KeyboardKey::MediaPlayPause),
            272 => Some(KeyboardKey::MediaSelect),
            273 => Some(KeyboardKey::AcNew),
            274 => Some(KeyboardKey::AcOpen),
            275 => Some(KeyboardKey::AcClose),
            276 => Some(KeyboardKey::AcExit),
            277 => Some(KeyboardKey::AcSave),
            278 => Some(KeyboardKey::AcPrint),
            279 => Some(KeyboardKey::AcProperties),
            280 => Some(KeyboardKey::AcSearch),
            281 => Some(KeyboardKey::AcHome),
            282 => Some(KeyboardKey::AcBack),
            283 => Some(KeyboardKey::AcForward),
            284 => Some(KeyboardKey::AcStop),
            285 => Some(KeyboardKey::AcRefresh),
            286 => Some(KeyboardKey::AcBookmarks),
            _ => None,
        }
    }
}

} // verus!
