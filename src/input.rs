use vstd::prelude::*;

verus! {

/// A physical key. Each has a fixed code, its bit in a keyboard snapshot;
/// the codes run from 0 to 52 with gaps.
#[derive(Clone, Copy, Debug, PartialEq, Eq, Structural)]
pub enum Key {
    Left,
    Up,
    Down,
    Right,
    OK,
    Back,
    Home,
    OnOff,
    Shift,
    Alpha,
    Xnt,
    Var,
    Toolbox,
    Backspace,
    Exp,
    Ln,
    Log,
    Imaginary,
    Comma,
    Power,
    Sine,
    Cosine,
    Tangent,
    Pi,
    Sqrt,
    Square,
    Seven,
    Eight,
    Nine,
    LeftParenthesis,
    RightParenthesis,
    Four,
    Five,
    Six,
    Multiplication,
    Division,
    One,
    Two,
    Three,
    Plus,
    Minus,
    Zero,
    Dot,
    Ee,
    Ans,
    Exe,
}

impl Key {
    /// The key's code.
    pub open spec fn spec_code(self) -> u8 {
        match self {
            Key::Left => 0,
            Key::Up => 1,
            Key::Down => 2,
            Key::Right => 3,
            Key::OK => 4,
            Key::Back => 5,
            Key::Home => 6,
            Key::OnOff => 8,
            Key::Shift => 12,
            Key::Alpha => 13,
            Key::Xnt => 14,
            Key::Var => 15,
            Key::Toolbox => 16,
            Key::Backspace => 17,
            Key::Exp => 18,
            Key::Ln => 19,
            Key::Log => 20,
            Key::Imaginary => 21,
            Key::Comma => 22,
            Key::Power => 23,
            Key::Sine => 24,
            Key::Cosine => 25,
            Key::Tangent => 26,
            Key::Pi => 27,
            Key::Sqrt => 28,
            Key::Square => 29,
            Key::Seven => 30,
            Key::Eight => 31,
            Key::Nine => 32,
            Key::LeftParenthesis => 33,
            Key::RightParenthesis => 34,
            Key::Four => 36,
            Key::Five => 37,
            Key::Six => 38,
            Key::Multiplication => 39,
            Key::Division => 40,
            Key::One => 42,
            Key::Two => 43,
            Key::Three => 44,
            Key::Plus => 45,
            Key::Minus => 46,
            Key::Zero => 48,
            Key::Dot => 49,
            Key::Ee => 50,
            Key::Ans => 51,
            Key::Exe => 52,
        }
    }

    /// The key's code: its bit in a keyboard snapshot.
    pub fn code(self) -> (c: u8)
        ensures
            c == self.spec_code(),
            c <= 52,
    {
        match self {
            Key::Left => 0,
            Key::Up => 1,
            Key::Down => 2,
            Key::Right => 3,
            Key::OK => 4,
            Key::Back => 5,
            Key::Home => 6,
            Key::OnOff => 8,
            Key::Shift => 12,
            Key::Alpha => 13,
            Key::Xnt => 14,
            Key::Var => 15,
            Key::Toolbox => 16,
            Key::Backspace => 17,
            Key::Exp => 18,
            Key::Ln => 19,
            Key::Log => 20,
            Key::Imaginary => 21,
            Key::Comma => 22,
            Key::Power => 23,
            Key::Sine => 24,
            Key::Cosine => 25,
            Key::Tangent => 26,
            Key::Pi => 27,
            Key::Sqrt => 28,
            Key::Square => 29,
            Key::Seven => 30,
            Key::Eight => 31,
            Key::Nine => 32,
            Key::LeftParenthesis => 33,
            Key::RightParenthesis => 34,
            Key::Four => 36,
            Key::Five => 37,
            Key::Six => 38,
            Key::Multiplication => 39,
            Key::Division => 40,
            Key::One => 42,
            Key::Two => 43,
            Key::Three => 44,
            Key::Plus => 45,
            Key::Minus => 46,
            Key::Zero => 48,
            Key::Dot => 49,
            Key::Ee => 50,
            Key::Ans => 51,
            Key::Exe => 52,
        }
    }
}

/// Whether bit `code` of the snapshot `bits` is set.
pub open spec fn bit_set(bits: u64, code: u8) -> bool {
    (bits >> code) & 1 != 0
}

/// Which keys were held at one scan. The snapshot is a value: asking it about
/// a key gives the same answer however often it is asked.
#[derive(Clone, Copy, Debug)]
pub struct KeyboardState(u64);

impl View for KeyboardState {
    type V = u64;

    closed spec fn view(&self) -> u64 {
        self.0
    }
}

impl KeyboardState {
    /// The snapshot whose bits are `state`, as the keyboard scan returns them.
    pub fn from_raw(state: u64) -> (s: KeyboardState)
        ensures
            s@ == state,
    {
        KeyboardState(state)
    }

    /// Whether `key` was held: the bit of its code in the snapshot.
    pub fn key_down(&self, key: Key) -> (r: bool)
        ensures
            r == bit_set(self@, key.spec_code()),
    {
        (self.0 >> key.code()) & 1 != 0
    }
}

/// Two queries of one snapshot about one key agree.
pub proof fn lemma_key_down_stable(s: KeyboardState, key: Key, r1: bool, r2: bool)
    requires
        r1 == bit_set(s@, key.spec_code()),
        r2 == bit_set(s@, key.spec_code()),
    ensures
        r1 == r2,
{
}

/// A logical input event. Each has a fixed code, running from 0 to 207 with
/// gaps.
#[derive(Clone, Copy, Debug, PartialEq, Eq, Structural)]
pub enum Event {
    Left,
    Up,
    Down,
    Right,
    OK,
    Back,
    Shift,
    Alpha,
    Xnt,
    Var,
    Toolbox,
    Backspace,
    Exp,
    Ln,
    Log,
    Imaginary,
    Comma,
    Power,
    Sine,
    Cosine,
    Tangent,
    Pi,
    Sqrt,
    Square,
    Seven,
    Eight,
    Nine,
    LeftParenthesis,
    RightParenthesis,
    Four,
    Five,
    Six,
    Multiplication,
    Division,
    One,
    Two,
    Three,
    Plus,
    Minus,
    Zero,
    Dot,
    Ee,
    Ans,
    Exe,
    ShiftLeft,
    ShiftUp,
    ShiftDown,
    ShiftRight,
    AlphaLock,
    Cut,
    Copy,
    Paste,
    Clear,
    LeftBracket,
    RightBracket,
    LeftBrace,
    RightBrace,
    Underscore,
    Sto,
    Arcsine,
    Arccosine,
    Arctangent,
    Equal,
    Lower,
    Greater,
    Colon,
    Semicolon,
    DoubleQuotes,
    Percent,
    LowerA,
    LowerB,
    LowerC,
    LowerD,
    LowerE,
    LowerF,
    LowerG,
    LowerH,
    LowerI,
    LowerJ,
    LowerK,
    LowerL,
    LowerM,
    LowerN,
    LowerO,
    LowerP,
    LowerQ,
    LowerR,
    LowerS,
    LowerT,
    LowerU,
    LowerV,
    LowerW,
    LowerX,
    LowerY,
    LowerZ,
    Space,
    Question,
    Exclamation,
    UpperA,
    UpperB,
    UpperC,
    UpperD,
    UpperE,
    UpperF,
    UpperG,
    UpperH,
    UpperI,
    UpperJ,
    UpperK,
    UpperL,
    UpperM,
    UpperN,
    UpperO,
    UpperP,
    UpperQ,
    UpperR,
    UpperS,
    UpperT,
    UpperU,
    UpperV,
    UpperW,
    UpperX,
    UpperY,
    UpperZ,
}

impl Event {
    /// The event's code.
    pub open spec fn spec_code(self) -> u16 {
        match self {
            Event::Left => 0,
            Event::Up => 1,
            Event::Down => 2,
            Event::Right => 3,
            Event::OK => 4,
            Event::Back => 5,
            Event::Shift => 12,
            Event::Alpha => 13,
            Event::Xnt => 14,
            Event::Var => 15,
            Event::Toolbox => 16,
            Event::Backspace => 17,
            Event::Exp => 18,
            Event::Ln => 19,
            Event::Log => 20,
            Event::Imaginary => 21,
            Event::Comma => 22,
            Event::Power => 23,
            Event::Sine => 24,
            Event::Cosine => 25,
            Event::Tangent => 26,
            Event::Pi => 27,
            Event::Sqrt => 28,
            Event::Square => 29,
            Event::Seven => 30,
            Event::Eight => 31,
            Event::Nine => 32,
            Event::LeftParenthesis => 33,
            Event::RightParenthesis => 34,
            Event::Four => 36,
            Event::Five => 37,
            Event::Six => 38,
            Event::Multiplication => 39,
            Event::Division => 40,
            Event::One => 42,
            Event::Two => 43,
            Event::Three => 44,
            Event::Plus => 45,
            Event::Minus => 46,
            Event::Zero => 48,
            Event::Dot => 49,
            Event::Ee => 50,
            Event::Ans => 51,
            Event::Exe => 52,
            Event::ShiftLeft => 54,
            Event::ShiftUp => 55,
            Event::ShiftDown => 56,
            Event::ShiftRight => 57,
            Event::AlphaLock => 67,
            Event::Cut => 68,
            Event::Copy => 69,
            Event::Paste => 70,
            Event::Clear => 71,
            Event::LeftBracket => 72,
            Event::RightBracket => 73,
            Event::LeftBrace => 74,
            Event::RightBrace => 75,
            Event::Underscore => 76,
            Event::Sto => 77,
            Event::Arcsine => 78,
            Event::Arccosine => 79,
            Event::Arctangent => 80,
            Event::Equal => 81,
            Event::Lower => 82,
            Event::Greater => 83,
            Event::Colon => 122,
            Event::Semicolon => 123,
            Event::DoubleQuotes => 124,
            Event::Percent => 125,
            Event::LowerA => 126,
            Event::LowerB => 127,
            Event::LowerC => 128,
            Event::LowerD => 129,
            Event::LowerE => 130,
            Event::LowerF => 131,
            Event::LowerG => 132,
            Event::LowerH => 133,
            Event::LowerI => 134,
            Event::LowerJ => 135,
            Event::LowerK => 136,
            Event::LowerL => 137,
            Event::LowerM => 138,
            Event::LowerN => 139,
            Event::LowerO => 140,
            Event::LowerP => 141,
            Event::LowerQ => 142,
            Event::LowerR => 144,
            Event::LowerS => 145,
            Event::LowerT => 146,
            Event::LowerU => 147,
            Event::LowerV => 148,
            Event::LowerW => 150,
            Event::LowerX => 151,
            Event::LowerY => 152,
            Event::LowerZ => 153,
            Event::Space => 154,
            Event::Question => 156,
            Event::Exclamation => 157,
            Event::UpperA => 180,
            Event::UpperB => 181,
            Event::UpperC => 182,
            Event::UpperD => 183,
            Event::UpperE => 184,
            Event::UpperF => 185,
            Event::UpperG => 186,
            Event::UpperH => 187,
            Event::UpperI => 188,
            Event::UpperJ => 189,
            Event::UpperK => 190,
            Event::UpperL => 191,
            Event::UpperM => 192,
            Event::UpperN => 193,
            Event::UpperO => 194,
            Event::UpperP => 195,
            Event::UpperQ => 196,
            Event::UpperR => 198,
            Event::UpperS => 199,
            Event::UpperT => 200,
            Event::UpperU => 201,
            Event::UpperV => 202,
            Event::UpperW => 204,
            Event::UpperX => 205,
            Event::UpperY => 206,
            Event::UpperZ => 207,
        }
    }

    /// Whether the event is one of the ten digits.
    pub open spec fn spec_is_digit(self) -> bool {
        self == Event::Zero
            || self == Event::One
            || self == Event::Two
            || self == Event::Three
            || self == Event::Four
            || self == Event::Five
            || self == Event::Six
            || self == Event::Seven
            || self == Event::Eight
            || self == Event::Nine
    }

    /// The decimal value of a digit event, from `Zero` as 0 to `Nine` as 9.
    pub open spec fn spec_digit(self) -> Option<u8> {
        match self {
            Event::Zero => Some(0u8),
            Event::One => Some(1u8),
            Event::Two => Some(2u8),
            Event::Three => Some(3u8),
            Event::Four => Some(4u8),
            Event::Five => Some(5u8),
            Event::Six => Some(6u8),
            Event::Seven => Some(7u8),
            Event::Eight => Some(8u8),
            Event::Nine => Some(9u8),
            _ => None,
        }
    }

    /// The event's code.
    pub fn code(self) -> (c: u16)
        ensures
            c == self.spec_code(),
            c <= 207,
    {
        match self {
            Event::Left => 0,
            Event::Up => 1,
            Event::Down => 2,
            Event::Right => 3,
            Event::OK => 4,
            Event::Back => 5,
            Event::Shift => 12,
            Event::Alpha => 13,
            Event::Xnt => 14,
            Event::Var => 15,
            Event::Toolbox => 16,
            Event::Backspace => 17,
            Event::Exp => 18,
            Event::Ln => 19,
            Event::Log => 20,
            Event::Imaginary => 21,
            Event::Comma => 22,
            Event::Power => 23,
            Event::Sine => 24,
            Event::Cosine => 25,
            Event::Tangent => 26,
            Event::Pi => 27,
            Event::Sqrt => 28,
            Event::Square => 29,
            Event::Seven => 30,
            Event::Eight => 31,
            Event::Nine => 32,
            Event::LeftParenthesis => 33,
            Event::RightParenthesis => 34,
            Event::Four => 36,
            Event::Five => 37,
            Event::Six => 38,
            Event::Multiplication => 39,
            Event::Division => 40,
            Event::One => 42,
            Event::Two => 43,
            Event::Three => 44,
            Event::Plus => 45,
            Event::Minus => 46,
            Event::Zero => 48,
            Event::Dot => 49,
            Event::Ee => 50,
            Event::Ans => 51,
            Event::Exe => 52,
            Event::ShiftLeft => 54,
            Event::ShiftUp => 55,
            Event::ShiftDown => 56,
            Event::ShiftRight => 57,
            Event::AlphaLock => 67,
            Event::Cut => 68,
            Event::Copy => 69,
            Event::Paste => 70,
            Event::Clear => 71,
            Event::LeftBracket => 72,
            Event::RightBracket => 73,
            Event::LeftBrace => 74,
            Event::RightBrace => 75,
            Event::Underscore => 76,
            Event::Sto => 77,
            Event::Arcsine => 78,
            Event::Arccosine => 79,
            Event::Arctangent => 80,
            Event::Equal => 81,
            Event::Lower => 82,
            Event::Greater => 83,
            Event::Colon => 122,
            Event::Semicolon => 123,
            Event::DoubleQuotes => 124,
            Event::Percent => 125,
            Event::LowerA => 126,
            Event::LowerB => 127,
            Event::LowerC => 128,
            Event::LowerD => 129,
            Event::LowerE => 130,
            Event::LowerF => 131,
            Event::LowerG => 132,
            Event::LowerH => 133,
            Event::LowerI => 134,
            Event::LowerJ => 135,
            Event::LowerK => 136,
            Event::LowerL => 137,
            Event::LowerM => 138,
            Event::LowerN => 139,
            Event::LowerO => 140,
            Event::LowerP => 141,
            Event::LowerQ => 142,
            Event::LowerR => 144,
            Event::LowerS => 145,
            Event::LowerT => 146,
            Event::LowerU => 147,
            Event::LowerV => 148,
            Event::LowerW => 150,
            Event::LowerX => 151,
            Event::LowerY => 152,
            Event::LowerZ => 153,
            Event::Space => 154,
            Event::Question => 156,
            Event::Exclamation => 157,
            Event::UpperA => 180,
            Event::UpperB => 181,
            Event::UpperC => 182,
            Event::UpperD => 183,
            Event::UpperE => 184,
            Event::UpperF => 185,
            Event::UpperG => 186,
            Event::UpperH => 187,
            Event::UpperI => 188,
            Event::UpperJ => 189,
            Event::UpperK => 190,
            Event::UpperL => 191,
            Event::UpperM => 192,
            Event::UpperN => 193,
            Event::UpperO => 194,
            Event::UpperP => 195,
            Event::UpperQ => 196,
            Event::UpperR => 198,
            Event::UpperS => 199,
            Event::UpperT => 200,
            Event::UpperU => 201,
            Event::UpperV => 202,
            Event::UpperW => 204,
            Event::UpperX => 205,
            Event::UpperY => 206,
            Event::UpperZ => 207,
        }
    }

    /// The event whose code is `code`, or `None` where no event has it.
    pub fn from_code(code: u16) -> (r: Option<Event>)
        ensures
            match r {
                Some(e) => e.spec_code() == code,
                None => forall|e: Event| #[trigger] e.spec_code() != code,
            },
    {
        match code {
            0 => Some(Event::Left),
            1 => Some(Event::Up),
            2 => Some(Event::Down),
            3 => Some(Event::Right),
            4 => Some(Event::OK),
            5 => Some(Event::Back),
            12 => Some(Event::Shift),
            13 => Some(Event::Alpha),
            14 => Some(Event::Xnt),
            15 => Some(Event::Var),
            16 => Some(Event::Toolbox),
            17 => Some(Event::Backspace),
            18 => Some(Event::Exp),
            19 => Some(Event::Ln),
            20 => Some(Event::Log),
            21 => Some(Event::Imaginary),
            22 => Some(Event::Comma),
            23 => Some(Event::Power),
            24 => Some(Event::Sine),
            25 => Some(Event::Cosine),
            26 => Some(Event::Tangent),
            27 => Some(Event::Pi),
            28 => Some(Event::Sqrt),
            29 => Some(Event::Square),
            30 => Some(Event::Seven),
            31 => Some(Event::Eight),
            32 => Some(Event::Nine),
            33 => Some(Event::LeftParenthesis),
            34 => Some(Event::RightParenthesis),
            36 => Some(Event::Four),
            37 => Some(Event::Five),
            38 => Some(Event::Six),
            39 => Some(Event::Multiplication),
            40 => Some(Event::Division),
            42 => Some(Event::One),
            43 => Some(Event::Two),
            44 => Some(Event::Three),
            45 => Some(Event::Plus),
            46 => Some(Event::Minus),
            48 => Some(Event::Zero),
            49 => Some(Event::Dot),
            50 => Some(Event::Ee),
            51 => Some(Event::Ans),
            52 => Some(Event::Exe),
            54 => Some(Event::ShiftLeft),
            55 => Some(Event::ShiftUp),
            56 => Some(Event::ShiftDown),
            57 => Some(Event::ShiftRight),
            67 => Some(Event::AlphaLock),
            68 => Some(Event::Cut),
            69 => Some(Event::Copy),
            70 => Some(Event::Paste),
            71 => Some(Event::Clear),
            72 => Some(Event::LeftBracket),
            73 => Some(Event::RightBracket),
            74 => Some(Event::LeftBrace),
            75 => Some(Event::RightBrace),
            76 => Some(Event::Underscore),
            77 => Some(Event::Sto),
            78 => Some(Event::Arcsine),
            79 => Some(Event::Arccosine),
            80 => Some(Event::Arctangent),
            81 => Some(Event::Equal),
            82 => Some(Event::Lower),
            83 => Some(Event::Greater),
            122 => Some(Event::Colon),
            123 => Some(Event::Semicolon),
            124 => Some(Event::DoubleQuotes),
            125 => Some(Event::Percent),
            126 => Some(Event::LowerA),
            127 => Some(Event::LowerB),
            128 => Some(Event::LowerC),
            129 => Some(Event::LowerD),
            130 => Some(Event::LowerE),
            131 => Some(Event::LowerF),
            132 => Some(Event::LowerG),
            133 => Some(Event::LowerH),
            134 => Some(Event::LowerI),
            135 => Some(Event::LowerJ),
            136 => Some(Event::LowerK),
            137 => Some(Event::LowerL),
            138 => Some(Event::LowerM),
            139 => Some(Event::LowerN),
            140 => Some(Event::LowerO),
            141 => Some(Event::LowerP),
            142 => Some(Event::LowerQ),
            144 => Some(Event::LowerR),
            145 => Some(Event::LowerS),
            146 => Some(Event::LowerT),
            147 => Some(Event::LowerU),
            148 => Some(Event::LowerV),
            150 => Some(Event::LowerW),
            151 => Some(Event::LowerX),
            152 => Some(Event::LowerY),
            153 => Some(Event::LowerZ),
            154 => Some(Event::Space),
            156 => Some(Event::Question),
            157 => Some(Event::Exclamation),
            180 => Some(Event::UpperA),
            181 => Some(Event::UpperB),
            182 => Some(Event::UpperC),
            183 => Some(Event::UpperD),
            184 => Some(Event::UpperE),
            185 => Some(Event::UpperF),
            186 => Some(Event::UpperG),
            187 => Some(Event::UpperH),
            188 => Some(Event::UpperI),
            189 => Some(Event::UpperJ),
            190 => Some(Event::UpperK),
            191 => Some(Event::UpperL),
            192 => Some(Event::UpperM),
            193 => Some(Event::UpperN),
            194 => Some(Event::UpperO),
            195 => Some(Event::UpperP),
            196 => Some(Event::UpperQ),
            198 => Some(Event::UpperR),
            199 => Some(Event::UpperS),
            200 => Some(Event::UpperT),
            201 => Some(Event::UpperU),
            202 => Some(Event::UpperV),
            204 => Some(Event::UpperW),
            205 => Some(Event::UpperX),
            206 => Some(Event::UpperY),
            207 => Some(Event::UpperZ),
            _ => None,
        }
    }

    /// Whether the event is one of the ten digits.
    pub fn is_digit(&self) -> (r: bool)
        ensures
            r == self.spec_is_digit(),
    {
        match self {
            Event::Zero
            | Event::One
            | Event::Two
            | Event::Three
            | Event::Four
            | Event::Five
            | Event::Six
            | Event::Seven
            | Event::Eight
            | Event::Nine => true,
            _ => false,
        }
    }

    /// The value of a digit event, `None` for any other.
    pub fn to_digit(&self) -> (r: Option<u8>)
        ensures
            r == self.spec_digit(),
    {
        match self {
            Event::Zero => Some(0),
            Event::One => Some(1),
            Event::Two => Some(2),
            Event::Three => Some(3),
            Event::Four => Some(4),
            Event::Five => Some(5),
            Event::Six => Some(6),
            Event::Seven => Some(7),
            Event::Eight => Some(8),
            Event::Nine => Some(9),
            _ => None,
        }
    }
}

/// An event is a digit exactly when it has a decimal value, and that value
/// is below ten.
pub proof fn lemma_digit_iff_value(e: Event)
    ensures
        e.spec_is_digit() <==> e.spec_digit() is Some,
        e.spec_digit() matches Some(d) ==> d < 10,
{
}

/// No two events share a code.
pub proof fn lemma_event_code_injective(e: Event, f: Event)
    ensures
        e.spec_code() == f.spec_code() ==> e == f,
{
}

} // verus!
