//! Eight-bit RGB colours and their `#rrggbb` text form.

use vstd::prelude::*;
use vstd::string::*;

use crate::error::EngineError;

verus! {

/// An opaque colour of three eight-bit channels.
#[derive(Clone, Copy, Debug, PartialEq, Eq, Structural, Hash)]
pub struct Color {
    pub red: u8,
    pub green: u8,
    pub blue: u8,
}

/// The lower-case hexadecimal digit that stands for `n`, for `n` below 16.
pub open spec fn hex_digit(n: u8) -> char {
    if n < 10 {
        (n + 48) as char
    } else {
        (n + 87) as char
    }
}

/// The number that the hexadecimal digit `c` stands for, in either case;
/// `None` where `c` is no hexadecimal digit.
pub open spec fn hex_value(c: char) -> Option<u8> {
    if '0' <= c <= '9' {
        Some((c as u8 - 48) as u8)
    } else if 'a' <= c <= 'f' {
        Some((c as u8 - 87) as u8)
    } else if 'A' <= c <= 'F' {
        Some((c as u8 - 55) as u8)
    } else {
        None
    }
}

/// The byte that two hexadecimal digits spell, high digit first.
pub open spec fn hex_pair(hi: char, lo: char) -> Option<u8> {
    match (hex_value(hi), hex_value(lo)) {
        (Some(h), Some(l)) => Some((h * 16 + l) as u8),
        _ => None,
    }
}

/// The text form of a colour: `#`, then two lower-case hexadecimal digits
/// for each of red, green and blue.
pub open spec fn hex_text(c: Color) -> Seq<char> {
    seq![
        '#',
        hex_digit(c.red / 16),
        hex_digit(c.red % 16),
        hex_digit(c.green / 16),
        hex_digit(c.green % 16),
        hex_digit(c.blue / 16),
        hex_digit(c.blue % 16),
    ]
}

/// The digits of a colour text: the text without its leading `#`, if it has
/// one.
pub open spec fn hex_digits_of(s: Seq<char>) -> Seq<char> {
    if s.len() > 0 && s[0] == '#' {
        s.subrange(1, s.len() as int)
    } else {
        s
    }
}

/// The colour that a text spells, if it spells one: exactly six hexadecimal
/// digits of either case, after an optional `#`.
pub open spec fn parse_hex(s: Seq<char>) -> Option<Color> {
    let d = hex_digits_of(s);
    if d.len() != 6 {
        None
    } else {
        match (hex_pair(d[0], d[1]), hex_pair(d[2], d[3]), hex_pair(d[4], d[5])) {
            (Some(r), Some(g), Some(b)) => Some(Color { red: r, green: g, blue: b }),
            _ => None,
        }
    }
}

fn digit_value(c: char) -> (r: Option<u8>)
    ensures
        r == hex_value(c),
        r matches Some(v) ==> v < 16,
{
    let n: u32 = c as u32;
    if 48 <= n && n <= 57 {
        Some((n - 48) as u8)
    } else if 97 <= n && n <= 102 {
        Some((n - 87) as u8)
    } else if 65 <= n && n <= 70 {
        Some((n - 55) as u8)
    } else {
        None
    }
}

fn pair_value(hi: char, lo: char) -> (r: Option<u8>)
    ensures
        r == hex_pair(hi, lo),
{
    match (digit_value(hi), digit_value(lo)) {
        (Some(h), Some(l)) => Some(h * 16 + l),
        _ => None,
    }
}

fn digit_text(n: u8) -> (r: &'static str)
    requires
        n < 16,
    ensures
        r@ == seq![hex_digit(n)],
{
    proof {
        reveal_strlit("0");
        reveal_strlit("1");
        reveal_strlit("2");
        reveal_strlit("3");
        reveal_strlit("4");
        reveal_strlit("5");
        reveal_strlit("6");
        reveal_strlit("7");
        reveal_strlit("8");
        reveal_strlit("9");
        reveal_strlit("a");
        reveal_strlit("b");
        reveal_strlit("c");
        reveal_strlit("d");
        reveal_strlit("e");
        reveal_strlit("f");
    }
    let r = match n {
        0 => "0",
        1 => "1",
        2 => "2",
        3 => "3",
        4 => "4",
        5 => "5",
        6 => "6",
        7 => "7",
        8 => "8",
        9 => "9",
        10 => "a",
        11 => "b",
        12 => "c",
        13 => "d",
        14 => "e",
        _ => "f",
    };
    assert(r@ =~= seq![hex_digit(n)]);
    r
}

impl Color {
    /// A colour from its three channels.
    pub fn new(red: u8, green: u8, blue: u8) -> (c: Color)
        ensures
            c == (Color { red, green, blue }),
    {
        Color { red, green, blue }
    }

    /// Writes the colour in its text form: `#` and six lower-case
    /// hexadecimal digits.
    pub fn to_hex(&self) -> (s: String)
        ensures
            s@ == hex_text(*self),
            parse_hex(s@) == Some(*self),
    {
        proof {
            reveal_strlit("#");
        }
        let mut s = String::from_str("#");
        s.append(digit_text(self.red / 16));
        s.append(digit_text(self.red % 16));
        s.append(digit_text(self.green / 16));
        s.append(digit_text(self.green % 16));
        s.append(digit_text(self.blue / 16));
        s.append(digit_text(self.blue % 16));
        proof {
            assert(s@ =~= hex_text(*self));
            hex_round_trip(*self);
        }
        s
    }

    /// Reads a colour from its text form. Fails exactly on the texts that
    /// spell no colour.
    pub fn from_hex(s: &str) -> (r: Result<Color, EngineError>)
        ensures
            match parse_hex(s@) {
                Some(c) => r == Ok::<Color, EngineError>(c),
                None => r == Err::<Color, EngineError>(EngineError::MalformedColorText),
            },
    {
        let n: usize = s.unicode_len();
        let skip: usize = if n > 0 && s.get_char(0) == '#' { 1 } else { 0 };
        if n - skip != 6 {
            return Err(EngineError::MalformedColorText);
        }
        let ghost d = hex_digits_of(s@);
        assert(d.len() == 6);
        assert(forall|i: int| 0 <= i < 6 ==> d[i] == s@[i + skip]);
        let r = pair_value(s.get_char(skip), s.get_char(skip + 1));
        let g = pair_value(s.get_char(skip + 2), s.get_char(skip + 3));
        let b = pair_value(s.get_char(skip + 4), s.get_char(skip + 5));
        match (r, g, b) {
            (Some(red), Some(green), Some(blue)) => Ok(Color { red, green, blue }),
            _ => Err(EngineError::MalformedColorText),
        }
    }
}

/// Every hexadecimal digit that is written reads back as the number it was
/// written for.
pub proof fn hex_digit_round_trip(n: u8)
    requires
        n < 16,
    ensures
        hex_value(hex_digit(n)) == Some(n),
{
}

/// Writing a colour as text and reading the text back gives the colour
/// again, for every colour.
pub proof fn hex_round_trip(c: Color)
    ensures
        parse_hex(hex_text(c)) == Some(c),
{
    let t = hex_text(c);
    let d = hex_digits_of(t);
    assert(t[0] == '#');
    assert(d =~= t.subrange(1, 7));
    hex_digit_round_trip(c.red / 16);
    hex_digit_round_trip(c.red % 16);
    hex_digit_round_trip(c.green / 16);
    hex_digit_round_trip(c.green % 16);
    hex_digit_round_trip(c.blue / 16);
    hex_digit_round_trip(c.blue % 16);
    assert(hex_pair(d[0], d[1]) == Some(c.red));
    assert(hex_pair(d[2], d[3]) == Some(c.green));
    assert(hex_pair(d[4], d[5]) == Some(c.blue));
}

/// Reading ignores the case of the digits: an upper-case digit reads as its
/// lower-case form does.
pub proof fn hex_value_ignores_case(n: u8)
    requires
        10 <= n < 16,
    ensures
        hex_value((n + 55) as char) == hex_value(hex_digit(n)),
{
}

} // verus!
