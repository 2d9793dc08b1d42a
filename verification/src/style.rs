//! Rendering configuration: colors, the border style, and the bundle of both
//! that the list is drawn with. Parsing of a color's textual form lives here
//! too; the host maps these values onto its drawing backend.

use vstd::prelude::*;

verus! {

/// A terminal color: one of the sixteen named colors, a palette index, or a
/// truecolor triple.
#[derive(Clone, Copy, PartialEq, Eq, Debug)]
pub enum Color {
    Red,
    LightRed,
    Blue,
    LightBlue,
    Yellow,
    LightYellow,
    Cyan,
    LightCyan,
    Green,
    LightGreen,
    Magenta,
    LightMagenta,
    Gray,
    DarkGray,
    Black,
    White,
    Indexed(u8),
    Rgb(u8, u8, u8),
}

/// Rejected color text: neither a known name, a `#rrggbb` triple, nor a
/// palette index that fits in a byte.
#[derive(Clone, Copy, PartialEq, Eq, Structural, Debug)]
pub struct ColorError;

/// Foreground and background of one cell class.
#[derive(Clone, Copy, PartialEq, Eq, Debug)]
pub struct CellColor {
    pub foreground: Color,
    pub background: Color,
}

/// The colors the menu is drawn with: the highlighted row, the shortcut
/// column, and the border.
#[derive(Clone, Copy, PartialEq, Eq, Debug)]
pub struct Colorscheme {
    pub selected: CellColor,
    pub key: CellColor,
    pub border: Color,
}

/// How the box around the list is drawn. Every style but `Hidden` reserves
/// two cells of width and of height for the border.
#[derive(Clone, Copy, PartialEq, Eq, Debug)]
pub enum BorderStyle {
    Hidden,
    Plain,
    Thick,
    Rounded,
    Double,
}

/// Rendering configuration supplied once at session start.
#[derive(Clone, Copy, PartialEq, Eq, Debug)]
pub struct Customizations {
    pub colorscheme: Colorscheme,
    pub border_style: BorderStyle,
}

impl BorderStyle {
    /// Cells reserved per axis by this border style.
    pub open spec fn reservation(self) -> u16 {
        match self {
            BorderStyle::Hidden => 0u16,
            _ => 2u16,
        }
    }

    pub fn size(self) -> (r: u16)
        ensures
            r == self.reservation(),
    {
        if matches!(self, Self::Hidden) {
            0
        } else {
            2
        }
    }
}

/// The numeric value of a hexadecimal digit, or 16 for any other character.
pub open spec fn hex_digit(c: char) -> int {
    let u = c as u32;
    if 48 <= u <= 57 {
        u - 48
    } else if 97 <= u <= 102 {
        u - 87
    } else if 65 <= u <= 70 {
        u - 55
    } else {
        16
    }
}

pub open spec fn is_hex_digit(c: char) -> bool {
    hex_digit(c) < 16
}

/// The numeric value of a decimal digit, or 10 for any other character.
pub open spec fn dec_digit(c: char) -> int {
    let u = c as u32;
    if 48 <= u <= 57 {
        u - 48
    } else {
        10
    }
}

pub open spec fn is_dec_digit(c: char) -> bool {
    dec_digit(c) < 10
}

/// The number a string of decimal digits denotes.
pub open spec fn dec_value(s: Seq<char>) -> int
    decreases s.len(),
{
    if s.len() == 0 {
        0
    } else {
        dec_value(s.drop_last()) * 10 + dec_digit(s.last())
    }
}

/// `#rrggbb`: a hash and six hexadecimal digits.
pub open spec fn is_hex_color(s: Seq<char>) -> bool {
    &&& s.len() == 7
    &&& s[0] == '#'
    &&& forall|i: int| 1 <= i < 7 ==> is_hex_digit(#[trigger] s[i])
}

/// The color a well-formed `#rrggbb` string denotes.
pub open spec fn hex_color(s: Seq<char>) -> Color {
    Color::Rgb(
        (hex_digit(s[1]) * 16 + hex_digit(s[2])) as u8,
        (hex_digit(s[3]) * 16 + hex_digit(s[4])) as u8,
        (hex_digit(s[5]) * 16 + hex_digit(s[6])) as u8,
    )
}

/// A palette index: one or more decimal digits denoting a value under 256.
pub open spec fn is_index_color(s: Seq<char>) -> bool {
    &&& s.len() >= 1
    &&& forall|i: int| 0 <= i < s.len() ==> is_dec_digit(#[trigger] s[i])
    &&& dec_value(s) < 256
}

/// The color a given name denotes, if it is one of the sixteen known names.
pub open spec fn named_color(s: Seq<char>) -> Option<Color> {
    if s == "red"@ {
        Some(Color::Red)
    } else if s == "light red"@ {
        Some(Color::LightRed)
    } else if s == "blue"@ {
        Some(Color::Blue)
    } else if s == "light blue"@ {
        Some(Color::LightBlue)
    } else if s == "yellow"@ {
        Some(Color::Yellow)
    } else if s == "light yellow"@ {
        Some(Color::LightYellow)
    } else if s == "cyan"@ {
        Some(Color::Cyan)
    } else if s == "light cyan"@ {
        Some(Color::LightCyan)
    } else if s == "green"@ {
        Some(Color::Green)
    } else if s == "light green"@ {
        Some(Color::LightGreen)
    } else if s == "magenta"@ {
        Some(Color::Magenta)
    } else if s == "light magenta"@ {
        Some(Color::LightMagenta)
    } else if s == "gray"@ {
        Some(Color::Gray)
    } else if s == "dark gray"@ {
        Some(Color::DarkGray)
    } else if s == "black"@ {
        Some(Color::Black)
    } else if s == "white"@ {
        Some(Color::White)
    } else {
        None
    }
}

/// What parsing a color's textual form yields: a known name wins, then the
/// `#rrggbb` form, then a palette index; anything else is rejected.
pub open spec fn parse_color(s: Seq<char>) -> Result<Color, ColorError> {
    match named_color(s) {
        Some(c) => Ok(c),
        None => if s.len() >= 1 && s[0] == '#' {
            if is_hex_color(s) {
                Ok(hex_color(s))
            } else {
                Err(ColorError)
            }
        } else {
            if is_index_color(s) {
                Ok(Color::Indexed((dec_value(s)) as u8))
            } else {
                Err(ColorError)
            }
        },
    }
}

/// Character-by-character string comparison, so that equality with a color
/// name can be decided in verified code.
fn str_eq(a: &str, b: &str) -> (r: bool)
    ensures
        r == (a@ == b@),
{
    let a_len = a.unicode_len();
    let b_len = b.unicode_len();
    if a_len != b_len {
        assert(a@ != b@) by {
            assert(a@.len() != b@.len());
        }
        return false;
    }
    let mut i: usize = 0;
    while i < a_len
        invariant
            i <= a_len,
            a_len == a@.len(),
            b_len == b@.len(),
            a_len == b_len,
            forall|j: int| 0 <= j < i ==> a@[j] == b@[j],
        decreases a_len - i,
    {
        if a.get_char(i) != b.get_char(i) {
            return false;
        }
        i += 1;
    }
    proof {
        assert(a@ =~= b@);
    }
    true
}

/// Monotonicity of `dec_value` under extension: once a prefix already
/// denotes 256 or more, the whole string does too.
proof fn lemma_dec_value_grows(s: Seq<char>, i: int, j: int)
    requires
        0 <= i <= j <= s.len(),
        dec_value(s.subrange(0, i)) >= 256,
    ensures
        dec_value(s.subrange(0, j)) >= 256,
    decreases j - i,
{
    if i < j {
        lemma_dec_value_grows(s, i, j - 1);
        assert(s.subrange(0, j).drop_last() =~= s.subrange(0, j - 1));
        assert(dec_value(s.subrange(0, j)) == dec_value(s.subrange(0, j - 1)) * 10 + dec_digit(
            s.subrange(0, j).last(),
        ));
    } else {
        assert(s.subrange(0, i) == s.subrange(0, j));
    }
}

/// Parse a string of decimal digits as a palette index.
fn parse_index(text: &str) -> (r: Result<u8, ColorError>)
    ensures
        is_index_color(text@) ==> r == Ok::<u8, ColorError>((dec_value(text@)) as u8),
        !is_index_color(text@) ==> r == Err::<u8, ColorError>(ColorError),
{
    let len = text.unicode_len();
    if len == 0 {
        return Err(ColorError);
    }
    let mut value: u32 = 0;
    let mut i: usize = 0;
    while i < len
        invariant
            i <= len,
            len == text@.len(),
            len >= 1,
            forall|j: int| 0 <= j < i ==> is_dec_digit(#[trigger] text@[j]),
            value <= 255,
            value == dec_value(text@.subrange(0, i as int)),
        decreases len - i,
    {
        let c = text.get_char(i);
        let u = c as u32;
        if u < 48 || u > 57 {
            return Err(ColorError);
        }
        proof {
            assert(text@.subrange(0, i + 1).drop_last() =~= text@.subrange(0, i as int));
        }
        value = value * 10 + (u - 48);
        i += 1;
        if value > 255 {
            proof {
                lemma_dec_value_grows(text@, i as int, len as int);
                assert(text@.subrange(0, len as int) =~= text@);
            }
            return Err(ColorError);
        }
    }
    proof {
        assert(text@.subrange(0, len as int) =~= text@);
    }
    Ok(value as u8)
}

/// Read one hexadecimal digit.
fn read_hex_digit(c: char) -> (r: Result<u8, ColorError>)
    ensures
        is_hex_digit(c) ==> r == Ok::<u8, ColorError>((hex_digit(c)) as u8),
        !is_hex_digit(c) ==> r == Err::<u8, ColorError>(ColorError),
{
    let u = c as u32;
    if 48 <= u && u <= 57 {
        Ok((u - 48) as u8)
    } else if 97 <= u && u <= 102 {
        Ok((u - 87) as u8)
    } else if 65 <= u && u <= 70 {
        Ok((u - 55) as u8)
    } else {
        Err(ColorError)
    }
}

/// Parse `#rrggbb`.
fn parse_hex(text: &str) -> (r: Result<Color, ColorError>)
    requires
        text@.len() >= 1,
        text@[0] == '#',
    ensures
        is_hex_color(text@) ==> r == Ok::<Color, ColorError>(hex_color(text@)),
        !is_hex_color(text@) ==> r == Err::<Color, ColorError>(ColorError),
{
    if text.unicode_len() != 7 {
        return Err(ColorError);
    }
    let d1 = match read_hex_digit(text.get_char(1)) {
        Ok(d) => d,
        Err(e) => return Err(e),
    };
    let d2 = match read_hex_digit(text.get_char(2)) {
        Ok(d) => d,
        Err(e) => return Err(e),
    };
    let d3 = match read_hex_digit(text.get_char(3)) {
        Ok(d) => d,
        Err(e) => return Err(e),
    };
    let d4 = match read_hex_digit(text.get_char(4)) {
        Ok(d) => d,
        Err(e) => return Err(e),
    };
    let d5 = match read_hex_digit(text.get_char(5)) {
        Ok(d) => d,
        Err(e) => return Err(e),
    };
    let d6 = match read_hex_digit(text.get_char(6)) {
        Ok(d) => d,
        Err(e) => return Err(e),
    };
    let r = d1 * 16 + d2;
    let g = d3 * 16 + d4;
    let b = d5 * 16 + d6;
    Ok(Color::Rgb(r, g, b))
}

impl Color {
    /// Parse the textual form of a color: a known name, `#rrggbb`, or a
    /// palette index under 256.
    pub fn from_str(text: &str) -> (r: Result<Color, ColorError>)
        ensures
            r == parse_color(text@),
    {
        if str_eq(text, "red") {
            return Ok(Color::Red);
        }
        if str_eq(text, "light red") {
            return Ok(Color::LightRed);
        }
        if str_eq(text, "blue") {
            return Ok(Color::Blue);
        }
        if str_eq(text, "light blue") {
            return Ok(Color::LightBlue);
        }
        if str_eq(text, "yellow") {
            return Ok(Color::Yellow);
        }
        if str_eq(text, "light yellow") {
            return Ok(Color::LightYellow);
        }
        if str_eq(text, "cyan") {
            return Ok(Color::Cyan);
        }
        if str_eq(text, "light cyan") {
            return Ok(Color::LightCyan);
        }
        if str_eq(text, "green") {
            return Ok(Color::Green);
        }
        if str_eq(text, "light green") {
            return Ok(Color::LightGreen);
        }
        if str_eq(text, "magenta") {
            return Ok(Color::Magenta);
        }
        if str_eq(text, "light magenta") {
            return Ok(Color::LightMagenta);
        }
        if str_eq(text, "gray") {
            return Ok(Color::Gray);
        }
        if str_eq(text, "dark gray") {
            return Ok(Color::DarkGray);
        }
        if str_eq(text, "black") {
            return Ok(Color::Black);
        }
        if str_eq(text, "white") {
            return Ok(Color::White);
        }
        if text.unicode_len() >= 1 && text.get_char(0) == '#' {
            parse_hex(text)
        } else {
            match parse_index(text) {
                Ok(i) => Ok(Color::Indexed(i)),
                Err(e) => Err(e),
            }
        }
    }
}

} // verus!
