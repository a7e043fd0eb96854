//! The color palette: the named colors the renderer draws with, their
//! built-in defaults, and the parser that turns a `#RRGGBB` string
//! into channel values.

use vstd::prelude::*;
use vstd::string::StrSliceExecFns;

verus! {

/// A parsed color: either explicit RGB channels, or the terminal's
/// default when the text could not be read as a hex color.
#[derive(Clone, Copy, PartialEq, Eq, Structural, Debug)]
pub enum ColorValue {
    Rgb(u8, u8, u8),
    Reset,
}

/// The value of one hex digit character, if it is one.
pub open spec fn spec_hex_digit(c: char) -> Option<int> {
    if '0' as int <= c as int <= '9' as int {
        Some(c as int - '0' as int)
    } else if 'a' as int <= c as int <= 'f' as int {
        Some(c as int - 'a' as int + 10)
    } else if 'A' as int <= c as int <= 'F' as int {
        Some(c as int - 'A' as int + 10)
    } else {
        None
    }
}

/// The value of a string of hex digits; `None` once any character is
/// not a hex digit. The empty string reads as 0 — emptiness is
/// rejected separately.
pub open spec fn spec_hex_value(s: Seq<char>) -> Option<int>
    decreases s.len(),
{
    if s.len() == 0 {
        Some(0)
    } else {
        match (spec_hex_value(s.drop_last()), spec_hex_digit(s.last())) {
            (Some(v), Some(d)) => Some(16 * v + d),
            _ => None,
        }
    }
}

/// What parsing a color string yields: everything after the leading
/// marker character read as hex; any malformed, empty or overlong
/// value falls back to the terminal default.
pub open spec fn spec_parse_color(s: Seq<char>) -> ColorValue {
    if s.len() <= 1 {
        ColorValue::Reset
    } else {
        let hex = s.drop_first();
        match spec_hex_value(hex) {
            Some(v) => if v <= u32::MAX {
                ColorValue::Rgb(
                    ((v / 0x10000) % 0x100) as u8,
                    ((v / 0x100) % 0x100) as u8,
                    (v % 0x100) as u8,
                )
            } else {
                ColorValue::Reset
            },
            None => ColorValue::Reset,
        }
    }
}

/// The value of one hex digit character.
fn hex_digit(c: char) -> (r: Option<u8>)
    ensures
        match r {
            Some(d) => spec_hex_digit(c) == Some(d as int),
            None => spec_hex_digit(c) is None,
        },
{
    let v = c as u32;
    if v >= '0' as u32 && v <= '9' as u32 {
        Some((v - '0' as u32) as u8)
    } else if v >= 'a' as u32 && v <= 'f' as u32 {
        Some((v - 'a' as u32 + 10) as u8)
    } else if v >= 'A' as u32 && v <= 'F' as u32 {
        Some((v - 'A' as u32 + 10) as u8)
    } else {
        None
    }
}

/// Parse a `#RRGGBB` color string into channel values; anything that
/// does not read as hex after the first character yields the terminal
/// default.
pub fn parse_color(color_str: &str) -> (r: ColorValue)
    ensures
        r == spec_parse_color(color_str@),
{
    let n = color_str.unicode_len();
    if n <= 1 {
        return ColorValue::Reset;
    }
    let ghost hex = color_str@.drop_first();
    let mut acc: u64 = 0;
    let mut bad = false;
    let mut i: usize = 1;
    while i < n
        invariant
            1 <= i <= n,
            n == color_str@.len(),
            hex == color_str@.drop_first(),
            acc <= 0x1_0000_0000,
            ({
                let sofar = spec_hex_value(hex.take(i - 1));
                if bad {
                    sofar is None
                } else {
                    sofar matches Some(v) && (if v <= u32::MAX {
                        acc == v
                    } else {
                        acc == 0x1_0000_0000
                    })
                }
            }),
        decreases n - i,
    {
        proof {
            assert(hex.take(i as int) =~= hex.take(i - 1).push(hex[i - 1]));
            assert(hex.take(i as int).drop_last() =~= hex.take(i - 1));
        }
        let c = color_str.get_char(i);
        match hex_digit(c) {
            Some(d) => {
                if !bad {
                    let mut next: u64 = acc * 16 + (d as u64);
                    if next > 0xFFFF_FFFF {
                        next = 0x1_0000_0000;
                    }
                    acc = next;
                }
            },
            None => {
                bad = true;
            },
        }
        i = i + 1;
    }
    proof {
        assert(hex.take(n - 1) =~= hex);
    }
    if bad || acc > 0xFFFF_FFFF {
        ColorValue::Reset
    } else {
        let v = acc as u32;
        ColorValue::Rgb(
            ((v / 0x10000) % 0x100) as u8,
            ((v / 0x100) % 0x100) as u8,
            (v % 0x100) as u8,
        )
    }
}

/// The full color palette, as hex strings; the renderer parses each
/// with [`parse_color`].
pub struct ColorConfig {
    pub background: String,
    pub foreground: String,
    pub cursor: String,
    pub selection: String,
    pub comment: String,
    pub keyword: String,
    pub string_literal: String,
    pub function: String,
    pub number: String,
    pub minimap_highlight: String,
    pub minimap_background: String,
    pub minimap_content: String,
    pub minimap_border: String,
    pub tab_active: String,
    pub tab_inactive: String,
    pub tab_background: String,
    pub file_selector_background: String,
    pub file_selector_foreground: String,
    pub file_selector_highlight: String,
    pub file_selector_border: String,
}

impl ColorConfig {
    /// The built-in palette, used whenever no color configuration is
    /// available.
    pub fn default() -> (c: ColorConfig)
        ensures
            c.background@ == "#1E1E1E"@,
            c.foreground@ == "#CCCCCC"@,
            c.cursor@ == "#FFFFFF"@,
            c.selection@ == "#264F78"@,
            c.comment@ == "#7F848E"@,
            c.keyword@ == "#61AFEF"@,
            c.string_literal@ == "#C678DD"@,
            c.function@ == "#E5C07B"@,
            c.number@ == "#D19A66"@,
            c.minimap_highlight@ == "#264F78"@,
            c.minimap_background@ == "#1E1E1E"@,
            c.minimap_content@ == "#404040"@,
            c.minimap_border@ == "#404040"@,
            c.tab_active@ == "#61AFEF"@,
            c.tab_inactive@ == "#7F848E"@,
            c.tab_background@ == "#252526"@,
            c.file_selector_background@ == "#2C2C2C"@,
            c.file_selector_foreground@ == "#CCCCCC"@,
            c.file_selector_highlight@ == "#3A3D41"@,
            c.file_selector_border@ == "#4A4A4A"@,
    {
        ColorConfig {
            background: "#1E1E1E".to_owned(),
            foreground: "#CCCCCC".to_owned(),
            cursor: "#FFFFFF".to_owned(),
            selection: "#264F78".to_owned(),
            comment: "#7F848E".to_owned(),
            keyword: "#61AFEF".to_owned(),
            string_literal: "#C678DD".to_owned(),
            function: "#E5C07B".to_owned(),
            number: "#D19A66".to_owned(),
            minimap_highlight: "#264F78".to_owned(),
            minimap_background: "#1E1E1E".to_owned(),
            minimap_content: "#404040".to_owned(),
            minimap_border: "#404040".to_owned(),
            tab_active: "#61AFEF".to_owned(),
            tab_inactive: "#7F848E".to_owned(),
            tab_background: "#252526".to_owned(),
            file_selector_background: "#2C2C2C".to_owned(),
            file_selector_foreground: "#CCCCCC".to_owned(),
            file_selector_highlight: "#3A3D41".to_owned(),
            file_selector_border: "#4A4A4A".to_owned(),
        }
    }
}

} // verus!
