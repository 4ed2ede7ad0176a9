//! Colour strings: `transparent`, `#RRGGBB`, `#RRGGBBAA` and the visibility
//! predicates built on them.
use vstd::prelude::*;
use vstd::string::*;
use vstd::utf8::*;

use crate::text::{
    decimal_text, eq_ignoring_ascii_case, push_decimal, same_ignoring_ascii_case, same_text, trim_range,
    trimmed,
};

verus! {

/// Red, green, blue and alpha channels.
pub type Rgba = (u8, u8, u8, u8);

/// The word that names a fully transparent colour (compared ignoring ASCII case).
pub open spec fn transparent_word() -> Seq<char> {
    "transparent"@
}

/// Whether a colour string means "no colour": the word `transparent` in any
/// ASCII case, or the empty string.
pub open spec fn is_transparent_text(s: Seq<char>) -> bool {
    eq_ignoring_ascii_case(s, transparent_word()) || s.len() == 0
}

/// Drops one leading `#`.
pub open spec fn without_hash(t: Seq<char>) -> Seq<char> {
    if t.len() > 0 && t[0] == '#' {
        t.drop_first()
    } else {
        t
    }
}

/// The UTF-8 bytes of the hex digits of a colour string: trimmed, without `#`.
pub open spec fn hex_bytes(s: Seq<char>) -> Seq<u8> {
    encode_utf8(without_hash(trimmed(s)))
}

/// Value of one hexadecimal digit byte, either case.
pub open spec fn hex_digit_value(b: u8) -> Option<u8> {
    if 48 <= b <= 57 {
        Some((b - 48) as u8)
    } else if 97 <= b <= 102 {
        Some((b - 87) as u8)
    } else if 65 <= b <= 70 {
        Some((b - 55) as u8)
    } else {
        None
    }
}

/// Value of a channel written as two hexadecimal digit bytes; anything
/// else (a sign, a space, a non-ASCII byte) makes the pair unreadable.
pub open spec fn hex_pair_value(hi: u8, lo: u8) -> Option<u8> {
    match (hex_digit_value(hi), hex_digit_value(lo)) {
        (Some(a), Some(b)) => Some((16 * a + b) as u8),
        _ => None,
    }
}

/// Channel `k` (0 = red, 1 = green, 2 = blue, 3 = alpha) of a digit byte string.
pub open spec fn channel(b: Seq<u8>, k: int) -> Option<u8> {
    hex_pair_value(b[2 * k], b[2 * k + 1])
}

pub open spec fn channels_ok(b: Seq<u8>, n: int) -> bool {
    forall|k: int| 0 <= k < n ==> (#[trigger] channel(b, k)) is Some
}

/// What a colour string stands for, with every failure read as opaque black.
pub open spec fn color_of(s: Seq<char>) -> Rgba {
    if is_transparent_text(s) {
        (0, 0, 0, 0)
    } else {
        let b = hex_bytes(s);
        if b.len() == 6 && channels_ok(b, 3) {
            (channel(b, 0)->0, channel(b, 1)->0, channel(b, 2)->0, 255)
        } else if b.len() == 8 && channels_ok(b, 4) {
            (channel(b, 0)->0, channel(b, 1)->0, channel(b, 2)->0, channel(b, 3)->0)
        } else {
            (0, 0, 0, 255)
        }
    }
}

/// Message for a digit string of the wrong length `n` (counted in bytes).
pub open spec fn length_message(n: nat) -> Seq<char> {
    "Expected 6 or 8 hex digits (RRGGBB or RRGGBBAA), got "@ + decimal_text(n)
}

/// What a colour string stands for, or the message naming the first problem.
pub open spec fn color_result_of(s: Seq<char>) -> Result<Rgba, Seq<char>> {
    if eq_ignoring_ascii_case(s, transparent_word()) {
        Ok((0, 0, 0, 0))
    } else {
        let b = hex_bytes(s);
        if b.len() == 6 || b.len() == 8 {
            if channel(b, 0) is None {
                Err("Invalid hex digit in R component"@)
            } else if channel(b, 1) is None {
                Err("Invalid hex digit in G component"@)
            } else if channel(b, 2) is None {
                Err("Invalid hex digit in B component"@)
            } else if b.len() == 6 {
                Ok((channel(b, 0)->0, channel(b, 1)->0, channel(b, 2)->0, 255))
            } else if channel(b, 3) is None {
                Err("Invalid hex digit in A component"@)
            } else {
                Ok((channel(b, 0)->0, channel(b, 1)->0, channel(b, 2)->0, channel(b, 3)->0))
            }
        } else {
            Err(length_message(b.len()))
        }
    }
}

fn digit_value(b: u8) -> (r: Option<u8>)
    ensures
        r == hex_digit_value(b),
{
    if 48 <= b && b <= 57 {
        Some(b - 48)
    } else if 97 <= b && b <= 102 {
        Some(b - 87)
    } else if 65 <= b && b <= 70 {
        Some(b - 55)
    } else {
        None
    }
}

fn pair_value(hi: u8, lo: u8) -> (r: Option<u8>)
    ensures
        r == hex_pair_value(hi, lo),
{
    match (digit_value(hi), digit_value(lo)) {
        (Some(a), Some(b)) => Some(16 * a + b),
        _ => None,
    }
}

/// Reads channel `k` from the digit bytes.
fn read_channel(b: &[u8], k: usize) -> (r: Option<u8>)
    requires
        k <= 3,
        2 * k + 1 < b@.len(),
    ensures
        r == channel(b@, k as int),
{
    pair_value(b[2 * k], b[2 * k + 1])
}

/// The digit bytes of a colour string: trimmed, one leading `#` dropped.
fn hex_digits(s: &str) -> (r: &str)
    ensures
        r@ == without_hash(trimmed(s@)),
{
    let (lo, hi) = trim_range(s);
    let mut start = lo;
    if lo < hi && s.get_char(lo) == '#' {
        start = lo + 1;
    }
    let h = s.substring_char(start, hi);
    proof {
        let t = s@.subrange(lo as int, hi as int);
        if lo < hi && s@[lo as int] == '#' {
            assert(t.drop_first() =~= s@.subrange(start as int, hi as int));
        }
    }
    h
}

/// Whether a colour string means "no colour" (`transparent` in any ASCII
/// case, or empty).
pub fn is_transparent(color: &str) -> (r: bool)
    ensures
        r == is_transparent_text(color@),
{
    same_ignoring_ascii_case(color, "transparent") || color.is_empty()
}

/// Parses a colour string; every failure gives opaque black.
pub fn parse_color(color_str: &str) -> (r: Rgba)
    ensures
        r == color_of(color_str@),
{
    if same_ignoring_ascii_case(color_str, "transparent") || color_str.is_empty() {
        return (0, 0, 0, 0);
    }
    let hex = hex_digits(color_str);
    let b = hex.as_bytes();
    let n = b.len();
    if n == 6 {
        let r = read_channel(b, 0);
        let g = read_channel(b, 1);
        let bl = read_channel(b, 2);
        match (r, g, bl) {
            (Some(r), Some(g), Some(bl)) => {
                assert(channels_ok(b@, 3)) by {
                    assert forall|k: int| 0 <= k < 3 implies (#[trigger] channel(b@, k)) is Some by {
                        if k == 1 {
                        } else if k == 2 {
                        }
                    }
                }
                (r, g, bl, 255)
            },
            _ => {
                assert(!channels_ok(b@, 3)) by {
                    if channel(b@, 0) is None {
                        assert(!(channel(b@, 0) is Some));
                    } else if channel(b@, 1) is None {
                        assert(!(channel(b@, 1) is Some));
                    } else {
                        assert(!(channel(b@, 2) is Some));
                    }
                }
                (0, 0, 0, 255)
            },
        }
    } else if n == 8 {
        let r = read_channel(b, 0);
        let g = read_channel(b, 1);
        let bl = read_channel(b, 2);
        let a = read_channel(b, 3);
        match (r, g, bl, a) {
            (Some(r), Some(g), Some(bl), Some(a)) => {
                assert(channels_ok(b@, 4)) by {
                    assert forall|k: int| 0 <= k < 4 implies (#[trigger] channel(b@, k)) is Some by {
                        if k == 1 {
                        } else if k == 2 {
                        } else if k == 3 {
                        }
                    }
                }
                (r, g, bl, a)
            },
            _ => {
                assert(!channels_ok(b@, 4)) by {
                    if channel(b@, 0) is None {
                        assert(!(channel(b@, 0) is Some));
                    } else if channel(b@, 1) is None {
                        assert(!(channel(b@, 1) is Some));
                    } else if channel(b@, 2) is None {
                        assert(!(channel(b@, 2) is Some));
                    } else {
                        assert(!(channel(b@, 3) is Some));
                    }
                }
                (0, 0, 0, 255)
            },
        }
    } else {
        (0, 0, 0, 255)
    }
}

/// Parses a colour string, naming the first problem on failure. Unlike
/// [`parse_color`], the empty string is an error here.
pub fn parse_color_result(color_str: &str) -> (r: Result<Rgba, String>)
    ensures
        match (r, color_result_of(color_str@)) {
            (Ok(c), Ok(d)) => c == d,
            (Err(e), Err(m)) => e@ == m,
            _ => false,
        },
{
    if same_ignoring_ascii_case(color_str, "transparent") {
        return Ok((0, 0, 0, 0));
    }
    let hex = hex_digits(color_str);
    let b = hex.as_bytes();
    let n = b.len();
    if n == 6 || n == 8 {
        let r = match read_channel(b, 0) {
            Some(v) => v,
            None => return Err(String::from_str("Invalid hex digit in R component")),
        };
        let g = match read_channel(b, 1) {
            Some(v) => v,
            None => return Err(String::from_str("Invalid hex digit in G component")),
        };
        let bl = match read_channel(b, 2) {
            Some(v) => v,
            None => return Err(String::from_str("Invalid hex digit in B component")),
        };
        if n == 6 {
            return Ok((r, g, bl, 255));
        }
        let a = match read_channel(b, 3) {
            Some(v) => v,
            None => return Err(String::from_str("Invalid hex digit in A component")),
        };
        Ok((r, g, bl, a))
    } else {
        let mut msg = String::from_str("Expected 6 or 8 hex digits (RRGGBB or RRGGBBAA), got ");
        push_decimal(&mut msg, n);
        Err(msg)
    }
}

/// Channel `k` of a `#RRGGBB` string read by the raster backend: an
/// unreadable pair counts as 0.
pub open spec fn raster_channel(b: Seq<u8>, k: int) -> u8 {
    match hex_pair_value(b[2 * k + 1], b[2 * k + 2]) {
        Some(v) => v,
        None => 0,
    }
}

/// The colour the raster backend reads from a colour string: exactly seven
/// bytes starting with `#` give their three channels (an unreadable pair
/// reads as 0) at full opacity; exactly `transparent` or the empty string
/// give full transparency; anything else is opaque black.
pub open spec fn raster_color_of(s: Seq<char>) -> Rgba {
    let b = encode_utf8(s);
    if s.len() > 0 && s[0] == '#' && b.len() == 7 {
        (raster_channel(b, 0), raster_channel(b, 1), raster_channel(b, 2), 255)
    } else if s == transparent_word() || s.len() == 0 {
        (0, 0, 0, 0)
    } else {
        (0, 0, 0, 255)
    }
}

fn read_raster_channel(b: &[u8], k: usize) -> (r: u8)
    requires
        k <= 2,
        2 * k + 2 < b@.len(),
    ensures
        r == raster_channel(b@, k as int),
{
    match pair_value(b[2 * k + 1], b[2 * k + 2]) {
        Some(v) => v,
        None => 0,
    }
}

/// Parses a colour the way the raster backend does: only `#RRGGBB` is read,
/// with no trimming and no alpha.
pub fn parse_raster_color(color_str: &str) -> (r: Rgba)
    ensures
        r == raster_color_of(color_str@),
{
    let b = color_str.as_bytes();
    if !color_str.is_empty() && color_str.get_char(0) == '#' && b.len() == 7 {
        (read_raster_channel(b, 0), read_raster_channel(b, 1), read_raster_channel(b, 2), 255)
    } else if same_text(color_str, "transparent") || color_str.is_empty() {
        (0, 0, 0, 0)
    } else {
        (0, 0, 0, 255)
    }
}

/// Whether the renderers paint with a colour string: it is neither empty
/// nor exactly `transparent` (case matters here).
pub fn paints_color(color: &str) -> (r: bool)
    ensures
        r == (color@.len() > 0 && color@ != transparent_word()),
{
    !color.is_empty() && !same_text(color, "transparent")
}

/// Whether an element with this stroke colour, and a stroke width that is
/// or is not positive, draws a stroke.
pub fn has_stroke(stroke_color: &str, stroke_width_positive: bool) -> (r: bool)
    ensures
        r == (stroke_color@.len() > 0 && !is_transparent_text(stroke_color@) && stroke_width_positive),
{
    !stroke_color.is_empty() && !is_transparent(stroke_color) && stroke_width_positive
}

/// Whether an element with this background colour draws a fill.
pub fn has_fill(background_color: &str) -> (r: bool)
    ensures
        r == (background_color@.len() > 0 && !is_transparent_text(background_color@)),
{
    !background_color.is_empty() && !is_transparent(background_color)
}

} // verus!
