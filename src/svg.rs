//! Markup-level decisions of the SVG output: style tags, attribute values,
//! colours written as hex, and XML escaping.
use vstd::prelude::*;
use vstd::string::*;
use vstd::utf8::*;

use crate::color::{
    channel, color_of, hex_bytes, hex_digit_value, hex_pair_value, is_transparent_text, without_hash,
    Rgba,
};
use crate::text::{
    digit_char, digit_for, hex2, is_white_space, push_char, same_text, trim_end, trim_start, trimmed,
};

verus! {

/// How a stroke is drawn.
#[derive(Clone, Copy, Debug, PartialEq, Eq, Structural)]
pub enum StrokeStyle {
    Solid,
    Dashed,
    Dotted,
}

pub open spec fn stroke_style_of(tag: Seq<char>) -> StrokeStyle {
    if tag == "dashed"@ {
        StrokeStyle::Dashed
    } else if tag == "dotted"@ {
        StrokeStyle::Dotted
    } else {
        StrokeStyle::Solid
    }
}

impl StrokeStyle {
    /// Reads a stroke style tag; anything but `dashed` and `dotted` is solid.
    pub fn from_tag(tag: &str) -> (r: StrokeStyle)
        ensures
            r == stroke_style_of(tag@),
    {
        if same_text(tag, "dashed") {
            StrokeStyle::Dashed
        } else if same_text(tag, "dotted") {
            StrokeStyle::Dotted
        } else {
            StrokeStyle::Solid
        }
    }

    /// Dash length and base gap, in tenths of a unit, of a dash pattern whose
    /// gap then grows by the stroke width: `None` for a solid stroke, 8 and 8
    /// for dashes, 1.5 and 6 for dots.
    pub fn dash_tenths(self) -> (r: Option<(u32, u32)>)
        ensures
            r == match self {
                StrokeStyle::Solid => None::<(u32, u32)>,
                StrokeStyle::Dashed => Some((80u32, 80u32)),
                StrokeStyle::Dotted => Some((15u32, 60u32)),
            },
    {
        match self {
            StrokeStyle::Solid => None,
            StrokeStyle::Dashed => Some((80, 80)),
            StrokeStyle::Dotted => Some((15, 60)),
        }
    }
}

/// `stroke-dasharray` value of the SVG output for a stroke style tag.
pub fn get_stroke_dasharray(stroke_style: &str) -> (r: &'static str)
    ensures
        r@ == match stroke_style_of(stroke_style@) {
            StrokeStyle::Dashed => "8,4"@,
            StrokeStyle::Dotted => "2,2"@,
            StrokeStyle::Solid => "none"@,
        },
{
    match StrokeStyle::from_tag(stroke_style) {
        StrokeStyle::Dashed => "8,4",
        StrokeStyle::Dotted => "2,2",
        StrokeStyle::Solid => "none",
    }
}

/// Font family name written into SVG text for a font id.
pub fn get_font_family(font_id: Option<i32>) -> (r: &'static str)
    ensures
        r@ == match font_id {
            Some(1) => "Liberation Sans"@,
            Some(2) => "CascadiaCode"@,
            _ => "Excalifont"@,
        },
{
    match font_id {
        Some(1) => "Liberation Sans",
        Some(2) => "CascadiaCode",
        _ => "Excalifont",
    }
}

/// `text-anchor` value for a text alignment tag.
pub fn get_text_anchor(text_align: Option<&str>) -> (r: &'static str)
    ensures
        r@ == match text_align {
            Some(t) => if t@ == "center"@ {
                "middle"@
            } else if t@ == "right"@ {
                "end"@
            } else {
                "start"@
            },
            None => "start"@,
        },
{
    match text_align {
        Some(t) => if same_text(t, "center") {
            "middle"
        } else if same_text(t, "right") {
            "end"
        } else {
            "start"
        },
        None => "start",
    }
}

/// `#rrggbb` with lowercase digits.
pub open spec fn rgb_hex_text(r: u8, g: u8, b: u8) -> Seq<char> {
    seq!['#'] + hex2(r) + hex2(g) + hex2(b)
}

fn push_hex2(out: &mut String, b: u8)
    ensures
        final(out)@ == old(out)@ + hex2(b),
{
    push_char(out, digit_for(b / 16));
    push_char(out, digit_for(b % 16));
    proof {
        assert(final(out)@ =~= old(out)@ + hex2(b));
    }
}

/// Writes a colour as `#rrggbb`, alpha left out.
pub fn rgb_hex(r: u8, g: u8, b: u8) -> (s: String)
    ensures
        s@ == rgb_hex_text(r, g, b),
{
    let mut s = String::new();
    push_char(&mut s, '#');
    push_hex2(&mut s, r);
    push_hex2(&mut s, g);
    push_hex2(&mut s, b);
    proof {
        assert(s@ =~= rgb_hex_text(r, g, b));
    }
    s
}

proof fn lemma_digit_value(d: nat)
    requires
        d < 16,
    ensures
        hex_digit_value(digit_char(d) as u8) == Some(d as u8),
        !is_white_space(digit_char(d)),
        '\0' <= digit_char(d) <= '\u{7f}',
{
}

proof fn lemma_pair_value(v: u8)
    ensures
        hex_pair_value(hex2(v)[0] as u8, hex2(v)[1] as u8) == Some(v),
{
    lemma_digit_value((v / 16) as nat);
    lemma_digit_value((v % 16) as nat);
}

/// Writing a colour as `#rrggbb` and parsing it back gives the same colour,
/// fully opaque.
pub proof fn lemma_hex_round_trip(r: u8, g: u8, b: u8)
    ensures
        color_of(rgb_hex_text(r, g, b)) == (r, g, b, 255u8),
{
    let s = rgb_hex_text(r, g, b);
    reveal_strlit("transparent");
    lemma_digit_value((r / 16) as nat);
    lemma_digit_value((r % 16) as nat);
    lemma_digit_value((g / 16) as nat);
    lemma_digit_value((g % 16) as nat);
    lemma_digit_value((b / 16) as nat);
    lemma_digit_value((b % 16) as nat);
    lemma_pair_value(r);
    lemma_pair_value(g);
    lemma_pair_value(b);
    assert(s.len() == 7);
    assert(!is_transparent_text(s));
    assert(trim_start(s) == s);
    assert(trim_end(s) == s);
    let body = hex2(r) + hex2(g) + hex2(b);
    assert(without_hash(trimmed(s)) =~= body);
    assert(is_ascii_chars(body));
    is_ascii_chars_encode_utf8(body);
    let bytes = hex_bytes(s);
    assert(bytes.len() == 6);
    assert(bytes[0] == hex2(r)[0] as u8 && bytes[1] == hex2(r)[1] as u8);
    assert(bytes[2] == hex2(g)[0] as u8 && bytes[3] == hex2(g)[1] as u8);
    assert(bytes[4] == hex2(b)[0] as u8 && bytes[5] == hex2(b)[1] as u8);
    assert(channel(bytes, 0) == Some(r));
    assert(channel(bytes, 1) == Some(g));
    assert(channel(bytes, 2) == Some(b));
}

/// Fill colour of the background rectangle: none when no background is
/// asked for or when it is fully transparent, else its `#rrggbb`.
pub fn background_fill(background: Option<Rgba>) -> (r: Option<String>)
    ensures
        match background {
            Some(c) => if c.3 == 0 {
                r is None
            } else {
                r is Some && r->0@ == rgb_hex_text(c.0, c.1, c.2)
            },
            None => r is None,
        },
{
    match background {
        Some((r, g, b, a)) => if a == 0 {
            None
        } else {
            Some(rgb_hex(r, g, b))
        },
        None => None,
    }
}

/// The XML entity, or the character itself, that stands for `c` in markup.
pub open spec fn xml_escape_char(c: char) -> Seq<char> {
    if c == '&' {
        "&amp;"@
    } else if c == '<' {
        "&lt;"@
    } else if c == '>' {
        "&gt;"@
    } else if c == '"' {
        "&quot;"@
    } else if c == '\'' {
        "&apos;"@
    } else {
        seq![c]
    }
}

/// A string with the five XML special characters replaced by entities.
pub open spec fn xml_escaped(s: Seq<char>) -> Seq<char>
    decreases s.len(),
{
    if s.len() == 0 {
        seq![]
    } else {
        xml_escaped(s.drop_last()) + xml_escape_char(s.last())
    }
}

/// Replaces `&`, `<`, `>`, `"` and `'` by their XML entities.
pub fn escape_xml(s: &str) -> (r: String)
    ensures
        r@ == xml_escaped(s@),
{
    let n = s.unicode_len();
    let mut out = String::new();
    let mut i: usize = 0;
    while i < n
        invariant
            n == s@.len(),
            i <= n,
            out@ == xml_escaped(s@.subrange(0, i as int)),
        decreases n - i,
    {
        let c = s.get_char(i);
        if c == '&' {
            out.append("&amp;");
        } else if c == '<' {
            out.append("&lt;");
        } else if c == '>' {
            out.append("&gt;");
        } else if c == '"' {
            out.append("&quot;");
        } else if c == '\'' {
            out.append("&apos;");
        } else {
            push_char(&mut out, c);
        }
        proof {
            assert(s@.subrange(0, i + 1).drop_last() =~= s@.subrange(0, i as int));
        }
        i += 1;
    }
    proof {
        assert(s@.subrange(0, n as int) =~= s@);
    }
    out
}

} // verus!
