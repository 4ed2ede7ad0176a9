//! Font family and text alignment tags.
use vstd::prelude::*;

use crate::text::same_text;

verus! {

/// Horizontal alignment of a text element.
#[derive(Clone, Copy, Debug, PartialEq, Eq, Structural)]
pub enum TextAlign {
    Left,
    Center,
    Right,
    /// No alignment given, or a tag that names none of the above.
    Unset,
}

/// Vertical alignment of a text element.
#[derive(Clone, Copy, Debug, PartialEq, Eq, Structural)]
pub enum VerticalAlign {
    Top,
    Middle,
    Bottom,
    /// No alignment given, or a tag that names none of the above.
    Unset,
}

pub open spec fn text_align_of(tag: Option<&str>) -> TextAlign {
    match tag {
        Some(t) => if t@ == "left"@ {
            TextAlign::Left
        } else if t@ == "center"@ {
            TextAlign::Center
        } else if t@ == "right"@ {
            TextAlign::Right
        } else {
            TextAlign::Unset
        },
        None => TextAlign::Unset,
    }
}

pub open spec fn vertical_align_of(tag: Option<&str>) -> VerticalAlign {
    match tag {
        Some(t) => if t@ == "top"@ {
            VerticalAlign::Top
        } else if t@ == "middle"@ {
            VerticalAlign::Middle
        } else if t@ == "bottom"@ {
            VerticalAlign::Bottom
        } else {
            VerticalAlign::Unset
        },
        None => VerticalAlign::Unset,
    }
}

impl TextAlign {
    pub fn from_tag(tag: Option<&str>) -> (r: TextAlign)
        ensures
            r == text_align_of(tag),
    {
        match tag {
            Some(t) => if same_text(t, "left") {
                TextAlign::Left
            } else if same_text(t, "center") {
                TextAlign::Center
            } else if same_text(t, "right") {
                TextAlign::Right
            } else {
                TextAlign::Unset
            },
            None => TextAlign::Unset,
        }
    }

    /// How far along the container width the text anchor sits, in percent:
    /// 0 for left (and unset), 50 for center, 100 for right.
    pub fn anchor_percent(self) -> (r: u32)
        ensures
            r == match self {
                TextAlign::Center => 50u32,
                TextAlign::Right => 100u32,
                _ => 0u32,
            },
    {
        match self {
            TextAlign::Center => 50,
            TextAlign::Right => 100,
            _ => 0,
        }
    }
}

impl VerticalAlign {
    pub fn from_tag(tag: Option<&str>) -> (r: VerticalAlign)
        ensures
            r == vertical_align_of(tag),
    {
        match tag {
            Some(t) => if same_text(t, "top") {
                VerticalAlign::Top
            } else if same_text(t, "middle") {
                VerticalAlign::Middle
            } else if same_text(t, "bottom") {
                VerticalAlign::Bottom
            } else {
                VerticalAlign::Unset
            },
            None => VerticalAlign::Unset,
        }
    }

    /// Offset of the first baseline below the top of the text box, in
    /// percent of the font size: 35 for middle, 90 for bottom, 75 otherwise.
    pub fn baseline_percent(self) -> (r: u32)
        ensures
            r == match self {
                VerticalAlign::Middle => 35u32,
                VerticalAlign::Bottom => 90u32,
                _ => 75u32,
            },
    {
        match self {
            VerticalAlign::Middle => 35,
            VerticalAlign::Bottom => 90,
            _ => 75,
        }
    }
}

/// Line height, in percent of the font size, used when an element gives none.
pub const DEFAULT_LINE_HEIGHT_PERCENT: u32 = 125;

/// Family name of the font with the given id: 1 and 2 name the sans-serif
/// and monospace families, everything else the hand-drawn default.
pub fn get_font_family(font_id: Option<i32>) -> (r: &'static str)
    ensures
        r@ == match font_id {
            Some(1) => "Liberation Sans"@,
            Some(2) => "Cascadia Code"@,
            _ => "Excalifont"@,
        },
{
    match font_id {
        Some(1) => "Liberation Sans",
        Some(2) => "Cascadia Code",
        _ => "Excalifont",
    }
}

/// SVG `text-anchor` value for a text alignment tag.
pub fn get_svg_text_anchor(text_align: Option<&str>) -> (r: &'static str)
    ensures
        r@ == match text_align_of(text_align) {
            TextAlign::Center => "middle"@,
            TextAlign::Right => "end"@,
            _ => "start"@,
        },
{
    match TextAlign::from_tag(text_align) {
        TextAlign::Center => "middle",
        TextAlign::Right => "end",
        _ => "start",
    }
}

} // verus!
