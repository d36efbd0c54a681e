//! Screen geometry: the fixed-size canvas and the tab strip of the header.
use vstd::prelude::*;

verus! {

/// The canvas is always this wide.
pub const MIN_CANVAS_WIDTH: u16 = 122;

/// The canvas is always this high.
pub const MIN_CANVAS_HEIGHT: u16 = 29;

/// A rectangle of terminal cells.
#[derive(Debug, Clone, Copy, PartialEq, Eq, Structural)]
pub struct Rect {
    pub x: u16,
    pub y: u16,
    pub width: u16,
    pub height: u16,
}

/// The canvas centered in the terminal area, or `None` where the area is too small.
pub open spec fn canvas_of(area: Rect) -> Option<Rect> {
    if area.width < MIN_CANVAS_WIDTH || area.height < MIN_CANVAS_HEIGHT {
        None
    } else {
        Some(
            Rect {
                x: (area.x + (area.width - MIN_CANVAS_WIDTH) / 2) as u16,
                y: (area.y + (area.height - MIN_CANVAS_HEIGHT) / 2) as u16,
                width: MIN_CANVAS_WIDTH,
                height: MIN_CANVAS_HEIGHT,
            },
        )
    }
}

/// Centers a canvas of the fixed size in the terminal area; `None` where the
/// area is smaller than the canvas.
pub fn canvas_rect(area: Rect) -> (r: Option<Rect>)
    requires
        area.x + area.width <= u16::MAX,
        area.y + area.height <= u16::MAX,
    ensures
        r == canvas_of(area),
        r matches Some(c) ==> c.x >= area.x && c.y >= area.y && c.x + c.width <= area.x
            + area.width && c.y + c.height <= area.y + area.height,
{
    if area.width < MIN_CANVAS_WIDTH || area.height < MIN_CANVAS_HEIGHT {
        return None;
    }
    let x = area.x + (area.width - MIN_CANVAS_WIDTH) / 2;
    let y = area.y + (area.height - MIN_CANVAS_HEIGHT) / 2;
    Some(Rect { x, y, width: MIN_CANVAS_WIDTH, height: MIN_CANVAS_HEIGHT })
}

/// The number of terminal cells a text takes, as the terminal renders it.
pub uninterp spec fn display_width(s: Seq<char>) -> usize;

/// Asks `unicode_width::UnicodeWidthStr::width` how many cells the text
/// takes. The contract claims only that the answer depends on the text alone.
#[verifier::external_body]
fn text_width(s: &str) -> (r: usize)
    ensures
        r == display_width(s@),
{
    unicode_width::UnicodeWidthStr::width(s)
}

/// `x` capped at the largest `u16`.
pub open spec fn sat16(x: int) -> int {
    if x > u16::MAX {
        u16::MAX as int
    } else {
        x
    }
}

/// The tab hit by `col`, looking from tab `k` on, where tab `k` starts at
/// `x`: each tab takes its title's width plus one cell of padding on each
/// side, and a one-cell divider follows every tab but the last.
pub open spec fn tab_from(widths: Seq<u16>, k: int, x: int, col: int) -> Option<usize>
    decreases widths.len() - k,
{
    if k < 0 || k >= widths.len() {
        None
    } else {
        let end = sat16(x + 1 + widths[k] + 1);
        if x <= col < end {
            Some(k as usize)
        } else {
            let div: int = if k < widths.len() - 1 {
                1
            } else {
                0
            };
            tab_from(widths, k + 1, sat16(end + div), col)
        }
    }
}

/// The tab under column `col` of the tab strip, whose tabs have the given title widths.
pub open spec fn tab_at(widths: Seq<u16>, col: u16) -> Option<usize> {
    tab_from(widths, 0, 0, col as int)
}

/// The tab under column `col`, given the widths of the tab titles.
pub fn tab_index_for_widths(widths: &Vec<u16>, col: u16) -> (r: Option<usize>)
    ensures
        r == tab_at(widths@, col),
        r matches Some(i) ==> i < widths.len(),
{
    let mut x: u16 = 0;
    let mut i: usize = 0;
    while i < widths.len()
        invariant
            i <= widths@.len(),
            tab_from(widths@, i as int, x as int, col as int) == tab_at(widths@, col),
        decreases widths@.len() - i,
    {
        let end = x.saturating_add(1).saturating_add(widths[i]).saturating_add(1);
        if col >= x && col < end {
            return Some(i);
        }
        let div: u16 = if i + 1 < widths.len() {
            1
        } else {
            0
        };
        x = end.saturating_add(div);
        i = i + 1;
    }
    None
}

/// The widths of the titles, each cut to 16 bits.
pub open spec fn title_widths(titles: Seq<String>) -> Seq<u16> {
    Seq::new(titles.len(), |i: int| display_width(titles[i]@) as u16)
}

/// The tab under column `col` of the tab strip with these titles.
pub fn calculate_tab_index(titles: &Vec<String>, col: u16) -> (r: Option<usize>)
    ensures
        r == tab_at(title_widths(titles@), col),
{
    let mut widths: Vec<u16> = Vec::new();
    let mut i: usize = 0;
    while i < titles.len()
        invariant
            i <= titles@.len(),
            widths@ == title_widths(titles@).take(i as int),
        decreases titles@.len() - i,
    {
        let w = text_width(titles[i].as_str());
        #[verifier::truncate]
        let w16 = w as u16;
        widths.push(w16);
        i = i + 1;
    }
    assert(widths@ == title_widths(titles@));
    tab_index_for_widths(&widths, col)
}

} // verus!
