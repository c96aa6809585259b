//! Screen geometry: which row a click lands on, where on a progress bar a
//! click falls, and how tall the visualizer is.

use vstd::prelude::*;

verus! {

/// The list item under a click at row `y` of a bordered list whose area
/// starts at row `area_y` and is scrolled by `scroll_offset` rows.
pub fn clicked_row(y: u16, area_y: u16, scroll_offset: usize) -> (item: usize)
    requires
        area_y < u16::MAX,
        scroll_offset + u16::MAX <= usize::MAX,
    ensures
        item == scroll_offset + if y > area_y + 1 { y - (area_y + 1) } else { 0 },
{
    let top = area_y + 1;
    let row: u16 = if y > top { y - top } else { 0 };
    scroll_offset + row as usize
}

/// Where a click at column `x` falls on the seek bar of the now-playing
/// box at column `area_x` and `area_width` wide: the offset into the bar and
/// the bar's width. Inside the box's border the first 17 columns hold the
/// times; the bar fills the rest.
pub fn seek_bar_offset(area_x: u16, area_width: u16, x: u16) -> (hit: Option<(u16, u16)>)
    requires
        area_x < u16::MAX,
    ensures
        ({
            let inner_x = area_x + 1;
            let inner_width = if area_width >= 2 { area_width - 2 } else { 0 };
            if inner_width > 17 && x >= inner_x + 17 && x - inner_x < inner_width {
                hit == Some(((x - inner_x - 17) as u16, (inner_width - 17) as u16))
            } else {
                hit is None
            }
        }),
{
    let inner_x_start = area_x + 1;
    let inner_width = area_width.saturating_sub(2);
    if inner_width > 15 && x >= inner_x_start {
        let rel_x = x - inner_x_start;
        let time_width = 15u16;
        let bar_width = inner_width.saturating_sub(time_width + 2);
        let bar_start = (inner_width.saturating_sub(time_width + 2 + bar_width)) / 2 + time_width + 2;
        if bar_width > 0 && rel_x >= bar_start && rel_x < bar_start + bar_width {
            return Some((rel_x - bar_start, bar_width));
        }
    }
    None
}

/// Where a click at column `x` falls on a progress bar drawn in an area at
/// column `area_x` and `area_width` wide, with eight columns of time text at
/// each end: the offset into the bar and the bar's width.
pub fn progress_bar_offset(area_x: u16, area_width: u16, x: u16) -> (hit: Option<(u16, u16)>)
    requires
        area_x + 8 <= u16::MAX,
        area_x + area_width <= u16::MAX,
        area_x + area_width >= 8,
    ensures
        ({
            let bar_start = area_x + 8;
            let bar_end = area_x + area_width - 8;
            if bar_start <= x < bar_end {
                hit == Some(((x - bar_start) as u16, (bar_end - bar_start) as u16))
            } else {
                hit is None
            }
        }),
{
    let bar_start = area_x + 8;
    let bar_end = area_x + area_width - 8;
    if x >= bar_start && x < bar_end {
        Some((x - bar_start, bar_end - bar_start))
    } else {
        None
    }
}

/// The height of the visualizer for a terminal `term_h` rows tall: 40% of
/// it, at least four rows.
pub fn cava_height(term_h: u16) -> (h: u16)
    ensures
        h == if term_h * 40 / 100 > 4 { term_h * 40 / 100 } else { 4 },
{
    let h: u32 = term_h as u32 * 40 / 100;
    if h > 4 { h as u16 } else { 4 }
}

} // verus!
