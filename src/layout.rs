//! The fixed frame layout: a banner band on top and the view's body below,
//! both inset from the left and right edges.

use tui::layout::{Constraint, Direction, Layout, Rect};
use vstd::prelude::*;

verus! {

/// Rows given to the banner at the top of every frame.
pub const BANNER_ROWS: u16 = 4;

/// Share of the remaining rows, in percent, that the body asks for.
pub const BODY_PERCENT: u16 = 100;

/// Columns left free at each side of the frame.
pub const SIDE_MARGIN: u16 = 1;

/// A rectangle of terminal cells: its top-left corner and its size.
#[derive(Clone, Copy, Debug, PartialEq, Eq, Structural)]
pub struct Area {
    pub x: u16,
    pub y: u16,
    pub width: u16,
    pub height: u16,
}

/// Whether `r` splits `area` into a band over a body: both span the columns of
/// `area` less `margin` at each side; the band starts at the top of `area`;
/// the body starts right below the band and ends at the bottom of `area`.
pub open spec fn stacked(area: Area, r: (Area, Area), margin: u16) -> bool {
    &&& r.0.x == area.x + margin
    &&& r.1.x == area.x + margin
    &&& r.0.width == area.width - 2 * margin
    &&& r.1.width == area.width - 2 * margin
    &&& r.0.y == area.y
    &&& r.1.y == r.0.y + r.0.height
    &&& r.1.y + r.1.height == area.y + area.height
}

/// The empty region at the origin.
pub open spec fn empty_region() -> Area {
    Area { x: 0, y: 0, width: 0, height: 0 }
}

/// Relies on tui's `Layout::split` with a vertical direction, a `Length`
/// constraint over a `Percentage` one, and a horizontal margin. Its required
/// constraints fix each region's columns to the area less the margins, put
/// the first region at the top, chain the two, and make the last end at the
/// bottom. The `Length` and `Percentage` targets are weak and of equal
/// strength; when the body asks for the whole height or more, every band
/// height from 0 to `band_rows` ties as best and no taller one does, so the
/// band's height is known to be at most `band_rows`; with a smaller share the
/// tie reaches past `band_rows` and nothing is promised of it. An area narrower
/// than both margins gives empty regions at the origin. The bounds keep its
/// `u16` arithmetic (`2 * margin`, `x + margin`, `percent * height`) from
/// overflowing and its right and bottom edges from saturating, which would
/// make the constraints unsatisfiable and the split panic.
#[verifier::external_body]
fn split_vertical(area: Area, band_rows: u16, body_percent: u16, margin: u16) -> (r: (Area, Area))
    requires
        body_percent as int * area.height as int <= u16::MAX as int,
        2 * margin as int <= u16::MAX as int,
        area.x as int + area.width as int <= u16::MAX as int,
        area.y as int + area.height as int <= u16::MAX as int,
    ensures
        2 * margin as int <= area.width as int ==> stacked(area, r, margin),
        2 * margin as int <= area.width as int && body_percent >= 100 ==> r.0.height <= band_rows,
        2 * margin as int > area.width as int ==> r.0 == empty_region() && r.1 == empty_region(),
{
    let chunks = Layout::default()
        .direction(Direction::Vertical)
        .constraints([Constraint::Length(band_rows), Constraint::Percentage(body_percent)])
        .horizontal_margin(margin)
        .split(Rect { x: area.x, y: area.y, width: area.width, height: area.height });
    let conv = |c: Rect| Area { x: c.x, y: c.y, width: c.width, height: c.height };
    (conv(chunks[0]), conv(chunks[1]))
}

/// The largest frame height that the layout accepts.
pub const MAX_FRAME_ROWS: u16 = 655;

/// Splits a frame into its banner region, at most `BANNER_ROWS` rows at the
/// top, and its body region below it down to the bottom of the frame, both
/// inset by `SIDE_MARGIN` columns at each side. A frame too narrow for the
/// inset gives two empty regions at the origin.
pub fn frame_regions(frame: Area) -> (r: (Area, Area))
    requires
        frame.height <= MAX_FRAME_ROWS,
        frame.x as int + frame.width as int <= u16::MAX as int,
        frame.y as int + frame.height as int <= u16::MAX as int,
    ensures
        2 <= frame.width ==> stacked(frame, r, SIDE_MARGIN),
        2 <= frame.width ==> r.0.height <= BANNER_ROWS,
        frame.width < 2 ==> r.0 == empty_region() && r.1 == empty_region(),
{
    split_vertical(frame, BANNER_ROWS, BODY_PERCENT, SIDE_MARGIN)
}

} // verus!
