//! Where the panes and popups go on the terminal, as ratatui's layout solver decides.
use vstd::prelude::*;
use ratatui::layout::{Constraint, Direction, Layout, Rect};

verus! {

/// A rectangle of the terminal, in cells.
#[derive(Clone, Copy, PartialEq, Eq, Structural, Debug)]
pub struct Area {
    pub x: u16,
    pub y: u16,
    pub width: u16,
    pub height: u16,
}

impl View for Area {
    type V = (u16, u16, u16, u16);

    open spec fn view(&self) -> (u16, u16, u16, u16) {
        (self.x, self.y, self.width, self.height)
    }
}

/// The middle part when ratatui's `Layout` splits `area` from top to bottom
/// into parts of `outer`%, `middle`% and `outer`% of its height, for
/// percentages that add up to at most 100 (so all of them can be met).
pub uninterp spec fn vertical_middle(area: (u16, u16, u16, u16), outer: u16, middle: u16) -> (u16, u16, u16, u16);

/// The middle part when ratatui's `Layout` splits `area` from left to right
/// into parts of `outer`%, `middle`% and `outer`% of its width, for
/// percentages that add up to at most 100 (so all of them can be met).
pub uninterp spec fn horizontal_middle(area: (u16, u16, u16, u16), outer: u16, middle: u16) -> (u16, u16, u16, u16);

/// The two parts when ratatui's `Layout` splits `area` from top to bottom into
/// a part at least `top_min` rows tall and one exactly `bottom` rows tall.
pub uninterp spec fn rows_split(area: (u16, u16, u16, u16), top_min: u16, bottom: u16) -> ((u16, u16, u16, u16), (u16, u16, u16, u16));

/// The two parts when ratatui's `Layout` splits `area` from left to right into
/// parts of `left`% and `right`% of its width, for percentages that add up to
/// at most 100 (so both can be met).
pub uninterp spec fn columns_split(area: (u16, u16, u16, u16), left: u16, right: u16) -> ((u16, u16, u16, u16), (u16, u16, u16, u16));

/// Calls ratatui's `Layout::split` with a vertical direction and the
/// constraints `Percentage(outer)`, `Percentage(middle)`, `Percentage(outer)`
/// and keeps the middle rectangle. Claimed, for percentages that can all be
/// met at once: the result is `vertical_middle` of the arguments, a function
/// of them alone. Conflicting percentages are not admitted.
#[verifier::external_body]
fn split_vertical_middle(area: Area, outer: u16, middle: u16) -> (r: Area)
    requires
        2 * outer + middle <= 100,
    ensures
        r@ == vertical_middle(area@, outer, middle),
{
    let parts = Layout::default().direction(Direction::Vertical).constraints([
        Constraint::Percentage(outer),
        Constraint::Percentage(middle),
        Constraint::Percentage(outer),
    ]).split(Rect { x: area.x, y: area.y, width: area.width, height: area.height });
    Area { x: parts[1].x, y: parts[1].y, width: parts[1].width, height: parts[1].height }
}

/// Calls ratatui's `Layout::split` with a horizontal direction and the
/// constraints `Percentage(outer)`, `Percentage(middle)`, `Percentage(outer)`
/// and keeps the middle rectangle. Claimed, for percentages that can all be
/// met at once: the result is `horizontal_middle` of the arguments, a function
/// of them alone. Conflicting percentages are not admitted.
#[verifier::external_body]
fn split_horizontal_middle(area: Area, outer: u16, middle: u16) -> (r: Area)
    requires
        2 * outer + middle <= 100,
    ensures
        r@ == horizontal_middle(area@, outer, middle),
{
    let parts = Layout::default().direction(Direction::Horizontal).constraints([
        Constraint::Percentage(outer),
        Constraint::Percentage(middle),
        Constraint::Percentage(outer),
    ]).split(Rect { x: area.x, y: area.y, width: area.width, height: area.height });
    Area { x: parts[1].x, y: parts[1].y, width: parts[1].width, height: parts[1].height }
}

/// Calls ratatui's `Layout::split` with a vertical direction and the
/// constraints `Min(top_min)`, `Length(bottom)`. Claimed: the two rectangles
/// are `rows_split` of the arguments, a function of them alone.
#[verifier::external_body]
fn split_rows(area: Area, top_min: u16, bottom: u16) -> (r: (Area, Area))
    ensures
        (r.0@, r.1@) == rows_split(area@, top_min, bottom),
{
    let parts = Layout::vertical([Constraint::Min(top_min), Constraint::Length(bottom)])
        .split(Rect { x: area.x, y: area.y, width: area.width, height: area.height });
    (
        Area { x: parts[0].x, y: parts[0].y, width: parts[0].width, height: parts[0].height },
        Area { x: parts[1].x, y: parts[1].y, width: parts[1].width, height: parts[1].height },
    )
}

/// Calls ratatui's `Layout::split` with a horizontal direction and the
/// constraints `Percentage(left)`, `Percentage(right)`. Claimed, for
/// percentages that can both be met: the two rectangles are `columns_split` of
/// the arguments, a function of them alone. Conflicting ones are not admitted.
#[verifier::external_body]
fn split_columns(area: Area, left: u16, right: u16) -> (r: (Area, Area))
    requires
        left + right <= 100,
    ensures
        (r.0@, r.1@) == columns_split(area@, left, right),
{
    let parts = Layout::horizontal([Constraint::Percentage(left), Constraint::Percentage(right)])
        .split(Rect { x: area.x, y: area.y, width: area.width, height: area.height });
    (
        Area { x: parts[0].x, y: parts[0].y, width: parts[0].width, height: parts[0].height },
        Area { x: parts[1].x, y: parts[1].y, width: parts[1].width, height: parts[1].height },
    )
}

/// The popup area: `percent_y`% of the height in the middle of `area`, then
/// `percent_x`% of the width in the middle of that.
pub open spec fn centered(percent_x: u16, percent_y: u16, area: (u16, u16, u16, u16)) -> (u16, u16, u16, u16) {
    let outer_y = ((100 - percent_y) / 2) as u16;
    let outer_x = ((100 - percent_x) / 2) as u16;
    horizontal_middle(vertical_middle(area, outer_y, percent_y), outer_x, percent_x)
}

/// A rectangle centred in `area`, `percent_x`% wide and `percent_y`% tall.
pub fn centered_rect(percent_x: u16, percent_y: u16, area: Area) -> (r: Area)
    requires
        percent_x <= 100,
        percent_y <= 100,
    ensures
        r@ == centered(percent_x, percent_y, area@),
{
    let vertical = split_vertical_middle(area, (100 - percent_y) / 2, percent_y);
    split_horizontal_middle(vertical, (100 - percent_x) / 2, percent_x)
}

/// The three panes of the browser.
pub struct ScreenAreas {
    pub list: Area,
    pub details: Area,
    pub help: Area,
}

/// The main part is at least 8 rows over a help line of 2 rows; the main part
/// is split 42% for the list and 58% for the details.
pub open spec fn screen_layout(area: (u16, u16, u16, u16)) -> ((u16, u16, u16, u16), (u16, u16, u16, u16), (u16, u16, u16, u16)) {
    let rows = rows_split(area, 8, 2);
    let columns = columns_split(rows.0, 42, 58);
    (columns.0, columns.1, rows.1)
}

/// Where the list, the details and the help line go on a screen of `area`.
pub fn screen_areas(area: Area) -> (r: ScreenAreas)
    ensures
        (r.list@, r.details@, r.help@) == screen_layout(area@),
{
    let (main, help) = split_rows(area, 8, 2);
    let (list, details) = split_columns(main, 42, 58);
    ScreenAreas { list, details, help }
}

} // verus!
