//! What is drawn: the rows of the process list, and where the cursor stands.

use crate::app::{Proc, ProcStatus};
use ratatui::layout::{Constraint, Direction, Layout, Rect};
use vstd::prelude::*;
use vstd::string::*;

verus! {

/// A rectangle of the terminal.
#[derive(Clone, Copy, Debug, PartialEq, Eq, Structural)]
pub struct Area {
    pub x: u16,
    pub y: u16,
    pub width: u16,
    pub height: u16,
}

/// The color of a status symbol.
#[derive(Clone, Copy, Debug, PartialEq, Eq, Structural)]
pub enum StatusColor {
    Green,
    Red,
}

/// The row of a process in the list.
#[derive(Debug, PartialEq, Eq)]
pub struct Row {
    /// Marks the shown process.
    pub marker: &'static str,
    pub symbol: &'static str,
    pub color: StatusColor,
    pub name: String,
}

/// The help line at the bottom.
pub open spec fn help_line() -> Seq<char> {
    "↑/k up  ↓/j down  Enter focus  s start  x kill  q quit"@
}

/// The help line at the bottom.
pub fn help_text() -> (text: &'static str)
    ensures
        text@ == help_line(),
{
    "↑/k up  ↓/j down  Enter focus  s start  x kill  q quit"
}

/// The row of a process.
pub fn row(proc: &Proc) -> (row: Row)
    ensures
        row.marker@ == if proc.is_shown {
            "▶ "@
        } else {
            "  "@
        },
        proc.status == ProcStatus::Running ==> row.symbol@ == "●"@ && row.color
            == StatusColor::Green,
        proc.status == ProcStatus::Dead ==> row.symbol@ == "○"@ && row.color
            == StatusColor::Red,
        row.name@ == proc.name@,
{
    let (symbol, color): (&'static str, StatusColor) = match proc.status {
        ProcStatus::Running => ("●", StatusColor::Green),
        ProcStatus::Dead => ("○", StatusColor::Red),
    };
    let marker: &'static str = if proc.is_shown {
        "▶ "
    } else {
        "  "
    };
    Row { marker, symbol, color, name: proc.name.clone() }
}

/// The lines of an area that can be addressed.
pub open spec fn lines_in(area: Area) -> int {
    if area.y + area.height <= u16::MAX {
        area.height as int
    } else {
        u16::MAX - area.y
    }
}

/// Whether `inner` spans `outer` from left to right and lies within it.
pub open spec fn row_within(inner: Area, outer: Area) -> bool {
    &&& inner.x == outer.x
    &&& inner.width == outer.width
    &&& outer.y <= inner.y
    &&& inner.y + inner.height <= outer.y + lines_in(outer)
}

/// `ratatui::layout::Layout::split` from top to bottom, with the constraints
/// `Min(min)` and `Length(length)`: two areas over the whole width, within the
/// given one. Where both constraints can be met, the lower one has the length
/// and stands at the bottom, and the upper one has the rest. Which constraint
/// gives way where they cannot be met is left unsaid.
#[verifier::external_body]
fn split_rows(area: Area, min: u16, length: u16) -> (rows: (Area, Area))
    ensures
        row_within(rows.0, area),
        row_within(rows.1, area),
        min + length <= lines_in(area) ==> {
            &&& rows.0.y == area.y
            &&& rows.0.height == lines_in(area) - length
            &&& rows.1.y == area.y + lines_in(area) - length
            &&& rows.1.height == length
        },
{
    let Area { x, y, width, height } = area;
    let rows = Layout::default()
        .direction(Direction::Vertical)
        .constraints([Constraint::Min(min), Constraint::Length(length)])
        .split(Rect { x, y, width, height });
    let (a, b) = (rows[0], rows[1]);
    (
        Area { x: a.x, y: a.y, width: a.width, height: a.height },
        Area { x: b.x, y: b.y, width: b.width, height: b.height },
    )
}

/// The area of the process list, and below it that of the help line, which is
/// one line high unless there is none.
pub fn layout(area: Area) -> (areas: (Area, Area))
    ensures
        lines_in(area) == 0 ==> areas.0 == (Area { height: 0, ..area }) && areas.1 == (Area {
            height: 0,
            ..area
        }),
        lines_in(area) > 0 ==> {
            &&& areas.0 == (Area { height: (lines_in(area) - 1) as u16, ..area })
            &&& areas.1 == (Area {
                y: (area.y + lines_in(area) - 1) as u16,
                height: 1,
                ..area
            })
        },
{
    split_rows(area, 0, 1)
}

/// How many rows below the first visible one the selected row is, where the
/// list has scrolled by `offset`.
pub open spec fn visible_row(selected: usize, offset: usize) -> int {
    if selected > offset {
        selected - offset
    } else {
        0
    }
}

/// The last line that the rows of the list can stand on.
pub open spec fn last_row(list: Area) -> int {
    if list.height > 2 {
        list.y + list.height - 2
    } else {
        list.y as int
    }
}

/// The line of the cursor: that of the selected row, below the top border, and
/// not beyond the last row.
pub open spec fn cursor_line(list: Area, selected: usize, offset: usize) -> int {
    if list.y + 1 + visible_row(selected, offset) < last_row(list) {
        list.y + 1 + visible_row(selected, offset)
    } else {
        last_row(list)
    }
}

/// Position the cursor at the selected row so a terminal's cursor-row highlight
/// stays in sync with the selection highlight.
pub fn cursor_row(list: Area, selected: usize, offset: usize) -> (line: u16)
    requires
        last_row(list) <= u16::MAX,
    ensures
        line == cursor_line(list, selected, offset),
{
    let below: usize = if selected > offset {
        selected - offset
    } else {
        0
    };
    let last: u16 = if list.height > 2 {
        list.y + (list.height - 2)
    } else {
        list.y
    };
    // The lines between the top border and the last row.
    let room: u16 = last - list.y;
    if room > 0 && below < (room - 1) as usize {
        list.y + 1 + below as u16
    } else {
        last
    }
}

/// The cursor stands inside the borders of a list that has rows, and at the
/// selected row where that row is inside them.
pub proof fn law_cursor_inside(list: Area, selected: usize, offset: usize)
    requires
        list.height > 2,
    ensures
        list.y < cursor_line(list, selected, offset) < list.y + list.height - 1,
        visible_row(selected, offset) < list.height - 2 ==> cursor_line(list, selected, offset)
            == list.y + 1 + visible_row(selected, offset),
{
}

/// Where the cursor is, wherever the list and the selection are: in a list
/// without rows at its top, and otherwise on the selected row, as many lines below
/// the top border as rows are visible above it, or on the last row where that is
/// further up.
pub proof fn law_cursor_line(list: Area, selected: usize, offset: usize)
    ensures
        list.height <= 2 ==> cursor_line(list, selected, offset) == list.y,
        list.height > 2 ==> {
            let above = if selected >= offset {
                selected - offset
            } else {
                0
            };
            cursor_line(list, selected, offset) == if above < list.height - 2 {
                list.y + 1 + above
            } else {
                list.y + list.height - 2
            }
        },
{
}

} // verus!
