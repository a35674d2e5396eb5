//! The screen's three panels and the two things a user adjusts in them: the
//! height of the message panel and the selected line.

use tui::layout::{Constraint, Direction, Layout, Rect};
use vstd::prelude::*;

verus! {

/// Rows the list keeps when the terminal is tall enough.
pub const LIST_MIN_HEIGHT: u16 = 5;

/// Rows of the panel with the severity tabs.
pub const FILTER_HEIGHT: u16 = 3;

/// Rows of a panel that hold no line of the list: one for the column titles
/// and two for the border.
pub const LIST_FRAME_HEIGHT: u16 = 3;

/// Rows the message panel has at the start.
pub const INITIAL_MESSAGE_HEIGHT: u16 = 10;

/// A rectangle of terminal cells.
#[derive(Debug, Clone, Copy, PartialEq, Eq, Structural)]
pub struct Area {
    pub x: u16,
    pub y: u16,
    pub width: u16,
    pub height: u16,
}

impl Area {
    /// Lines of the list that fit a panel of this height: what the frame
    /// leaves, and none for a panel smaller than its frame.
    pub open spec fn list_rows(self) -> int {
        if self.height >= LIST_FRAME_HEIGHT {
            self.height - LIST_FRAME_HEIGHT
        } else {
            0
        }
    }

    /// The row below the area's last one, held at the last row a terminal can
    /// have.
    pub open spec fn bottom(self) -> int {
        if self.y + self.height <= u16::MAX {
            self.y + self.height
        } else {
            u16::MAX as int
        }
    }

    /// Rows of the area that panels can be laid out in.
    pub open spec fn rows(self) -> int {
        self.bottom() - self.y
    }

    /// The area with its width cut off at the last column a terminal can
    /// have.
    pub open spec fn fitted(self) -> Area {
        if self.x + self.width <= u16::MAX {
            self
        } else {
            Area { width: (u16::MAX - self.x) as u16, ..self }
        }
    }
}

/// Lines of the list that fit the first of `chunks`: none while there is no
/// layout.
pub open spec fn page_rows(chunks: Seq<Area>) -> int {
    if chunks.len() > 0 {
        chunks[0].list_rows()
    } else {
        0
    }
}

/// Whether `chunks` are three panels stacked in `area`: each spans the area's
/// columns, the first starts at the area's first row, each next one starts
/// where the one above it ends, and the last ends at the area's bottom.
pub open spec fn laid_out(chunks: Seq<Area>, area: Area) -> bool {
    &&& chunks.len() == 3
    &&& forall|i: int|
        0 <= i < 3 ==> (#[trigger] chunks[i]).x == area.x && chunks[i].width == area.width
    &&& chunks[0].y == area.y
    &&& chunks[0].y + chunks[0].height == chunks[1].y
    &&& chunks[1].y + chunks[1].height == chunks[2].y
    &&& chunks[2].y + chunks[2].height == area.bottom()
}

/// The rows that three panels take between them.
pub open spec fn total_height(chunks: Seq<Area>) -> int {
    chunks[0].height + chunks[1].height + chunks[2].height
}

/// Whether the two lower panels of `chunks` have the heights asked for,
/// where the area has rows enough for all that was asked. Of an area with
/// fewer rows it says nothing.
pub open spec fn heights_as_asked(
    chunks: Seq<Area>,
    area: Area,
    top: u16,
    middle: u16,
    bottom: u16,
) -> bool {
    top + middle + bottom <= area.rows() ==> chunks[1].height == middle && chunks[2].height
        == bottom
}

/// What the layout engine is asked for: three rows in `area`, from top to
/// bottom one of at least `list` rows, one of `message` rows and one of
/// `filter` rows.
#[derive(Debug, Clone, Copy, PartialEq, Eq, Structural)]
pub struct LayoutRequest {
    pub area: Area,
    pub list: u16,
    pub message: u16,
    pub filter: u16,
}

/// The layout and what the user adjusts in it.
#[derive(Debug)]
pub struct Ui {
    /// From top to bottom the panels of the list, the message and the
    /// severity tabs, as the last layout placed them; empty before the first.
    pub chunks: Vec<Area>,
    /// Rows asked for the message panel.
    pub message_height: u16,
    /// Index of the selected line on the page.
    pub selected: usize,
}

impl Ui {
    /// What is asked of the layout engine for a terminal of `area`: the list
    /// with its minimum, the message panel with the height the user set, the
    /// severity tabs with theirs. An area that reaches past the last column
    /// a terminal can have is cut off there.
    pub fn layout_request(&self, area: Area) -> (request: LayoutRequest)
        ensures
            request == (LayoutRequest {
                area: area.fitted(),
                list: LIST_MIN_HEIGHT,
                message: self.message_height,
                filter: FILTER_HEIGHT,
            }),
    {
        let width = if area.width <= u16::MAX - area.x {
            area.width
        } else {
            u16::MAX - area.x
        };
        LayoutRequest {
            area: Area { x: area.x, y: area.y, width, height: area.height },
            list: LIST_MIN_HEIGHT,
            message: self.message_height,
            filter: FILTER_HEIGHT,
        }
    }

    /// Lays the three panels out in `area`, from top to bottom: the list,
    /// the message panel, the severity tabs. They are stacked without gap
    /// or overlap and fill the area, so none is taller than the terminal.
    /// Where the area has rows for the list's minimum, the message height
    /// and the tabs, the two lower panels get their heights and the list
    /// gets the rest; in a smaller area the layout engine decides which
    /// panel gives way.
    pub fn resize_main(&mut self, area: Area)
        ensures
            laid_out(final(self).chunks@, area.fitted()),
            LIST_MIN_HEIGHT + old(self).message_height + FILTER_HEIGHT <= area.rows() ==> {
                &&& final(self).chunks@[0].height == area.rows() - old(self).message_height
                    - FILTER_HEIGHT
                &&& final(self).chunks@[1].height == old(self).message_height
                &&& final(self).chunks@[2].height == FILTER_HEIGHT
            },
            total_height(final(self).chunks@) == area.rows(),
            area.rows() <= area.height,
            page_rows(final(self).chunks@) <= area.height,
            final(self).chunks@[1].height <= area.height,
            final(self).message_height == old(self).message_height,
            final(self).selected == old(self).selected,
    {
        let request = self.layout_request(area);
        self.chunks = split_rows(request.area, request.list, request.message, request.filter);
    }

    /// Number of log lines that fit the list panel.
    pub fn log_page_size(&self) -> (rows: u16)
        ensures
            rows == page_rows(self.chunks@),
    {
        if self.chunks.len() > 0 && self.chunks[0].height >= LIST_FRAME_HEIGHT {
            self.chunks[0].height - LIST_FRAME_HEIGHT
        } else {
            0
        }
    }
}

impl Default for Ui {
    fn default() -> (ui: Ui)
        ensures
            ui.chunks@.len() == 0,
            ui.message_height == INITIAL_MESSAGE_HEIGHT,
            ui.selected == 0,
    {
        Ui { chunks: Vec::new(), message_height: INITIAL_MESSAGE_HEIGHT, selected: 0 }
    }
}

/// Panels that are laid out in an area lie inside it: none starts above the
/// area or ends below it, none is taller than the area, and their heights
/// add up to the rows the area has.
pub proof fn laid_out_fits(chunks: Seq<Area>, area: Area)
    requires
        laid_out(chunks, area),
    ensures
        forall|i: int|
            0 <= i < 3 ==> area.y <= (#[trigger] chunks[i]).y && chunks[i].y + chunks[i].height
                <= area.bottom() && chunks[i].height <= area.height,
        total_height(chunks) == area.rows(),
        area.rows() <= area.height,
        page_rows(chunks) <= area.height,
{
}

/// Calls `tui::layout::Layout::split` on a vertical layout of three rows in
/// `area`: one of at least `top` rows, one of `middle` rows and one of
/// `bottom` rows.
///
/// The engine returns one rectangle for each row asked for. It hands its
/// solver as constraints that may not be broken: every row has the area's
/// first column and its width, the first row starts at the area's first row,
/// and each next row starts where the one above ends. The last row's height
/// it sets itself, to what is left down to the area's bottom, which it holds
/// at row 65535. That is `laid_out`.
///
/// The heights asked for are constraints that the solver breaks only where
/// it must. In an area with rows for all three none has to be broken, so the
/// two lower rows have their heights: that is `heights_as_asked`. In a
/// smaller area the solver may settle ties differently from run to run, and
/// nothing is claimed of who gives way.
///
/// The constraints that may not be broken cannot all hold for an area that
/// reaches past column 65535, and the engine panics on what it cannot solve:
/// such an area is left out.
#[verifier::external_body]
fn split_rows(area: Area, top: u16, middle: u16, bottom: u16) -> (chunks: Vec<Area>)
    requires
        area.x + area.width <= u16::MAX,
    ensures
        laid_out(chunks@, area),
        heights_as_asked(chunks@, area, top, middle, bottom),
{
    Layout::default()
        .direction(Direction::Vertical)
        .constraints(vec![Constraint::Min(top), Constraint::Length(middle), Constraint::Length(bottom)])
        .split(Rect { x: area.x, y: area.y, width: area.width, height: area.height })
        .iter()
        .map(|r| Area { x: r.x, y: r.y, width: r.width, height: r.height })
        .collect()
}

} // verus!
