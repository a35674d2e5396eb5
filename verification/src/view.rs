//! Navigation: what each action does to the offset, the selection, the
//! message panel's height, the focus and the severity filter.

use crate::app::{App, Focus};
use crate::filter::{Level, LevelFilter};
use crate::input::Action;
use crate::logs::Storage;
use crate::ui::Ui;
use vstd::prelude::*;
use vstd::string::*;

verus! {

/// Rows by which the message panel grows or shrinks at a time.
pub const MESSAGE_HEIGHT_STEP: u16 = 3;

/// The fewest rows the message panel is shrunk to.
pub const MIN_MESSAGE_HEIGHT: u16 = 3;

/// What the caller does once an action has been applied.
#[derive(Debug, Clone, Copy, PartialEq, Eq, Structural)]
pub enum Flow {
    /// Draw again and wait for the next action.
    Continue,
    /// The terminal changed its size: lay the panels out anew, then go on.
    Relayout,
    /// Leave the loop.
    Quit,
}

/// Everything an action can change.
pub struct ViewState {
    /// Index, among the lines that pass the filter, of the first line shown.
    pub offset: u64,
    /// Index of the selected line on the page.
    pub selected: usize,
    /// Rows asked for the message panel.
    pub message_height: u16,
    pub focus: Focus,
    pub levels: LevelFilter,
}

/// The navigation state that `app` and `ui` hold between them.
pub open spec fn view_state(app: App, ui: Ui) -> ViewState {
    ViewState {
        offset: app.offset,
        selected: ui.selected,
        message_height: ui.message_height,
        focus: app.focus,
        levels: app.log_levels,
    }
}

/// Whether `selected` names a line of a page of `page_len` lines. On an empty
/// page only 0 does.
pub open spec fn on_page(selected: usize, page_len: usize) -> bool {
    if page_len == 0 {
        selected == 0
    } else {
        selected < page_len
    }
}

/// The selection one line further down: it stops at the page's last line, and
/// is 0 on an empty page.
pub open spec fn selected_below(selected: usize, page_len: usize) -> usize {
    if page_len == 0 {
        0
    } else if selected + 1 >= page_len {
        (page_len - 1) as usize
    } else {
        (selected + 1) as usize
    }
}

/// The selection one line further up: it stops at 0.
pub open spec fn selected_above(selected: usize) -> usize {
    if selected == 0 {
        0
    } else {
        (selected - 1) as usize
    }
}

/// The selection that the jump to the bottom makes: the smaller of the number
/// of lines that pass the filter and the page size.
pub open spec fn selected_at_bottom(matched_count: u32, page_size: u64) -> usize {
    if matched_count <= page_size {
        matched_count as usize
    } else {
        page_size as usize
    }
}

/// The offset one page further down. It is not held back at the end of the
/// archive, only at the largest offset there is.
pub open spec fn offset_below(offset: u64, page_size: u64) -> u64 {
    if offset + page_size <= u64::MAX {
        (offset + page_size) as u64
    } else {
        u64::MAX
    }
}

/// The message panel's height one step up, held at the largest height there
/// is.
pub open spec fn height_grown(height: u16) -> u16 {
    if height + MESSAGE_HEIGHT_STEP <= u16::MAX {
        (height + MESSAGE_HEIGHT_STEP) as u16
    } else {
        u16::MAX
    }
}

/// The message panel's height one step down, held at the minimum.
pub open spec fn height_shrunk(height: u16) -> u16 {
    if height >= MIN_MESSAGE_HEIGHT + MESSAGE_HEIGHT_STEP {
        (height - MESSAGE_HEIGHT_STEP) as u16
    } else {
        MIN_MESSAGE_HEIGHT
    }
}

/// The state after `action`, for a page of `page_len` lines drawn at a page
/// size of `page_size`, with `matched_count` lines passing the filter.
///
/// Paging back by more than the offset lands on the first line of the first
/// page: the offset stops at 0 and the selection goes to 0 with it. The jump
/// to the top sets the offset to 0 and leaves the selection.
pub open spec fn step(
    state: ViewState,
    action: Action,
    page_len: usize,
    matched_count: u32,
    page_size: u64,
) -> ViewState {
    match action {
        Action::NextLog => ViewState {
            selected: selected_below(state.selected, page_len),
            ..state
        },
        Action::PrevLog => ViewState { selected: selected_above(state.selected), ..state },
        Action::NextPageLogs => ViewState {
            offset: offset_below(state.offset, page_size),
            ..state
        },
        Action::PrevPageLogs => if state.offset >= page_size {
            ViewState { offset: (state.offset - page_size) as u64, ..state }
        } else {
            ViewState { offset: 0, selected: 0, ..state }
        },
        Action::TopLog => ViewState { offset: 0, ..state },
        Action::BottomLog => ViewState {
            selected: selected_at_bottom(matched_count, page_size),
            ..state
        },
        Action::ToggleInfo => ViewState { levels: state.levels.toggled(Level::Info), ..state },
        Action::ToggleNotice => ViewState { levels: state.levels.toggled(Level::Notice), ..state },
        Action::ToggleWarning => ViewState {
            levels: state.levels.toggled(Level::Warning),
            ..state
        },
        Action::ToggleError => ViewState { levels: state.levels.toggled(Level::Error), ..state },
        Action::IncMessageHeight => ViewState {
            message_height: height_grown(state.message_height),
            ..state
        },
        Action::DecMessageHeight => ViewState {
            message_height: height_shrunk(state.message_height),
            ..state
        },
        Action::ToggleFocus => ViewState { focus: state.focus.toggled(), ..state },
        Action::Resize => state,
        Action::Quit => state,
    }
}

/// What the caller does after `action`: a resize asks for a new layout, a
/// quit ends the loop, everything else goes on.
pub open spec fn flow_after(action: Action) -> Flow {
    match action {
        Action::Resize => Flow::Relayout,
        Action::Quit => Flow::Quit,
        _ => Flow::Continue,
    }
}

/// Applies `action` to the view. The page that was drawn last has `app.count`
/// lines; it was drawn at a page size of `page_size`, and `matched_count`
/// lines pass the filter.
pub fn apply(app: &mut App, ui: &mut Ui, action: Action, matched_count: u32, page_size: u64) -> (flow:
    Flow)
    ensures
        view_state(*final(app), *final(ui)) == step(
            view_state(*old(app), *old(ui)),
            action,
            old(app).count,
            matched_count,
            page_size,
        ),
        final(app).count == old(app).count,
        final(ui).chunks == old(ui).chunks,
        flow == flow_after(action),
{
    match action {
        Action::NextLog => {
            if app.count == 0 {
                ui.selected = 0;
            } else if ui.selected >= app.count - 1 {
                ui.selected = app.count - 1;
            } else {
                ui.selected = ui.selected + 1;
            }
        },
        Action::PrevLog => {
            if ui.selected > 0 {
                ui.selected = ui.selected - 1;
            }
        },
        Action::NextPageLogs => {
            app.offset = if app.offset <= u64::MAX - page_size {
                app.offset + page_size
            } else {
                u64::MAX
            };
        },
        Action::PrevPageLogs => {
            if app.offset >= page_size {
                app.offset = app.offset - page_size;
            } else {
                app.offset = 0;
                ui.selected = 0;
            }
        },
        Action::TopLog => {
            app.offset = 0;
        },
        Action::BottomLog => {
            ui.selected = if matched_count as u64 <= page_size {
                matched_count as usize
            } else {
                page_size as usize
            };
        },
        Action::ToggleInfo => {
            app.log_levels.toggle(Level::Info);
        },
        Action::ToggleNotice => {
            app.log_levels.toggle(Level::Notice);
        },
        Action::ToggleWarning => {
            app.log_levels.toggle(Level::Warning);
        },
        Action::ToggleError => {
            app.log_levels.toggle(Level::Error);
        },
        Action::IncMessageHeight => {
            ui.message_height = if ui.message_height <= u16::MAX - MESSAGE_HEIGHT_STEP {
                ui.message_height + MESSAGE_HEIGHT_STEP
            } else {
                u16::MAX
            };
        },
        Action::DecMessageHeight => {
            ui.message_height = if ui.message_height >= MIN_MESSAGE_HEIGHT + MESSAGE_HEIGHT_STEP {
                ui.message_height - MESSAGE_HEIGHT_STEP
            } else {
                MIN_MESSAGE_HEIGHT
            };
        },
        Action::ToggleFocus => {
            app.focus = app.focus.toggle();
        },
        Action::Resize => {},
        Action::Quit => {},
    }
    match action {
        Action::Resize => Flow::Relayout,
        Action::Quit => Flow::Quit,
        _ => Flow::Continue,
    }
}

/// Tells the archive's cache what the view shows now: pages of `page_size`
/// lines, the view's filter and its offset. The cache goes stale if any of
/// the three is new to it.
pub fn request_page(store: &mut Storage, app: &App, page_size: u64)
    ensures
        final(store)@ == old(store)@.with_page_size(page_size).with_levels(
            app.log_levels.predicate(),
        ).with_offset(app.offset),
{
    store.set_page_size(page_size);
    store.set_levels_filter(app.levels_sql());
    store.set_offset(app.offset);
}

/// The message of the selected line of `table`, and the empty text where the
/// selection names no line.
pub fn selected_message(table: &Vec<[String; 3]>, selected: usize) -> (message: &str)
    ensures
        selected < table@.len() ==> message@ == table@[selected as int]@[2]@,
        selected >= table@.len() ==> message@.len() == 0,
{
    if selected < table.len() {
        table[selected][2].as_str()
    } else {
        proof {
            reveal_strlit("");
        }
        ""
    }
}

/// Moving the selection down or up keeps it on the page: a selection that
/// names a line of the page still does afterwards, and on an empty page it
/// stays 0.
pub proof fn selection_stays_on_page(
    state: ViewState,
    page_len: usize,
    matched_count: u32,
    page_size: u64,
)
    requires
        on_page(state.selected, page_len),
    ensures
        on_page(step(state, Action::NextLog, page_len, matched_count, page_size).selected, page_len),
        on_page(step(state, Action::PrevLog, page_len, matched_count, page_size).selected, page_len),
{
}

/// Moving the selection down brings it onto the page wherever it was.
pub proof fn next_lands_on_page(
    state: ViewState,
    page_len: usize,
    matched_count: u32,
    page_size: u64,
)
    ensures
        on_page(step(state, Action::NextLog, page_len, matched_count, page_size).selected, page_len),
{
}

/// The jump to the bottom selects the smaller of the number of lines that
/// pass the filter and the page size, whatever the offset and the rest of the
/// state were, and changes nothing else.
pub proof fn bottom_ignores_state(
    state: ViewState,
    page_len: usize,
    matched_count: u32,
    page_size: u64,
)
    ensures
        step(state, Action::BottomLog, page_len, matched_count, page_size).selected as int == if matched_count
            <= page_size {
            matched_count as int
        } else {
            page_size as int
        },
        step(state, Action::BottomLog, page_len, matched_count, page_size).offset == state.offset,
{
}

/// Whether `action` flips one severity of the filter.
pub open spec fn toggles_level(action: Action) -> bool {
    action == Action::ToggleInfo || action == Action::ToggleNotice || action
        == Action::ToggleWarning || action == Action::ToggleError
}

/// Flipping the same severity twice gives back the state one started from.
pub proof fn toggle_action_twice_restores(
    state: ViewState,
    action: Action,
    page_len: usize,
    matched_count: u32,
    page_size: u64,
)
    requires
        toggles_level(action),
    ensures
        step(
            step(state, action, page_len, matched_count, page_size),
            action,
            page_len,
            matched_count,
            page_size,
        ) == state,
{
}

} // verus!
