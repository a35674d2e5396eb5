//! What the viewer shows of the archive: the window's offset, the severity
//! filter and the panel that has the focus.

use crate::filter::LevelFilter;
use vstd::prelude::*;

verus! {

/// The panel that navigation keys act on.
#[derive(Debug, Clone, Copy, PartialEq, Eq, Structural)]
pub enum Focus {
    /// The list of log lines.
    App,
    /// The panel with the selected line's full message.
    MsgDisplay,
    /// The row of severity tabs. No action moves the focus here.
    MsgFilter,
}

impl Focus {
    /// The focus after a toggle: from the list to the message panel, from
    /// anywhere else back to the list.
    pub open spec fn toggled(self) -> Focus {
        if self == Focus::App {
            Focus::MsgDisplay
        } else {
            Focus::App
        }
    }

    /// Moves the focus from the list to the message panel, and from anywhere
    /// else back to the list.
    pub fn toggle(self) -> (next: Focus)
        ensures
            next == self.toggled(),
    {
        match self {
            Focus::App => Focus::MsgDisplay,
            _ => Focus::App,
        }
    }
}

/// The part of the view that concerns the archive.
#[derive(Debug, Clone, Copy, PartialEq, Eq, Structural)]
pub struct App {
    /// Index, among the lines that pass the filter, of the first line shown.
    pub offset: u64,
    /// Number of lines on the page that was drawn last.
    pub count: usize,
    pub focus: Focus,
    pub log_levels: LevelFilter,
}

impl App {
    /// The state a viewer starts in: at the top, nothing drawn yet, focus on
    /// the list, warnings and errors shown.
    pub open spec fn initial() -> App {
        App { offset: 0, count: 0, focus: Focus::App, log_levels: LevelFilter::initial() }
    }

    /// The list of level numbers to restrict a query to: those of the shown
    /// severities in rising order, separated by commas, and empty when none
    /// is shown.
    pub fn levels_sql(&self) -> (sql: String)
        ensures
            sql@ == self.log_levels.predicate(),
    {
        self.log_levels.as_predicate()
    }
}

impl Default for App {
    fn default() -> (app: App)
        ensures
            app == App::initial(),
    {
        App { offset: 0, count: 0, focus: Focus::App, log_levels: LevelFilter::default() }
    }
}

} // verus!
