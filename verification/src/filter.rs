//! The severity filter: which of the four levels are shown, and the list of
//! level numbers that stands for that choice in a query.

use crate::text::digit_char;
use vstd::prelude::*;
use vstd::string::*;

verus! {

/// One of the four severities a log line can carry.
#[derive(Debug, Clone, Copy, PartialEq, Eq, Structural)]
pub enum Level {
    Info,
    Notice,
    Warning,
    Error,
}

impl Level {
    /// The number under which the archive stores this severity.
    pub open spec fn number(self) -> int {
        match self {
            Level::Info => 0,
            Level::Notice => 1,
            Level::Warning => 2,
            Level::Error => 3,
        }
    }

    /// The number under which the archive stores this severity.
    pub fn code(self) -> (c: u8)
        ensures
            c == self.number(),
    {
        match self {
            Level::Info => 0,
            Level::Notice => 1,
            Level::Warning => 2,
            Level::Error => 3,
        }
    }
}

/// Which severities are shown. Any combination is allowed, the empty one
/// included: it shows nothing.
#[derive(Debug, Clone, Copy, PartialEq, Eq, Structural)]
pub struct LevelFilter {
    pub info: bool,
    pub notice: bool,
    pub warning: bool,
    pub error: bool,
}

/// `list` with one more entry `digit` when `on` holds: entries are separated
/// by a comma, and a list left out stays as it is.
pub open spec fn listed(list: Seq<char>, on: bool, digit: char) -> Seq<char> {
    if !on {
        list
    } else if list.len() == 0 {
        seq![digit]
    } else {
        list.push(',').push(digit)
    }
}

impl LevelFilter {
    /// The filter a viewer starts with: warnings and errors.
    pub open spec fn initial() -> LevelFilter {
        LevelFilter { info: false, notice: false, warning: true, error: true }
    }

    /// The filter that shows nothing.
    pub open spec fn nothing() -> LevelFilter {
        LevelFilter { info: false, notice: false, warning: false, error: false }
    }

    /// Whether `level` is shown.
    pub open spec fn shows(self, level: Level) -> bool {
        match level {
            Level::Info => self.info,
            Level::Notice => self.notice,
            Level::Warning => self.warning,
            Level::Error => self.error,
        }
    }

    /// Whether a line stored with level number `code` passes the filter. No
    /// number but those of the four severities ever passes.
    pub open spec fn admits(self, code: int) -> bool {
        ||| code == 0 && self.info
        ||| code == 1 && self.notice
        ||| code == 2 && self.warning
        ||| code == 3 && self.error
    }

    /// The filter with `level` flipped and the other three as they were.
    pub open spec fn toggled(self, level: Level) -> LevelFilter {
        match level {
            Level::Info => LevelFilter { info: !self.info, ..self },
            Level::Notice => LevelFilter { notice: !self.notice, ..self },
            Level::Warning => LevelFilter { warning: !self.warning, ..self },
            Level::Error => LevelFilter { error: !self.error, ..self },
        }
    }

    /// The predicate as text: the numbers of the shown levels in rising
    /// order, separated by commas; empty when nothing is shown.
    pub open spec fn predicate(self) -> Seq<char> {
        listed(
            listed(listed(listed(Seq::empty(), self.info, '0'), self.notice, '1'), self.warning, '2'),
            self.error,
            '3',
        )
    }

    /// Whether `level` is shown.
    pub fn is_active(&self, level: Level) -> (on: bool)
        ensures
            on == self.shows(level),
    {
        match level {
            Level::Info => self.info,
            Level::Notice => self.notice,
            Level::Warning => self.warning,
            Level::Error => self.error,
        }
    }

    /// Flips `level` and leaves the other three alone.
    pub fn toggle(&mut self, level: Level)
        ensures
            *final(self) == old(self).toggled(level),
    {
        match level {
            Level::Info => {
                self.info = !self.info;
            },
            Level::Notice => {
                self.notice = !self.notice;
            },
            Level::Warning => {
                self.warning = !self.warning;
            },
            Level::Error => {
                self.error = !self.error;
            },
        }
    }

    /// The list of level numbers that a query is restricted to. For the
    /// filter that shows nothing the list is empty, and a query has to treat
    /// the empty list as "no line", never as "no restriction".
    pub fn as_predicate(&self) -> (text: String)
        ensures
            text@ == self.predicate(),
    {
        let mut text = String::new();
        list_entry(&mut text, self.info, 0);
        list_entry(&mut text, self.notice, 1);
        list_entry(&mut text, self.warning, 2);
        list_entry(&mut text, self.error, 3);
        text
    }
}

impl Default for LevelFilter {
    fn default() -> (filter: LevelFilter)
        ensures
            filter == LevelFilter::initial(),
    {
        LevelFilter { info: false, notice: false, warning: true, error: true }
    }
}

/// Adds the entry for level number `code` to `list` when `on` holds.
fn list_entry(list: &mut String, on: bool, code: u8)
    requires
        code <= 3,
    ensures
        final(list)@ == listed(old(list)@, on, digit_char(code as int)),
{
    if on {
        if !list.as_str().is_empty() {
            proof {
                reveal_strlit(",");
            }
            list.append(",");
            assert(list@ =~= old(list)@.push(','));
        }
        let ghost before = list@;
        proof {
            reveal_strlit("0");
            reveal_strlit("1");
            reveal_strlit("2");
            reveal_strlit("3");
        }
        let digit = if code == 0 {
            "0"
        } else if code == 1 {
            "1"
        } else if code == 2 {
            "2"
        } else {
            "3"
        };
        list.append(digit);
        assert(list@ =~= before.push(digit_char(code as int)));
    }
}

/// Flipping a level twice gives back the filter, and with it the predicate,
/// that one started from.
pub proof fn toggle_twice_restores(filter: LevelFilter, level: Level)
    ensures
        filter.toggled(level).toggled(level) == filter,
        filter.toggled(level).toggled(level).predicate() == filter.predicate(),
{
}

/// A flip changes the level it names and no other.
pub proof fn toggle_flips_one(filter: LevelFilter, level: Level, other: Level)
    ensures
        filter.toggled(level).shows(other) == (filter.shows(other) != (other == level)),
{
}

/// The predicate lists a level number exactly when the filter admits it: a
/// digit occurs in the text if and only if lines of that level pass.
pub proof fn predicate_lists_admitted(filter: LevelFilter, code: int)
    requires
        0 <= code <= 9,
    ensures
        filter.predicate().contains(digit_char(code)) <==> filter.admits(code),
{
    let a = listed(Seq::empty(), filter.info, '0');
    let b = listed(a, filter.notice, '1');
    let c = listed(b, filter.warning, '2');
    let d = listed(c, filter.error, '3');
    entry_occurrences(Seq::empty(), filter.info, '0', digit_char(code));
    entry_occurrences(a, filter.notice, '1', digit_char(code));
    entry_occurrences(b, filter.warning, '2', digit_char(code));
    entry_occurrences(c, filter.error, '3', digit_char(code));
}

/// What an added entry does to the digits that occur in a list.
proof fn entry_occurrences(list: Seq<char>, on: bool, digit: char, sought: char)
    requires
        sought != ',',
    ensures
        listed(list, on, digit).contains(sought) <==> (list.contains(sought) || (on && digit
            == sought)),
{
    let out = listed(list, on, digit);
    if on {
        if list.len() == 0 {
            assert(out[0] == digit);
        } else {
            assert(out[out.len() - 1] == digit);
            assert(forall|i: int| 0 <= i < list.len() ==> out[i] == list[i]);
            if list.contains(sought) {
                let i = choose|i: int| 0 <= i < list.len() && list[i] == sought;
                assert(out[i] == sought);
            }
        }
    }
}

/// The filter that shows nothing admits no level number, and its predicate
/// is the empty list.
pub proof fn nothing_admits_nothing(code: int)
    ensures
        !LevelFilter::nothing().admits(code),
        LevelFilter::nothing().predicate() =~= Seq::<char>::empty(),
{
}

} // verus!
