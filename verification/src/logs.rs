//! The cache in front of the archive: what is asked of the archive, what it
//! answered last, and when that answer is stale.
//!
//! The archive itself is read by the program around this library. The cache
//! says which query is to be run ([`Storage::pending_query`]), takes the
//! answer ([`Storage::fill`]) and serves it until a setter changes what is
//! asked.

use crate::text::{decimal, decimal_string};
use chrono::NaiveDateTime;
use std::fmt::Write;
use vstd::prelude::*;
use vstd::string::*;

verus! {

/// One archived log line.
#[derive(Debug, Clone, PartialEq, Eq)]
pub struct Log {
    /// Whole seconds since the Unix epoch.
    pub time: i64,
    pub pid: u32,
    /// The severity's number: 0 info, 1 notice, 2 warning, 3 error.
    pub level: u8,
    pub channel: String,
    pub message: String,
}

/// Why the archive could not serve.
#[derive(Debug, Clone, PartialEq, Eq)]
pub enum StoreError {
    /// The archive could not be opened; the reason as text.
    Open(String),
    /// A query failed after the archive was opened; the reason as text.
    Query(String),
    /// The archive answered with more lines than the page it was asked for.
    Oversized { asked: u64, returned: usize },
}

impl StoreError {
    /// The failure in one line.
    pub open spec fn message_text(self) -> Seq<char> {
        match self {
            StoreError::Open(reason) => "cannot open the archive: "@ + reason@,
            StoreError::Query(reason) => "cannot query the archive: "@ + reason@,
            StoreError::Oversized { asked, returned } => "the archive returned "@ + decimal(
                returned as nat,
            ) + " lines for a page of "@ + decimal(asked as nat),
        }
    }

    /// The failure in one line, for the user to read.
    pub fn message(&self) -> (text: String)
        ensures
            text@ == self.message_text(),
    {
        match self {
            StoreError::Open(reason) => {
                let mut text = String::from_str("cannot open the archive: ");
                text.append(reason.as_str());
                text
            },
            StoreError::Query(reason) => {
                let mut text = String::from_str("cannot query the archive: ");
                text.append(reason.as_str());
                text
            },
            StoreError::Oversized { asked, returned } => {
                let mut text = String::from_str("the archive returned ");
                text.append(decimal_string(*returned as u64).as_str());
                text.append(" lines for a page of ");
                text.append(decimal_string(*asked).as_str());
                text
            },
        }
    }
}

/// The question that the archive is asked: the lines whose level is among
/// `levels`, in the archive's own order, `limit` of them after the first
/// `offset`; and how many lines have such a level in all.
#[derive(Debug, Clone, PartialEq, Eq)]
pub struct Query {
    /// Level numbers separated by commas; empty for "no line".
    pub levels: String,
    pub limit: u64,
    pub offset: u64,
}

/// The condition a line has to meet: its level is in the list. The empty
/// list gets a condition of its own that no line meets.
pub open spec fn where_clause(levels: Seq<char>) -> Seq<char> {
    if levels.len() == 0 {
        "0"@
    } else {
        "level IN ("@ + levels + ")"@
    }
}

/// The statement that selects one page. Its two parameters are the page size
/// and the offset, in this order.
pub open spec fn page_statement(levels: Seq<char>) -> Seq<char> {
    "SELECT time, pid, level, channel, message FROM log WHERE "@ + where_clause(levels)
        + " LIMIT (?) OFFSET (?)"@
}

/// The statement that counts the lines which pass the filter.
pub open spec fn count_statement(levels: Seq<char>) -> Seq<char> {
    "SELECT COUNT(*) FROM log WHERE "@ + where_clause(levels)
}

impl Query {
    /// The condition on a line's level, as the text that follows `WHERE`.
    pub fn condition(&self) -> (sql: String)
        ensures
            sql@ == where_clause(self.levels@),
    {
        if self.levels.as_str().is_empty() {
            String::from_str("0")
        } else {
            let mut sql = String::from_str("level IN (");
            sql.append(self.levels.as_str());
            sql.append(")");
            sql
        }
    }

    /// The statement that selects the page.
    pub fn page_sql(&self) -> (sql: String)
        ensures
            sql@ == page_statement(self.levels@),
    {
        let mut sql = String::from_str("SELECT time, pid, level, channel, message FROM log WHERE ");
        let condition = self.condition();
        sql.append(condition.as_str());
        sql.append(" LIMIT (?) OFFSET (?)");
        sql
    }

    /// The statement that counts the lines which pass the filter.
    pub fn count_sql(&self) -> (sql: String)
        ensures
            sql@ == count_statement(self.levels@),
    {
        let mut sql = String::from_str("SELECT COUNT(*) FROM log WHERE ");
        let condition = self.condition();
        sql.append(condition.as_str());
        sql
    }

    /// The values of the page statement's two parameters, in decimal: the
    /// page size, then the offset.
    pub fn page_params(&self) -> (params: (String, String))
        ensures
            params.0@ == decimal(self.limit as nat),
            params.1@ == decimal(self.offset as nat),
    {
        (decimal_string(self.limit), decimal_string(self.offset))
    }
}

/// What a [`Storage`] holds, as plain values.
pub struct StorageView {
    /// Whether what is cached answers an earlier question.
    pub outdated: bool,
    pub page_size: u64,
    pub offset: u64,
    pub levels: Seq<char>,
    /// The page that was fetched last.
    pub logs: Seq<Log>,
    /// The number of lines that passed the filter when that page was fetched.
    pub filtered_count: u32,
}

impl StorageView {
    /// A cache that has fetched nothing yet.
    pub open spec fn initial() -> StorageView {
        StorageView {
            outdated: true,
            page_size: 10,
            offset: 0,
            levels: Seq::empty(),
            logs: Seq::empty(),
            filtered_count: 0,
        }
    }

    /// The cache after the page size was set: stale if the size is new.
    pub open spec fn with_page_size(self, page_size: u64) -> StorageView {
        StorageView { page_size, outdated: self.outdated || self.page_size != page_size, ..self }
    }

    /// The cache after the filter was set: stale if the filter is new.
    pub open spec fn with_levels(self, levels: Seq<char>) -> StorageView {
        StorageView { levels, outdated: self.outdated || self.levels != levels, ..self }
    }

    /// The cache after the offset was set: stale if the offset is new.
    pub open spec fn with_offset(self, offset: u64) -> StorageView {
        StorageView { offset, outdated: self.outdated || self.offset != offset, ..self }
    }

    /// The cache after the archive's answer was taken in.
    pub open spec fn filled(self, logs: Seq<Log>, filtered_count: u32) -> StorageView {
        StorageView { logs, filtered_count, outdated: false, ..self }
    }

    /// A page that is served is no longer than the page size.
    pub open spec fn well_formed(self) -> bool {
        !self.outdated ==> self.logs.len() <= self.page_size
    }
}

/// The last answer of the archive, and the question it answered.
#[derive(Debug)]
pub struct Storage {
    outdated: bool,
    page_size: u64,
    offset: u64,
    levels: String,
    logs: Vec<Log>,
    filtered_count: u32,
}

impl View for Storage {
    type V = StorageView;

    closed spec fn view(&self) -> StorageView {
        StorageView {
            outdated: self.outdated,
            page_size: self.page_size,
            offset: self.offset,
            levels: self.levels@,
            logs: self.logs@,
            filtered_count: self.filtered_count,
        }
    }
}

impl Storage {
    #[verifier::type_invariant]
    spec fn page_fits(self) -> bool {
        self@.well_formed()
    }

    /// A cache that has fetched nothing yet: stale, with a page of ten lines
    /// at offset 0 and an empty filter.
    pub fn new() -> (store: Storage)
        ensures
            store@ == StorageView::initial(),
    {
        Storage {
            outdated: true,
            page_size: 10,
            offset: 0,
            levels: String::new(),
            logs: Vec::new(),
            filtered_count: 0,
        }
    }

    /// Sets the number of lines on a page. The cache goes stale only if the
    /// number is new.
    pub fn set_page_size(&mut self, ps: u64)
        ensures
            final(self)@ == old(self)@.with_page_size(ps),
    {
        if self.page_size != ps {
            self.outdated = true;
            self.page_size = ps;
        }
    }

    /// Sets the list of level numbers to filter by. The cache goes stale only
    /// if the list is new.
    pub fn set_levels_filter(&mut self, lvls: String)
        ensures
            final(self)@ == old(self)@.with_levels(lvls@),
    {
        if self.levels != lvls {
            self.outdated = true;
            self.levels = lvls;
        }
    }

    /// Sets the offset of the page. The cache goes stale only if the offset is
    /// new.
    pub fn set_offset(&mut self, ofst: u64)
        ensures
            final(self)@ == old(self)@.with_offset(ofst),
    {
        if self.offset != ofst {
            self.outdated = true;
            self.offset = ofst;
        }
    }

    /// The query to run before the cache can serve again: none while the
    /// cache is fresh, else the one for the current filter, page size and
    /// offset.
    pub fn pending_query(&self) -> (query: Option<Query>)
        ensures
            query is Some <==> self@.outdated,
            query matches Some(q) ==> q.levels@ == self@.levels && q.limit == self@.page_size
                && q.offset == self@.offset,
    {
        if self.outdated {
            Some(Query { levels: self.levels.clone(), limit: self.page_size, offset: self.offset })
        } else {
            None
        }
    }

    /// Takes in the archive's answer to the pending query: the page and the
    /// number of lines that pass the filter. An answer with more lines than
    /// the page size is refused, and the cache stays as it was.
    pub fn fill(&mut self, rows: Vec<Log>, count: u32) -> (outcome: Result<(), StoreError>)
        ensures
            rows@.len() <= old(self)@.page_size ==> outcome is Ok && final(self)@ == old(
                self,
            )@.filled(rows@, count),
            rows@.len() > old(self)@.page_size ==> final(self)@ == old(self)@ && outcome == Err::<
                (),
                StoreError,
            >(StoreError::Oversized { asked: old(self)@.page_size, returned: rows.len() }),
    {
        if rows.len() as u64 > self.page_size {
            return Err(StoreError::Oversized { asked: self.page_size, returned: rows.len() });
        }
        self.logs = rows;
        self.filtered_count = count;
        self.outdated = false;
        Ok(())
    }
}

/// The pattern a line's time is written in: date and time of day, to the
/// second.
pub const TIME_PATTERN: &'static str = "%Y-%m-%d %H:%M:%S";

/// What `chrono` writes for the moment `secs` seconds after the Unix epoch
/// under `pattern`, or `None` where it writes nothing: for a moment outside
/// the years it can name, or a pattern it cannot follow.
pub uninterp spec fn formatted_time(secs: i64, pattern: Seq<char>) -> Option<Seq<char>>;

/// Calls `chrono::NaiveDateTime::from_timestamp_opt` with `secs` and no
/// nanoseconds, and writes the moment it returns through
/// `chrono::NaiveDateTime::format` with `pattern`. The moment is taken as it
/// is, without a time zone, so the text depends on the two arguments alone;
/// the contract gives that text its name and claims nothing else of it.
#[verifier::external_body]
fn format_time(secs: i64, pattern: &str) -> (text: Option<String>)
    ensures
        text.deep_view() == formatted_time(secs, pattern@),
{
    #[allow(deprecated)]
    let moment = NaiveDateTime::from_timestamp_opt(secs, 0)?;
    let mut text = String::new();
    write!(text, "{}", moment.format(pattern)).ok()?;
    Some(text)
}

/// The text in a line's time column: what was written for its time, and
/// nothing where nothing could be written.
pub open spec fn time_cell(written: Option<Seq<char>>) -> Seq<char> {
    match written {
        Some(text) => text,
        None => Seq::empty(),
    }
}

/// Whether `row` is the table row of `log`, given what was `written` for the
/// line's time: the time, the process id in decimal, the message.
pub open spec fn is_row_of(row: [String; 3], log: Log, written: Option<Seq<char>>) -> bool {
    &&& row@[0]@ == time_cell(written)
    &&& row@[1]@ == decimal(log.pid as nat)
    &&& row@[2]@ == log.message@
}

/// The table row of `log`: its time as `written`, or an empty cell where the
/// time could not be written; its process id; its message.
pub fn table_row(log: &Log, written: Option<String>) -> (row: [String; 3])
    ensures
        is_row_of(row, *log, written.deep_view()),
{
    let time = match written {
        Some(text) => text,
        None => String::new(),
    };
    [time, decimal_string(log.pid as u64), log.message.clone()]
}

impl Storage {
    /// The cached page, or `None` while the cache is stale. A page is never
    /// longer than the page size.
    pub fn page(&self) -> (rows: Option<&Vec<Log>>)
        ensures
            rows is Some <==> !self@.outdated,
            rows matches Some(r) ==> r@ == self@.logs && r@.len() <= self@.page_size,
    {
        proof {
            use_type_invariant(self);
        }
        if self.outdated {
            None
        } else {
            Some(&self.logs)
        }
    }

    /// The cached page as a table of time, process id and message, or `None`
    /// while the cache is stale.
    pub fn logs_table(&self) -> (table: Option<Vec<[String; 3]>>)
        ensures
            table is Some <==> !self@.outdated,
            table matches Some(t) ==> {
                &&& t@.len() == self@.logs.len()
                &&& t@.len() <= self@.page_size
                &&& forall|i: int|
                    0 <= i < t@.len() ==> is_row_of(
                        #[trigger] t@[i],
                        self@.logs[i],
                        formatted_time(self@.logs[i].time, TIME_PATTERN@),
                    )
            },
    {
        proof {
            use_type_invariant(self);
        }
        if self.outdated {
            return None;
        }
        let mut table: Vec<[String; 3]> = Vec::new();
        let mut i: usize = 0;
        while i < self.logs.len()
            invariant
                i <= self.logs@.len(),
                table@.len() == i,
                forall|k: int|
                    0 <= k < i ==> is_row_of(
                        #[trigger] table@[k],
                        self.logs@[k],
                        formatted_time(self.logs@[k].time, TIME_PATTERN@),
                    ),
            decreases self.logs@.len() - i,
        {
            let log = &self.logs[i];
            let written = format_time(log.time, TIME_PATTERN);
            table.push(table_row(log, written));
            i += 1;
        }
        Some(table)
    }

    /// The number of lines that passed the filter when the cached page was
    /// fetched, or `None` while the cache is stale.
    pub fn logs_count(&self) -> (count: Option<u32>)
        ensures
            count is Some <==> !self@.outdated,
            count matches Some(n) ==> n == self@.filtered_count,
    {
        if self.outdated {
            None
        } else {
            Some(self.filtered_count)
        }
    }

    /// Whether a query has to be run before the cache serves again.
    pub fn is_outdated(&self) -> (stale: bool)
        ensures
            stale == self@.outdated,
    {
        self.outdated
    }

    /// The number of lines on a page.
    pub fn page_size(&self) -> (lines: u64)
        ensures
            lines == self@.page_size,
    {
        self.page_size
    }

    /// The offset of the page.
    pub fn offset(&self) -> (lines: u64)
        ensures
            lines == self@.offset,
    {
        self.offset
    }

    /// The list of level numbers that is filtered by.
    pub fn levels(&self) -> (list: &str)
        ensures
            list@ == self@.levels,
    {
        self.levels.as_str()
    }
}

/// Setting the page size, the filter or the offset to the value it has
/// changes nothing, so a value set twice in a row asks for no second query:
/// a cache that was filled after the first setting is still fresh after the
/// second.
pub proof fn same_setting_keeps_cache(
    cache: StorageView,
    page_size: u64,
    levels: Seq<char>,
    offset: u64,
    logs: Seq<Log>,
    count: u32,
)
    ensures
        cache.with_page_size(page_size).with_page_size(page_size) == cache.with_page_size(
            page_size,
        ),
        cache.with_levels(levels).with_levels(levels) == cache.with_levels(levels),
        cache.with_offset(offset).with_offset(offset) == cache.with_offset(offset),
        !cache.with_page_size(page_size).filled(logs, count).with_page_size(page_size).outdated,
        !cache.with_levels(levels).filled(logs, count).with_levels(levels).outdated,
        !cache.with_offset(offset).filled(logs, count).with_offset(offset).outdated,
{
}

/// A setter makes a fresh cache stale exactly when it brings a new value.
pub proof fn new_setting_outdates_cache(
    cache: StorageView,
    page_size: u64,
    levels: Seq<char>,
    offset: u64,
)
    requires
        !cache.outdated,
    ensures
        cache.with_page_size(page_size).outdated <==> cache.page_size != page_size,
        cache.with_levels(levels).outdated <==> cache.levels != levels,
        cache.with_offset(offset).outdated <==> cache.offset != offset,
{
}

/// The count that the archive is asked for depends on the filter alone: a new
/// page size or offset leaves the counting statement as it was.
pub proof fn count_ignores_paging(cache: StorageView, page_size: u64, offset: u64)
    ensures
        count_statement(cache.with_page_size(page_size).with_offset(offset).levels)
            == count_statement(cache.levels),
{
}

} // verus!
