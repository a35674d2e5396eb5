use ellit::logs::{Log, Query, Storage, StoreError};
use ellit::text::decimal_string;

fn line(time: i64, pid: u32, level: u8, message: &str) -> Log {
    Log { time, pid, level, channel: "app".to_string(), message: message.to_string() }
}

fn lines(n: usize) -> Vec<Log> {
    (0..n).map(|i| line(i as i64, i as u32, 3, "m")).collect()
}

#[test]
fn decimal_of_small_and_large_numbers() {
    assert_eq!(decimal_string(0), "0");
    assert_eq!(decimal_string(7), "7");
    assert_eq!(decimal_string(10), "10");
    assert_eq!(decimal_string(4096), "4096");
    assert_eq!(decimal_string(1_000_000_007), "1000000007");
    assert_eq!(decimal_string(u64::MAX), "18446744073709551615");
    for n in [0u64, 9, 99, 100, 12345, u32::MAX as u64] {
        assert_eq!(decimal_string(n), n.to_string());
    }
}

#[test]
fn new_store_is_stale_and_empty() {
    let store = Storage::new();
    assert!(store.is_outdated());
    assert_eq!(store.page_size(), 10);
    assert_eq!(store.offset(), 0);
    assert_eq!(store.levels(), "");
    assert_eq!(store.page(), None);
    assert_eq!(store.logs_table(), None);
    assert_eq!(store.logs_count(), None);
    assert_eq!(
        store.pending_query(),
        Some(Query { levels: String::new(), limit: 10, offset: 0 })
    );
}

#[test]
fn pending_query_carries_filter_size_and_offset() {
    let mut store = Storage::new();
    store.set_page_size(25);
    store.set_levels_filter("2,3".to_string());
    store.set_offset(50);
    assert_eq!(
        store.pending_query(),
        Some(Query { levels: "2,3".to_string(), limit: 25, offset: 50 })
    );
}

#[test]
fn fill_makes_the_cache_fresh() {
    let mut store = Storage::new();
    assert_eq!(store.fill(lines(4), 40), Ok(()));
    assert!(!store.is_outdated());
    assert_eq!(store.pending_query(), None);
    assert_eq!(store.page(), Some(&lines(4)));
    assert_eq!(store.logs_count(), Some(40));
    assert_eq!(store.page_size(), 10);
    assert_eq!(store.offset(), 0);
    assert_eq!(store.levels(), "");
}

#[test]
fn setting_a_new_value_outdates_the_cache() {
    let mut store = Storage::new();
    store.fill(lines(2), 2).unwrap();
    store.set_page_size(11);
    assert!(store.is_outdated());
    assert_eq!(store.page_size(), 11);
    assert_eq!(store.page(), None);
    assert_eq!(store.logs_table(), None);
    assert_eq!(store.logs_count(), None);

    store.fill(lines(2), 2).unwrap();
    store.set_offset(1);
    assert!(store.is_outdated());
    assert_eq!(store.offset(), 1);

    store.fill(lines(2), 2).unwrap();
    store.set_levels_filter("0".to_string());
    assert!(store.is_outdated());
    assert_eq!(store.levels(), "0");
}

#[test]
fn setting_the_same_value_keeps_the_cache() {
    let mut store = Storage::new();
    let mut queries = 0;
    store.set_page_size(20);
    store.set_levels_filter("2,3".to_string());
    store.set_offset(5);
    if store.pending_query().is_some() {
        queries += 1;
        store.fill(lines(3), 8).unwrap();
    }
    assert_eq!(queries, 1);
    for _ in 0..2 {
        store.set_page_size(20);
        store.set_levels_filter("2,3".to_string());
        store.set_offset(5);
        if store.pending_query().is_some() {
            queries += 1;
            store.fill(lines(3), 8).unwrap();
        }
    }
    assert_eq!(queries, 1);
    assert!(!store.is_outdated());
    assert_eq!(store.page(), Some(&lines(3)));
    assert_eq!(store.logs_count(), Some(8));
}

#[test]
fn setting_the_same_value_on_a_stale_cache_keeps_it_stale() {
    let mut store = Storage::new();
    store.set_page_size(10);
    store.set_offset(0);
    store.set_levels_filter(String::new());
    assert!(store.is_outdated());
}

#[test]
fn changing_back_still_asks_for_a_query() {
    let mut store = Storage::new();
    store.fill(lines(1), 1).unwrap();
    store.set_page_size(11);
    store.set_page_size(10);
    assert!(store.is_outdated());
    assert_eq!(store.pending_query(), Some(Query { levels: String::new(), limit: 10, offset: 0 }));
}

#[test]
fn fill_accepts_a_page_of_exactly_the_page_size() {
    let mut store = Storage::new();
    store.set_page_size(3);
    assert_eq!(store.fill(lines(3), 3), Ok(()));
    assert_eq!(store.page().map(|p| p.len()), Some(3));
    store.set_page_size(0);
    assert_eq!(store.fill(Vec::new(), 3), Ok(()));
    assert_eq!(store.page().map(|p| p.len()), Some(0));
    assert_eq!(store.logs_count(), Some(3));
}

#[test]
fn fill_refuses_a_page_longer_than_the_page_size() {
    let mut store = Storage::new();
    store.set_page_size(3);
    assert_eq!(store.fill(lines(4), 9), Err(StoreError::Oversized { asked: 3, returned: 4 }));
    assert!(store.is_outdated());
    assert_eq!(store.page(), None);
    assert_eq!(store.logs_count(), None);

    store.fill(lines(2), 9).unwrap();
    assert_eq!(store.fill(lines(5), 1), Err(StoreError::Oversized { asked: 3, returned: 5 }));
    assert!(!store.is_outdated());
    assert_eq!(store.page(), Some(&lines(2)));
    assert_eq!(store.logs_count(), Some(9));

    store.set_page_size(0);
    assert_eq!(store.fill(lines(1), 1), Err(StoreError::Oversized { asked: 0, returned: 1 }));
}

#[test]
fn error_messages() {
    assert_eq!(
        StoreError::Open("no such file".to_string()).message(),
        "cannot open the archive: no such file"
    );
    assert_eq!(
        StoreError::Query("disk I/O error".to_string()).message(),
        "cannot query the archive: disk I/O error"
    );
    assert_eq!(
        StoreError::Oversized { asked: 10, returned: 12 }.message(),
        "the archive returned 12 lines for a page of 10"
    );
}

#[test]
fn statements_for_a_list_of_levels() {
    let q = Query { levels: "2,3".to_string(), limit: 10, offset: 20 };
    assert_eq!(q.condition(), "level IN (2,3)");
    assert_eq!(
        q.page_sql(),
        "SELECT time, pid, level, channel, message FROM log WHERE level IN (2,3) LIMIT (?) OFFSET (?)"
    );
    assert_eq!(q.count_sql(), "SELECT COUNT(*) FROM log WHERE level IN (2,3)");
    assert_eq!(q.page_params(), ("10".to_string(), "20".to_string()));
}

#[test]
fn statements_for_the_empty_list_match_nothing() {
    let q = Query { levels: String::new(), limit: 10, offset: 0 };
    assert_eq!(q.condition(), "0");
    assert_eq!(
        q.page_sql(),
        "SELECT time, pid, level, channel, message FROM log WHERE 0 LIMIT (?) OFFSET (?)"
    );
    assert_eq!(q.count_sql(), "SELECT COUNT(*) FROM log WHERE 0");
}

#[test]
fn count_statement_does_not_depend_on_paging() {
    let a = Query { levels: "0,1".to_string(), limit: 10, offset: 0 };
    let b = Query { levels: "0,1".to_string(), limit: 99, offset: 1234 };
    assert_eq!(a.count_sql(), b.count_sql());
    assert_eq!(a.page_sql(), b.page_sql());
    assert_ne!(a.page_params(), b.page_params());
}

#[test]
fn table_shows_time_pid_and_message() {
    let mut store = Storage::new();
    let rows = vec![
        line(1441497364, 4321, 3, "disk full"),
        line(0, 0, 2, ""),
        line(-1, u32::MAX, 0, "two\nlines"),
        line(1_000_000_000, 1, 1, "x"),
    ];
    store.fill(rows, 4).unwrap();
    let table = store.logs_table().unwrap();
    assert_eq!(
        table,
        vec![
            ["2015-09-05 23:56:04".to_string(), "4321".to_string(), "disk full".to_string()],
            ["1970-01-01 00:00:00".to_string(), "0".to_string(), String::new()],
            ["1969-12-31 23:59:59".to_string(), "4294967295".to_string(), "two\nlines".to_string()],
            ["2001-09-09 01:46:40".to_string(), "1".to_string(), "x".to_string()],
        ]
    );
}

#[test]
fn table_leaves_the_time_empty_where_it_cannot_be_written() {
    let mut store = Storage::new();
    store.fill(vec![line(i64::MAX, 1, 3, "late"), line(i64::MIN, 2, 3, "early")], 2).unwrap();
    assert_eq!(
        store.logs_table().unwrap(),
        vec![
            [String::new(), "1".to_string(), "late".to_string()],
            [String::new(), "2".to_string(), "early".to_string()],
        ]
    );
}

#[test]
fn table_row_takes_the_time_as_written() {
    let log = line(5, 77, 1, "hello");
    assert_eq!(
        ellit::logs::table_row(&log, Some("noon".to_string())),
        ["noon".to_string(), "77".to_string(), "hello".to_string()]
    );
    assert_eq!(
        ellit::logs::table_row(&log, None),
        [String::new(), "77".to_string(), "hello".to_string()]
    );
}

#[test]
fn table_of_an_empty_page_is_empty() {
    let mut store = Storage::new();
    store.fill(Vec::new(), 25).unwrap();
    assert_eq!(store.logs_table(), Some(Vec::new()));
    assert_eq!(store.logs_count(), Some(25));
}
