use duckling::lifecycle::{
    close, connection, finish_open, finish_query, open_target, thread_count, version_string,
    OpenTarget,
};
use duckling::config::{recorded_thread_count, resolve, HostValue, RawSettings};
use duckling::registry::Table;

#[test]
fn open_ids_strictly_increasing_even_after_close() {
    let mut conns: Table<String, u32> = Table::new();
    let a = finish_open(&mut conns, Ok("one".to_string()), 0).unwrap();
    let b = finish_open(&mut conns, Ok("two".to_string()), 0).unwrap();
    assert_eq!(a, 1);
    assert_eq!(b, 2);
    close(&mut conns, a);
    close(&mut conns, b);
    let c = finish_open(&mut conns, Ok("three".to_string()), 0).unwrap();
    assert_eq!(c, 3);
    assert!(a < b && b < c);
}

#[test]
fn close_twice_succeeds() {
    let mut conns: Table<String, u32> = Table::new();
    let id = finish_open(&mut conns, Ok("conn".to_string()), 2).unwrap();
    close(&mut conns, id);
    close(&mut conns, id);
    assert!(connection(&conns, id).is_none());
}

#[test]
fn lookup_failure_for_unknown_or_closed_identifier() {
    let mut conns: Table<String, u32> = Table::new();
    assert!(connection(&conns, 7).is_none());
    let id = finish_open(&mut conns, Ok("conn".to_string()), 0).unwrap();
    assert!(connection(&conns, id).is_some());
    close(&mut conns, id);
    assert!(connection(&conns, id).is_none());
}

#[test]
fn query_cursor_gets_its_own_identifier_space() {
    let mut conns: Table<String, u32> = Table::new();
    let mut queries: Table<String, ()> = Table::new();
    let conn = finish_open(&mut conns, Ok("conn".to_string()), 0).unwrap();
    assert_eq!(conn, 1);
    assert!(connection(&conns, conn).is_some());
    let q = finish_query(&mut queries, Ok("cursor".to_string())).unwrap();
    assert_eq!(q, 1);
    assert!(connection(&conns, conn).is_some());
}

#[test]
fn engine_failure_creates_no_slot() {
    let mut conns: Table<String, u32> = Table::new();
    let mut queries: Table<String, ()> = Table::new();
    let r = finish_open(&mut conns, Err("IO Error: unable to open".to_string()), 0);
    assert_eq!(r, Err("IO Error: unable to open".to_string()));
    assert!(connection(&conns, 1).is_none());
    assert_eq!(conns.len(), 0);
    let rq = finish_query(&mut queries, Err("Parser Error: bad sql".to_string()));
    assert_eq!(rq, Err("Parser Error: bad sql".to_string()));
    assert_eq!(queries.len(), 0);
    let next = finish_open(&mut conns, Ok("conn".to_string()), 0).unwrap();
    assert_eq!(next, 1);
}

#[test]
fn thread_count_recorded_regardless_of_queries() {
    let mut raw = RawSettings::empty();
    raw.maximum_threads = Some(HostValue::Number(4));
    let resolved = resolve(&raw);
    assert_eq!(resolved.threads, Some(4));
    let meta = recorded_thread_count(&resolved);
    let mut conns: Table<String, u32> = Table::new();
    let mut queries: Table<String, ()> = Table::new();
    let id = finish_open(&mut conns, Ok("conn".to_string()), meta).unwrap();
    assert_eq!(thread_count(&conns, id), 4);
    let _ = finish_query(&mut queries, Ok("cursor".to_string()));
    let _ = finish_query(&mut queries, Err("bad sql".to_string()));
    assert_eq!(thread_count(&conns, id), 4);
}

#[test]
fn in_memory_sentinel_gives_two_distinct_connections() {
    assert_eq!(open_target(":memory:"), OpenTarget::InMemory);
    assert_eq!(open_target("data.db"), OpenTarget::FileBacked);
    assert_eq!(open_target(""), OpenTarget::FileBacked);
    let mut conns: Table<String, u32> = Table::new();
    let a = finish_open(&mut conns, Ok("memory instance one".to_string()), 0).unwrap();
    let b = finish_open(&mut conns, Ok("memory instance two".to_string()), 0).unwrap();
    assert_ne!(a, b);
    assert_eq!(connection(&conns, a), Some(&"memory instance one".to_string()));
    assert_eq!(connection(&conns, b), Some(&"memory instance two".to_string()));
}

#[test]
fn closing_one_connection_leaves_others_valid() {
    let mut conns: Table<String, u32> = Table::new();
    let a = finish_open(&mut conns, Ok("first".to_string()), 1).unwrap();
    let b = finish_open(&mut conns, Ok("second".to_string()), 2).unwrap();
    close(&mut conns, a);
    assert!(connection(&conns, a).is_none());
    assert_eq!(connection(&conns, b), Some(&"second".to_string()));
    assert_eq!(thread_count(&conns, b), 2);
}

#[test]
fn issue_counter_survives_removal() {
    let mut conns: Table<String, u32> = Table::new();
    assert_eq!(conns.last_issued(), 0);
    let a = finish_open(&mut conns, Ok("conn".to_string()), 0).unwrap();
    assert_eq!(conns.last_issued(), a);
    close(&mut conns, a);
    assert_eq!(conns.last_issued(), a);
    assert!(!conns.contains(a));
}

#[test]
fn version_string_reports_engine_version_or_empty() {
    assert_eq!(version_string(Ok("v1.2.3".to_string())), "v1.2.3");
    assert_eq!(version_string(Err("no connection".to_string())), "");
}

#[test]
fn add_sums_host_integers() {
    assert_eq!(duckling::add(2, 40), 42);
    assert_eq!(duckling::add(-5, 3), -2);
}
