use cdc_bridge::config::{pool_size, table_names, PoolSize};

#[test]
fn one_table() {
    assert_eq!(table_names("orders"), vec!["orders".to_string()]);
}

#[test]
fn several_tables_in_order() {
    assert_eq!(
        table_names("orders,users,items"),
        vec!["orders".to_string(), "users".to_string(), "items".to_string()]
    );
}

#[test]
fn empty_list_is_one_empty_name() {
    assert_eq!(table_names(""), vec!["".to_string()]);
}

#[test]
fn empty_names_stay_in_place() {
    assert_eq!(
        table_names(",a,,b,"),
        vec!["".to_string(), "a".to_string(), "".to_string(), "b".to_string(), "".to_string()]
    );
}

#[test]
fn nothing_is_trimmed() {
    assert_eq!(table_names("a, b"), vec!["a".to_string(), " b".to_string()]);
}

#[test]
fn names_may_hold_any_character() {
    assert_eq!(table_names("bücher,日本"), vec!["bücher".to_string(), "日本".to_string()]);
}

#[test]
fn joining_gives_the_list_back() {
    let text = "a,,b c,d";
    let names = table_names(text);
    assert!(names.iter().all(|n| !n.contains(',')));
    assert_eq!(names.join(","), text);
}

#[test]
fn pool_for_one_table() {
    assert_eq!(pool_size(1), PoolSize { max_connections: 2, min_connections: 1 });
}

#[test]
fn pool_for_no_table() {
    assert_eq!(pool_size(0), PoolSize { max_connections: 0, min_connections: 0 });
}

#[test]
fn pool_for_several_tables() {
    assert_eq!(pool_size(7), PoolSize { max_connections: 14, min_connections: 7 });
}

#[test]
fn pool_stops_at_the_largest_count() {
    let half = (u32::MAX / 2) as usize;
    assert_eq!(pool_size(half), PoolSize { max_connections: u32::MAX - 1, min_connections: u32::MAX / 2 });
    assert_eq!(
        pool_size(half + 1),
        PoolSize { max_connections: u32::MAX, min_connections: u32::MAX / 2 + 1 }
    );
    assert_eq!(
        pool_size(u32::MAX as usize),
        PoolSize { max_connections: u32::MAX, min_connections: u32::MAX }
    );
}
