use s4killer::lookup::{find_pid, matches_query, ProcessEntry};

fn table() -> Vec<ProcessEntry> {
    vec![
        ProcessEntry { pid: 4, name: "System".to_string() },
        ProcessEntry { pid: 4200, name: "notepad.exe".to_string() },
        ProcessEntry { pid: 0, name: "Idle".to_string() },
        ProcessEntry { pid: 5100, name: "notepad.exe".to_string() },
    ]
}

#[test]
fn finds_by_numeric_pid() {
    assert_eq!(find_pid(&table(), "4200"), Some(4200));
    assert_eq!(find_pid(&table(), "0"), Some(0));
    assert_eq!(find_pid(&table(), "5100"), Some(5100));
}

#[test]
fn finds_by_exact_name_first_row_wins() {
    assert_eq!(find_pid(&table(), "notepad.exe"), Some(4200));
    assert_eq!(find_pid(&table(), "System"), Some(4));
}

#[test]
fn absent_target_is_none() {
    assert_eq!(find_pid(&table(), "999999"), None);
    assert_eq!(find_pid(&table(), "notepad"), None);
    assert_eq!(find_pid(&table(), "NOTEPAD.EXE"), None);
    assert_eq!(find_pid(&table(), ""), None);
}

#[test]
fn decimal_must_be_canonical() {
    assert_eq!(find_pid(&table(), "04200"), None);
    assert_eq!(find_pid(&table(), "+4200"), None);
    assert_eq!(find_pid(&table(), "4200 "), None);
}

#[test]
fn empty_table_finds_nothing() {
    assert_eq!(find_pid(&Vec::new(), "4"), None);
}

#[test]
fn row_matches_by_id_or_name() {
    let e = ProcessEntry { pid: 4294967295, name: "x".to_string() };
    assert!(matches_query(&e, "4294967295"));
    assert!(matches_query(&e, "x"));
    assert!(!matches_query(&e, "429496729"));
}
