use s4killer::cli::{failure_message, missing_argument_message, not_found_message, start, success_message, usage_message};
use s4killer::lookup::ProcessEntry;
use s4killer::session::{Action, Failure};

#[test]
fn absent_target_starts_nothing() {
    let table = vec![ProcessEntry { pid: 4200, name: "notepad.exe".to_string() }];
    assert!(start(&table, "999999", 1).is_none());
    assert_eq!(
        not_found_message("999999"),
        "[!] Unable to find the specified <PID> or <Program>: 999999"
    );
    assert_eq!(usage_message("s4killer"), "Usage: s4killer <PID | PROGRAM NAME>");
}

#[test]
fn present_target_starts_a_session() {
    let table = vec![ProcessEntry { pid: 4200, name: "notepad.exe".to_string() }];
    let s = start(&table, "4200", 9).unwrap();
    assert_eq!(s.action(), Action::OpenToken);
    assert!(s.held().is_empty());
}

#[test]
fn report_lines() {
    assert_eq!(success_message("notepad.exe"), "[+] Process 'notepad.exe' will be killed");
    assert_eq!(missing_argument_message(), "Missing <PID> or <Program> input parameter");
    assert_eq!(failure_message(Failure::Activation), "Unable to start the minifilter driver");
    assert_eq!(failure_message(Failure::Provisioning), "Unable to write the driver to disk");
}
