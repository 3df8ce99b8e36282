use s4killer::protocol::{CommandMessage, ENABLE_TERMINATION_TAG, SET_TERMINATION_TARGET_TAG};

#[test]
fn set_target_record_is_eight_bytes() {
    let m = CommandMessage::set_termination_target(4200);
    assert_eq!(m.encode(), vec![3, 0, 0, 0, 0x68, 0x10, 0, 0]);
    assert_eq!(m.size(), 8);
    assert_eq!(m.tag(), SET_TERMINATION_TARGET_TAG);
}

#[test]
fn enable_record_is_twelve_bytes() {
    let m = CommandMessage::enable_termination(0x0102_0304);
    assert_eq!(m.encode(), vec![1, 0, 0, 0, 1, 0, 0, 0, 4, 3, 2, 1]);
    assert_eq!(m.size(), 12);
    assert_eq!(m.tag(), ENABLE_TERMINATION_TAG);
}

#[test]
fn largest_pid_encodes_all_ones() {
    let m = CommandMessage::set_termination_target(u32::MAX);
    assert_eq!(m.encode(), vec![3, 0, 0, 0, 255, 255, 255, 255]);
}

#[test]
fn constructors_build_the_variants() {
    assert_eq!(
        CommandMessage::set_termination_target(9),
        CommandMessage::SetTerminationTarget { target_pid: 9 }
    );
    assert_eq!(
        CommandMessage::enable_termination(5),
        CommandMessage::EnableTermination { requester_pid: 5 }
    );
}
