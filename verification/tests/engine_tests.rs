use interra_client::engine::{
    is_echo_device_id, probe_read_step, probe_write_step, run_probe_reads, select_reply,
    LineClass, ProbeAction, ECHO_DEVICE_ID, PROBE_ATTEMPT_LIMIT,
};

#[test]
fn echo_device_id_detection() {
    assert_eq!(ECHO_DEVICE_ID, 108);
    assert!(is_echo_device_id(Some(108)));
    assert!(!is_echo_device_id(Some(107)));
    assert!(!is_echo_device_id(Some(0)));
    assert!(!is_echo_device_id(None));
}

#[test]
fn echoes_then_reply_yields_the_reply() {
    let classes = vec![LineClass::Echo, LineClass::Echo, LineClass::Echo, LineClass::Reply];
    assert_eq!(select_reply(&classes), Some(3));
}

#[test]
fn reply_first_is_taken_at_once() {
    let classes = vec![LineClass::Reply, LineClass::Echo];
    assert_eq!(select_reply(&classes), Some(0));
}

#[test]
fn malformed_lines_are_not_skipped() {
    let classes = vec![LineClass::Echo, LineClass::Malformed, LineClass::Reply];
    assert_eq!(select_reply(&classes), Some(1));
}

#[test]
fn only_echoes_select_nothing() {
    let classes = vec![LineClass::Echo; 4];
    assert_eq!(select_reply(&classes), None);
    assert_eq!(select_reply(&vec![]), None);
}

#[test]
fn probe_write_failure_reconnects_immediately() {
    assert_eq!(probe_write_step(false), ProbeAction::Reconnect);
    assert_eq!(probe_write_step(true), ProbeAction::ReadAgain);
}

#[test]
fn probe_read_decisions() {
    assert_eq!(probe_read_step(1, true), ProbeAction::Succeed);
    assert_eq!(probe_read_step(5, true), ProbeAction::Succeed);
    assert_eq!(probe_read_step(1, false), ProbeAction::ReadAgain);
    assert_eq!(probe_read_step(4, false), ProbeAction::ReadAgain);
    assert_eq!(probe_read_step(5, false), ProbeAction::Reconnect);
}

#[test]
fn five_failed_reads_reconnect_once() {
    assert_eq!(PROBE_ATTEMPT_LIMIT, 5);
    let events = vec![false; 5];
    assert_eq!(run_probe_reads(&events), Some((5, true)));
    // Extra lines beyond the budget are never consumed.
    let events = vec![false, false, false, false, false, true];
    assert_eq!(run_probe_reads(&events), Some((5, true)));
}

#[test]
fn success_within_budget_stops_without_reconnect() {
    let events = vec![true];
    assert_eq!(run_probe_reads(&events), Some((1, false)));
    let events = vec![false, false, true];
    assert_eq!(run_probe_reads(&events), Some((3, false)));
    let events = vec![false, false, false, false, true];
    assert_eq!(run_probe_reads(&events), Some((5, false)));
}

#[test]
fn undecided_probe_consumes_all_lines() {
    assert_eq!(run_probe_reads(&vec![]), None);
    assert_eq!(run_probe_reads(&vec![false; 4]), None);
}
