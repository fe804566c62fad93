use iec104_simulator_backend::message_log::{
    get_messages, push_capped, should_bypass_master_message_tracking, MessageDirection, MessageLog,
    MAX_MASTER_MESSAGE_RECORDS,
};

#[test]
fn capped_push_drops_the_oldest() {
    let mut v = vec![1, 2, 3];
    push_capped(&mut v, 4, 3);
    assert_eq!(v, vec![2, 3, 4]);
    push_capped(&mut v, 5, 10);
    assert_eq!(v, vec![2, 3, 4, 5]);
}

#[test]
fn dispatch_states_respect_tracking() {
    assert!(!should_bypass_master_message_tracking(None));
    assert!(!should_bypass_master_message_tracking(Some("dispatch")));
    assert!(should_bypass_master_message_tracking(Some("activation-confirmation")));
}

#[test]
fn log_numbers_messages_from_one() {
    let mut log = MessageLog::new(None);
    assert!(log.append_master_message(MessageDirection::Sent, "conn_a", "first".to_string(), None, None, None, None, 10));
    assert!(log.append_master_message(MessageDirection::Received, "conn_a", "second".to_string(), None, Some(1), Some(3), Some(1), 20));
    assert_eq!(log.records.len(), 2);
    assert_eq!(log.records[0].id, 1);
    assert_eq!(log.records[1].id, 2);
    assert_eq!(log.records[1].content, "second");
    assert_eq!(log.records[1].timestamp_ms, 20);
    assert_eq!(log.next_id, 2);
}

#[test]
fn disabled_tracking_keeps_only_command_changes() {
    let mut log = MessageLog::new(Some(false));
    assert!(!log.append_master_message(MessageDirection::Sent, "c", "x".to_string(), None, None, None, None, 1));
    assert!(!log.append_master_message_meta(MessageDirection::Sent, "c", "d".to_string(), None, None, None, None,
        Some("t".to_string()), Some("dispatch".to_string()), 2));
    assert!(log.append_master_message_meta(MessageDirection::Error, "c", "n".to_string(), None, None, None, None,
        Some("t".to_string()), Some("activation-negative".to_string()), 3));
    assert_eq!(log.records.len(), 1);
    assert_eq!(log.records[0].command_state.as_deref(), Some("activation-negative"));
    log.reset(true);
    assert_eq!(log.records.len(), 0);
    assert_eq!(log.next_id, 0);
    assert_eq!(log.tracking, Some(true));
}

#[test]
fn log_keeps_at_most_its_capacity() {
    let mut log = MessageLog::new(None);
    for i in 0..(MAX_MASTER_MESSAGE_RECORDS + 2) {
        log.append_master_message(MessageDirection::Sent, "c", format!("m{i}"), None, None, None, None, i as i64);
    }
    assert_eq!(log.records.len(), MAX_MASTER_MESSAGE_RECORDS);
    assert_eq!(log.records[0].id, 3);
    assert_eq!(log.records.last().map(|r| r.id), Some(MAX_MASTER_MESSAGE_RECORDS as u64 + 2));
}

#[test]
fn pulls_are_newer_than_the_cursor_and_clamped() {
    let mut log = MessageLog::new(None);
    for i in 0..5 {
        log.append_master_message(MessageDirection::Sent, "c", format!("m{i}"), None, None, None, None, 0);
    }
    let after_two = get_messages(&log.records, Some(2), 100);
    assert_eq!(after_two.iter().map(|r| r.id).collect::<Vec<_>>(), vec![3, 4, 5]);
    let first = get_messages(&log.records, None, 0);
    assert_eq!(first.iter().map(|r| r.id).collect::<Vec<_>>(), vec![1]);
    let two = get_messages(&log.records, Some(1), 2);
    assert_eq!(two.iter().map(|r| r.id).collect::<Vec<_>>(), vec![2, 3]);
}
