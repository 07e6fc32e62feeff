use kern::application_event::ApplicationEvent;

#[test]
fn new_keeps_its_parts() {
    let e = ApplicationEvent::new("cmd-1", "OpenAccount".to_string(), "client-7", "production", 42u32);
    let (command_id, command, party, environment, _issued_at, event) = e.into_parts();
    assert_eq!(command_id, "cmd-1");
    assert_eq!(command, "OpenAccount");
    assert_eq!(party, "client-7");
    assert_eq!(environment, "production");
    assert_eq!(event, 42);
}

#[test]
fn parts_round_trip() {
    let at = time::OffsetDateTime::UNIX_EPOCH;
    let e = ApplicationEvent::from_parts("a".to_string(), "b".to_string(), "c".to_string(), "d".to_string(), at, 'x');
    let parts = e.into_parts();
    assert_eq!(parts, ("a".to_string(), "b".to_string(), "c".to_string(), "d".to_string(), at, 'x'));
}

#[test]
fn new_is_issued_in_utc() {
    let e = ApplicationEvent::new("cmd-2", "CloseAccount".to_string(), "client-8", "staging", ());
    let (_, _, _, _, issued_at, _) = e.into_parts();
    assert!(issued_at.offset().is_utc());
}
