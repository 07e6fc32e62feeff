use kern::naming::{enum_event_types, prefixed_event_type, strip_event_suffix, struct_event_type_of, to_kebab_case};

#[test]
fn struct_event_type_is_the_kebab_case_name() {
    assert_eq!(struct_event_type_of("CreatedAccount"), "created-account");
}

#[test]
fn trailing_event_is_dropped() {
    assert_eq!(struct_event_type_of("AccountOpenedEvent"), "account-opened");
    assert_eq!(struct_event_type_of("AccountOpenedEvents"), "account-opened");
    assert_eq!(struct_event_type_of("Event"), "");
    assert_eq!(struct_event_type_of("Events"), "");
    // Only a whole trailing word is dropped.
    assert_eq!(struct_event_type_of("Prevent"), "prevent");
    assert_eq!(struct_event_type_of("EventLog"), "event-log");
}

#[test]
fn enum_event_types_join_enum_and_variant() {
    let variants = vec!["Created".to_string(), "Updated".to_string()];
    assert_eq!(enum_event_types("AccountEvent", &variants), vec!["account-created", "account-updated"]);
}

#[test]
fn enum_named_event_uses_variant_names_alone() {
    let variants = vec!["AccountCreated".to_string()];
    assert_eq!(enum_event_types("Event", &variants), vec!["account-created"]);
}

#[test]
fn kebab_case_lowers_and_separates_capitals() {
    assert_eq!(to_kebab_case("CreatedAccount"), "created-account");
    assert_eq!(to_kebab_case("already-kebab"), "already-kebab");
    assert_eq!(to_kebab_case("HTTPCall"), "h-t-t-p-call");
    assert_eq!(to_kebab_case(""), "");
    // Converting twice gives what converting once gives.
    let once = to_kebab_case("OrderShippedEvent");
    assert_eq!(to_kebab_case(&once), once);
}

#[test]
fn strip_event_suffix_cases() {
    assert_eq!(strip_event_suffix("account-event"), "account");
    assert_eq!(strip_event_suffix("account-events"), "account");
    assert_eq!(strip_event_suffix("event"), "");
    assert_eq!(strip_event_suffix("account"), "account");
    assert_eq!(strip_event_suffix("accountevent"), "accountevent");
}

#[test]
fn prefixed_event_type_cases() {
    assert_eq!(prefixed_event_type("account", "Created"), "account-created");
    assert_eq!(prefixed_event_type("", "Created"), "created");
}

#[test]
fn distinct_variants_get_distinct_event_types() {
    let variants = vec!["Opened".to_string(), "Closed".to_string(), "OpenedAgain".to_string()];
    let types = enum_event_types("AccountEvents", &variants);
    assert_eq!(types, vec!["account-opened", "account-closed", "account-opened-again"]);
    for i in 0..types.len() {
        for j in 0..types.len() {
            if i != j {
                assert_ne!(types[i], types[j]);
            }
        }
    }
}
