use kern::timestamp::TimestampExt;
use kern::validation::{Aggregate, DomainError, ErrorDetail, FieldErrors, FieldErrorsKind, ResultValidation, domain_error_from};

fn details(e: &DomainError) -> Vec<(String, String)> {
    let mut v: Vec<(String, String)> = e.details().iter().map(|d: &ErrorDetail| (d.key.clone(), d.message.clone())).collect();
    v.sort();
    v
}

#[test]
fn each_message_becomes_a_detail() {
    let entries = vec![
        FieldErrors {
            key: "first_name".to_string(),
            kind: FieldErrorsKind::Field(vec![Some("is too short".to_string()), None, Some("is required".to_string())]),
        },
        FieldErrors { key: "address".to_string(), kind: FieldErrorsKind::Struct },
        FieldErrors { key: "tags".to_string(), kind: FieldErrorsKind::List },
    ];
    let e = domain_error_from("account", &entries);
    assert_eq!(
        details(&e),
        vec![
            ("error.account.invalid-first-name".to_string(), "'first_name' is required".to_string()),
            ("error.account.invalid-first-name".to_string(), "'first_name' is too short".to_string()),
        ]
    );
}

#[test]
fn repeated_messages_give_one_detail() {
    let entries = vec![FieldErrors {
        key: "email".to_string(),
        kind: FieldErrorsKind::Field(vec![Some("is invalid".to_string()), Some("is invalid".to_string())]),
    }];
    assert_eq!(details(&domain_error_from("user", &entries)).len(), 1);
}

#[test]
fn multiple_drops_duplicates() {
    let d = |k: &str, m: &str| ErrorDetail { key: k.to_string(), message: m.to_string() };
    let e = DomainError::multiple(vec![d("a", "x"), d("a", "x"), d("a", "y")]);
    assert_eq!(details(&e), vec![("a".to_string(), "x".to_string()), ("a".to_string(), "y".to_string())]);
}

struct Account;

impl Aggregate for Account {
    // Only the verifier reads this name; it is never called at run time.
    fn name_spec() -> vstd::seq::Seq<char> {
        unreachable!()
    }

    fn aggregate_name() -> &'static str {
        "account"
    }
}

#[test]
fn failed_validation_becomes_a_domain_error() {
    let mut errors = validator::ValidationErrors::new();
    let mut error = validator::ValidationError::new("length");
    error.message = Some("must be longer".into());
    errors.add("holder_name", error);
    errors.add("nickname", validator::ValidationError::new("length"));
    let result: Result<Account, validator::ValidationErrors> = Err(errors);
    match result.to_domain_error() {
        Err(e) => assert_eq!(
            details(&e),
            vec![("error.account.invalid-holder-name".to_string(), "'holder_name' must be longer".to_string())]
        ),
        Ok(_) => panic!("expected a domain error"),
    }
    let ok: Result<Account, validator::ValidationErrors> = Ok(Account);
    assert!(ok.to_domain_error().is_ok());
}

#[test]
fn timestamps_print_as_rfc3339() {
    assert_eq!(time::OffsetDateTime::UNIX_EPOCH.to_iso8601(), "1970-01-01T00:00:00Z");
    let now = time::OffsetDateTime::now();
    assert!(now.to_iso8601().len() >= 20);
    // Years beyond four digits cannot be written in RFC 3339.
    let far = time::OffsetDateTime::UNIX_EPOCH.replace_year(-5).unwrap();
    assert_eq!(far.to_iso8601(), "");
}

#[test]
fn error_keys_carry_the_aggregate_name() {
    let mut errors = validator::ValidationErrors::new();
    let mut error = validator::ValidationError::new("length");
    error.message = Some("must not be empty".into());
    errors.add("first_name", error);
    let result: Result<Account, validator::ValidationErrors> = Err(errors);
    match result.to_domain_error() {
        Err(e) => assert_eq!(
            details(&e),
            vec![("error.account.invalid-first-name".to_string(), "'first_name' must not be empty".to_string())]
        ),
        Ok(_) => panic!("expected a domain error"),
    }
}

#[test]
fn now_is_in_utc() {
    assert!(time::OffsetDateTime::now().offset().is_utc());
}
