use kern::domain_event::{
    DataModel, DeriveError, DeriveInputModel, EventTypes, GenericParamKind, SerializeBody, VariantModel,
    check_domain_event, derive_error_message, generate_domain_event,
};
use kern::fields::{
    AttributeModel, AttributeTokens, FieldModel, FieldOptionError, FieldsError, check_fields,
    field_options, generate_fields, wants_copy,
};
use kern::types::{PathArguments, PathSegment, TypeModel, TypePath};

fn ident_path(name: &str) -> TypePath {
    TypePath {
        leading_colon: false,
        segments: vec![PathSegment { ident: name.to_string(), arguments: PathArguments::Plain }],
    }
}

fn plain(name: &str) -> TypeModel {
    TypeModel::Path(ident_path(name))
}

fn field_attr() -> AttributeModel {
    AttributeModel { path: ident_path("field"), meta: AttributeTokens::Path }
}

fn field_attr_with(tokens: &str) -> AttributeModel {
    AttributeModel { path: ident_path("field"), meta: AttributeTokens::List(tokens.to_string()) }
}

fn other_attr() -> AttributeModel {
    AttributeModel { path: ident_path("serde"), meta: AttributeTokens::List("skip".to_string()) }
}

fn field(name: &str, ty: TypeModel, attrs: Vec<AttributeModel>) -> FieldModel {
    FieldModel { ident: Some(name.to_string()), ty, attrs }
}

fn event_fields() -> Vec<FieldModel> {
    vec![
        field("id", plain("EventId"), vec![]),
        field("aggregate_id", plain("AccountId"), vec![]),
        field("aggregate_version", plain("u32"), vec![]),
        field("holder", plain("String"), vec![field_attr()]),
        field("active", plain("bool"), vec![field_attr_with("copy")]),
        field("occurred_on", plain("Timestamp"), vec![]),
    ]
}

fn struct_input(fields: Vec<FieldModel>) -> DeriveInputModel {
    DeriveInputModel { ident: "CreatedAccount".to_string(), generic_params: vec![], data: DataModel::Struct(fields) }
}

fn variant(name: &str, fields: Vec<FieldModel>) -> VariantModel {
    VariantModel { ident: name.to_string(), fields }
}

fn enum_fields() -> Vec<FieldModel> {
    vec![
        field("id", plain("EventId"), vec![]),
        field("aggregate_id", plain("AccountId"), vec![]),
        field("aggregate_version", plain("u32"), vec![]),
        field("occurred_on", plain("Timestamp"), vec![]),
    ]
}

#[test]
fn wants_copy_reads_the_options() {
    assert!(!wants_copy(&field_attr()));
    assert!(wants_copy(&field_attr_with("copy")));
    assert!(wants_copy(&field_attr_with("copy,")));
    assert!(wants_copy(&field_attr_with("copy, copy")));
    assert!(!wants_copy(&field_attr_with("")));
    assert!(matches!(field_options(&field_attr_with("copy, deep")), Err(FieldOptionError::Unrecognised)));
    assert!(matches!(field_options(&field_attr_with("copy = 1")), Err(FieldOptionError::Syntax(m)) if m == "expected `,`"));
    // The first option other than `copy` decides before a later parse error.
    assert!(matches!(field_options(&field_attr_with("deep = 1")), Err(FieldOptionError::Unrecognised)));
    // `copy` as a path with a leading `::` is another option.
    assert!(matches!(field_options(&field_attr_with(":: copy")), Err(FieldOptionError::Unrecognised)));
    assert!(matches!(field_options(&field_attr_with("1")), Err(FieldOptionError::Syntax(_))));
    let name_value = AttributeModel { path: ident_path("field"), meta: AttributeTokens::NameValue };
    assert!(matches!(field_options(&name_value), Err(FieldOptionError::Syntax(m)) if m == "expected parentheses: #[field(...)]"));
}

#[test]
fn only_marked_fields_get_accessors() {
    let getters = generate_fields(&event_fields());
    assert_eq!(getters.len(), 2);
    assert_eq!(getters[0].name, "holder");
    assert_eq!(getters[0].return_type, "&str");
    assert_eq!(getters[0].body, "&self.holder");
    assert_eq!(getters[1].name, "active");
    assert_eq!(getters[1].return_type, "bool");
    assert_eq!(getters[1].body, "self.active");
}

#[test]
fn copy_is_read_until_an_attribute_says_copy() {
    // A later refused attribute is not read once `copy` was seen.
    let f = vec![field("active", plain("bool"), vec![field_attr_with("copy"), field_attr_with("deep")])];
    assert!(check_fields(&f).is_ok());
    let g = generate_fields(&f);
    assert_eq!(g[0].return_type, "bool");
    // A refused attribute read before `copy` refuses the field.
    let f = vec![field("active", plain("bool"), vec![field_attr_with("deep"), field_attr_with("copy")])];
    assert!(matches!(check_fields(&f), Err(FieldsError::Options(FieldOptionError::Unrecognised))));
    // Other attributes are ignored.
    let f = vec![field("active", plain("bool"), vec![other_attr(), field_attr()])];
    assert_eq!(generate_fields(&f)[0].return_type, "&bool");
}

#[test]
fn unnamed_marked_field_is_refused() {
    let f = vec![FieldModel { ident: None, ty: plain("u8"), attrs: vec![field_attr()] }];
    assert!(matches!(check_fields(&f), Err(FieldsError::UnnamedField)));
    let unmarked = vec![FieldModel { ident: None, ty: plain("u8"), attrs: vec![] }];
    assert!(check_fields(&unmarked).is_ok());
    assert!(generate_fields(&unmarked).is_empty());
}

#[test]
fn struct_plan() {
    let input = struct_input(event_fields());
    assert!(check_domain_event(&input, true).is_ok());
    let plan = generate_domain_event(&input, true);
    assert_eq!(plan.aggregate_id.field, 1);
    assert_eq!(plan.getters.len(), 2);
    match &plan.event_types {
        EventTypes::Struct(t) => assert_eq!(t, "created-account"),
        _ => panic!("expected a struct event type"),
    }
    let s = plan.serialize.expect("serde is on");
    assert_eq!(s.serialized_name, "CreatedAccount");
    match &s.body {
        SerializeBody::Struct(names) => assert_eq!(
            names,
            &vec!["id", "aggregate_id", "aggregate_version", "holder", "active", "occurred_on"]
        ),
        _ => panic!("expected a struct body"),
    }
    assert!(generate_domain_event(&input, false).serialize.is_none());
}

#[test]
fn enum_plan() {
    let input = DeriveInputModel {
        ident: "AccountEvent".to_string(),
        generic_params: vec![GenericParamKind::Lifetime, GenericParamKind::Type, GenericParamKind::Const],
        data: DataModel::Enum(vec![variant("Created", enum_fields()), variant("Updated", enum_fields())]),
    };
    assert!(check_domain_event(&input, true).is_ok());
    let plan = generate_domain_event(&input, true);
    assert_eq!(plan.aggregate_id.field, 1);
    assert!(plan.getters.is_empty());
    match &plan.event_types {
        EventTypes::Enum(ts) => assert_eq!(ts, &vec!["account-created", "account-updated"]),
        _ => panic!("expected enum event types"),
    }
    let s = plan.serialize.expect("serde is on");
    assert_eq!(s.bounded_params, vec![false, true, false]);
    match &s.body {
        SerializeBody::Enum(shapes) => {
            assert_eq!(shapes.len(), 2);
            assert_eq!(shapes[1].name, "Updated");
            assert_eq!(shapes[1].index, 1);
            assert_eq!(shapes[1].fields.len(), 4);
        },
        _ => panic!("expected an enum body"),
    }
}

fn refusal(input: &DeriveInputModel, serde: bool) -> String {
    match check_domain_event(input, serde) {
        Err(e) => derive_error_message(&e),
        Ok(()) => panic!("expected a refusal"),
    }
}

#[test]
fn refusals_and_their_messages() {
    let union = DeriveInputModel { ident: "U".to_string(), generic_params: vec![], data: DataModel::Union };
    assert_eq!(refusal(&union, false), "Only structs and enums are supported");
    assert_eq!(refusal(&union, true), "internal error: entered unreachable code");

    let missing = struct_input(vec![field("id", plain("EventId"), vec![])]);
    assert_eq!(refusal(&missing, false), "Struct must have 'aggregate_id' field");

    let tuple = struct_input(vec![FieldModel { ident: None, ty: plain("u8"), attrs: vec![] }]);
    assert_eq!(refusal(&tuple, true), "DomainEvent only supports named fields");
    assert_eq!(refusal(&tuple, false), "called `Option::unwrap()` on a `None` value");

    let empty = DeriveInputModel { ident: "E".to_string(), generic_params: vec![], data: DataModel::Enum(vec![]) };
    assert_eq!(refusal(&empty, false), "Enum must have variants");

    let no_id = DeriveInputModel {
        ident: "E".to_string(),
        generic_params: vec![],
        data: DataModel::Enum(vec![variant("A", vec![field("id", plain("EventId"), vec![])]), variant("B", enum_fields())]),
    };
    assert_eq!(refusal(&no_id, false), "Enum variants must have 'aggregate_id' field");

    let marked = DeriveInputModel {
        ident: "E".to_string(),
        generic_params: vec![],
        data: DataModel::Enum(vec![variant("A", enum_fields()), variant("B", vec![field("x", plain("u8"), vec![field_attr()])])]),
    };
    assert_eq!(refusal(&marked, false), "#[field] is not supported on enum variants");

    let mut fs = event_fields();
    fs[3].attrs = vec![field_attr_with("deep")];
    assert_eq!(refusal(&struct_input(fs), false), "unrecognised `#[field]` option, expected `copy`");

    let mut fs = event_fields();
    fs[3].attrs = vec![AttributeModel { path: ident_path("field"), meta: AttributeTokens::NameValue }];
    assert!(matches!(
        check_domain_event(&struct_input(fs), false),
        Err(DeriveError::Fields(FieldsError::Options(FieldOptionError::Syntax(_))))
    ));
}
