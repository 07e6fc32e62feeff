use kern::accessor::accessor;
use kern::types::{GenericArgument, PathArguments, PathSegment, TypeModel, TypePath};

fn segment(ident: &str, arguments: PathArguments) -> PathSegment {
    PathSegment { ident: ident.to_string(), arguments }
}

fn path(segments: Vec<PathSegment>) -> TypeModel {
    TypeModel::Path(TypePath { leading_colon: false, segments })
}

fn plain(ident: &str) -> TypeModel {
    path(vec![segment(ident, PathArguments::Plain)])
}

fn generic(ident: &str, args: Vec<GenericArgument>) -> TypeModel {
    path(vec![segment(ident, PathArguments::AngleBracketed(args))])
}

fn ty(t: TypeModel) -> GenericArgument {
    GenericArgument::Type(t)
}

fn lifetime(name: &str) -> GenericArgument {
    GenericArgument::Lifetime(name.to_string())
}

fn slice(t: TypeModel) -> TypeModel {
    TypeModel::Slice(Box::new(t))
}

/// The generated return type and body, with whitespace removed for comparison.
fn accessor_for(t: TypeModel) -> (String, String) {
    let (return_type, body) = accessor("value", &t, false);
    (return_type.replace(' ', ""), body.replace(' ', ""))
}

#[test]
fn owned_string_storage_is_exposed_as_str() {
    for t in [
        plain("String"),
        path(vec![
            segment("std", PathArguments::Plain),
            segment("string", PathArguments::Plain),
            segment("String", PathArguments::Plain),
        ]),
        generic("Box", vec![ty(plain("str"))]),
        generic("Cow", vec![lifetime("'a"), ty(plain("str"))]),
        path(vec![
            segment("std", PathArguments::Plain),
            segment("borrow", PathArguments::Plain),
            segment("Cow", PathArguments::AngleBracketed(vec![lifetime("'static"), ty(plain("str"))])),
        ]),
    ] {
        assert_eq!(accessor_for(t), ("&str".into(), "&self.value".into()));
    }
}

#[test]
fn owned_sequences_are_exposed_as_slices() {
    assert_eq!(
        accessor_for(generic("Vec", vec![ty(plain("String"))])),
        ("&[String]".into(), "&self.value".into())
    );
    assert_eq!(
        accessor_for(generic("Box", vec![ty(slice(plain("u8")))])),
        ("&[u8]".into(), "&self.value".into())
    );
}

/// `#[field(copy)]` wins over every borrowing rule, since the caller asked for a value.
#[test]
fn copy_fields_are_returned_by_value() {
    for (t, expected) in [
        (plain("bool"), "bool"),
        (plain("u32"), "u32"),
        (plain("OrganizationId"), "OrganizationId"),
        (generic("Option", vec![ty(plain("bool"))]), "Option<bool>"),
    ] {
        let (return_type, body) = accessor("value", &t, true);
        assert_eq!(return_type.replace(' ', ""), expected);
        assert_eq!(body.replace(' ', ""), "self.value");
    }
}

/// `&Option<String>` does not coerce to `Option<&str>`, so these need `as_deref`.
#[test]
fn optional_storage_is_exposed_through_as_deref() {
    assert_eq!(
        accessor_for(generic("Option", vec![ty(plain("String"))])),
        ("Option<&str>".into(), "self.value.as_deref()".into())
    );
    assert_eq!(
        accessor_for(generic("Option", vec![ty(generic("Box", vec![ty(plain("str"))]))])),
        ("Option<&str>".into(), "self.value.as_deref()".into())
    );
    assert_eq!(
        accessor_for(generic("Option", vec![ty(generic("Vec", vec![ty(plain("u8"))]))])),
        ("Option<&[u8]>".into(), "self.value.as_deref()".into())
    );
}

#[test]
fn everything_else_keeps_a_reference_to_its_own_type() {
    // Rc/Arc are excluded on purpose: callers may want to clone them for shared ownership.
    for (t, expected) in [
        (generic("Rc", vec![ty(plain("str"))]), "&Rc<str>"),
        (generic("Arc", vec![ty(plain("str"))]), "&Arc<str>"),
        (plain("bool"), "&bool"),
        (generic("Box", vec![ty(plain("Path"))]), "&Box<Path>"),
        (generic("Option", vec![ty(plain("u32"))]), "&Option<u32>"),
        (generic("HashMap", vec![ty(plain("String")), ty(plain("u32"))]), "&HashMap<String,u32>"),
    ] {
        let (return_type, body) = accessor_for(t);
        assert_eq!(return_type, expected);
        assert_eq!(body, "&self.value");
    }
}

#[test]
fn string_with_arguments_is_not_str_like() {
    // `String<..>` with arguments is some other type of that name.
    let (return_type, _) = accessor_for(generic("String", vec![ty(plain("u8"))]));
    assert_eq!(return_type, "&String<u8>");
    // Empty angle brackets count as no arguments.
    let (return_type, _) = accessor_for(generic("String", vec![]));
    assert_eq!(return_type, "&str");
}

#[test]
fn box_of_a_path_str_with_a_leading_colon_is_not_str_like() {
    let leading = TypeModel::Path(TypePath {
        leading_colon: true,
        segments: vec![segment("str", PathArguments::Plain)],
    });
    let (return_type, _) = accessor_for(generic("Box", vec![ty(leading)]));
    assert_eq!(return_type, "&Box<::str>");
}

#[test]
fn option_of_a_boxed_slice_is_exposed_as_an_optional_slice() {
    let (return_type, body) = accessor_for(generic("Option", vec![ty(generic("Box", vec![ty(slice(plain("u16")))]))]));
    assert_eq!(return_type, "Option<&[u16]>");
    assert_eq!(body, "self.value.as_deref()");
}

#[test]
fn other_types_keep_their_text() {
    let (return_type, body) = accessor_for(TypeModel::Other("(u8, u16)".to_string()));
    assert_eq!(return_type, "&(u8,u16)");
    assert_eq!(body, "&self.value");
    let (return_type, _) = accessor("value", &TypeModel::Other("[u8; 4]".to_string()), true);
    assert_eq!(return_type, "[u8; 4]");
}

#[test]
fn parenthesized_arguments_are_rendered_verbatim() {
    let t = path(vec![segment("Box", PathArguments::AngleBracketed(vec![ty(path(vec![segment(
        "Fn",
        PathArguments::Parenthesized("(u8) -> u8".to_string()),
    )]))]))]);
    let (return_type, _) = accessor_for(t);
    assert_eq!(return_type, "&Box<Fn(u8)->u8>");
}
