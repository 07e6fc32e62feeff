//! Accessors for the fields marked `#[field]`: which fields get one, whether
//! `#[field(copy)]` asks for a value, and the accessor each one gets.

use vstd::prelude::*;

use crate::accessor::{accessor, body_text, return_type_text};
use crate::text::owned;
use crate::types::{PathArguments, PathSegment, TypeModel, TypePath, path_is_ident, path_is_ident_of};

verus! {

/// An attribute on a field: its path, and what follows the path.
pub struct AttributeModel {
    pub path: TypePath,
    pub meta: AttributeTokens,
}

/// What follows an attribute's path, as written.
pub enum AttributeTokens {
    /// Nothing, as in `#[field]`.
    Path,
    /// A delimited list, as in `#[field(copy)]`: the text of the tokens inside
    /// the delimiters.
    List(String),
    /// `= value`, as in `#[field = 1]`.
    NameValue,
}

/// The options of a list, as `syn`'s nested-meta parser reads them: the paths
/// of the options read in order, and the parse error that stopped the
/// reading, if one did.
pub struct NestedOptions {
    pub names: Vec<TypePath>,
    pub syntax_error: Option<String>,
}

/// A field of the type being derived.
pub struct FieldModel {
    /// The field's name; `None` for a field of a tuple struct.
    pub ident: Option<String>,
    pub ty: TypeModel,
    pub attrs: Vec<AttributeModel>,
}

/// The generated accessor of one field.
pub struct GetterModel {
    /// The accessor's name, which is the field's.
    pub name: String,
    pub return_type: String,
    pub body: String,
}

/// Why the options of a `#[field]` attribute are refused.
pub enum FieldOptionError {
    /// An option other than `copy`.
    Unrecognised,
    /// Options that do not parse, with the parser's message.
    Syntax(String),
}

/// Why the fields of a type cannot get their accessors.
pub enum FieldsError {
    /// A marked field without a name.
    UnnamedField,
    /// A marked field whose options are refused.
    Options(FieldOptionError),
}

/// A refused option, with the parser's message as text.
pub enum OptionFailure {
    Unrecognised,
    Syntax(Seq<char>),
}

/// A refused field, as text.
pub enum FieldsFailure {
    UnnamedField,
    Options(OptionFailure),
}

impl View for FieldOptionError {
    type V = OptionFailure;

    open spec fn view(&self) -> OptionFailure {
        match self {
            FieldOptionError::Unrecognised => OptionFailure::Unrecognised,
            FieldOptionError::Syntax(m) => OptionFailure::Syntax(m@),
        }
    }
}

impl View for FieldsError {
    type V = FieldsFailure;

    open spec fn view(&self) -> FieldsFailure {
        match self {
            FieldsError::UnnamedField => FieldsFailure::UnnamedField,
            FieldsError::Options(e) => FieldsFailure::Options(e@),
        }
    }
}

/// An outcome of reading options, with a refusal as text.
pub open spec fn outcome_view(r: Result<bool, FieldOptionError>) -> Result<bool, OptionFailure> {
    match r {
        Ok(b) => Ok(b),
        Err(e) => Err(e@),
    }
}

/// An option path as text: whether it starts with `::`, and its identifiers.
pub type OptionPathView = (bool, Seq<Seq<char>>);

/// What `syn`'s nested-meta parser reads from the token text `tokens`: the
/// paths of the options in order, and the message of the error that stopped
/// it, if one did.
pub uninterp spec fn nested_options_read(tokens: Seq<char>) -> (Seq<OptionPathView>, Option<Seq<char>>);

/// A path as text.
pub open spec fn path_view(p: TypePath) -> OptionPathView {
    (p.leading_colon, Seq::new(p.segments@.len(), |j: int| p.segments@[j].ident@))
}

/// Whether no segment of the path carries arguments.
pub open spec fn plain_segments(p: TypePath) -> bool {
    forall|j: int| 0 <= j < p.segments@.len() ==> (#[trigger] p.segments@[j]).arguments is Plain
}

/// Whether an option path is the single identifier `copy`.
pub open spec fn is_copy_option(p: OptionPathView) -> bool {
    &&& !p.0
    &&& p.1.len() == 1
    &&& p.1[0] == "copy"@
}

/// A path the way `syn` writes it in its messages: identifiers joined by
/// `::`, with `::` in front when the path starts with one.
pub open spec fn path_display(segs: Seq<PathSegment>, leading_colon: bool) -> Seq<char>
    decreases segs.len(),
{
    if segs.len() == 0 {
        Seq::empty()
    } else {
        path_display(segs.drop_last(), leading_colon) + (if segs.len() > 1 || leading_colon {
            "::"@
        } else {
            Seq::empty()
        }) + segs.last().ident@
    }
}

/// `syn::meta::parser`, run on the token text `tokens` by
/// `syn::parse::Parser::parse_str`: the path of each option it reads, in
/// order, and the message of the error that stopped it, if one did; it reads
/// each path as identifiers without arguments (`parse_meta_path`).
#[verifier::external_body]
fn read_nested_options(tokens: &str) -> (r: NestedOptions)
    ensures
        r.names@.len() == nested_options_read(tokens@).0.len(),
        forall|i: int|
            0 <= i < r.names@.len() ==> path_view(#[trigger] r.names@[i]) == nested_options_read(tokens@).0[i]
                && plain_segments(r.names@[i]),
        match r.syntax_error {
            Some(m) => nested_options_read(tokens@).1 == Some(m@),
            None => nested_options_read(tokens@).1 is None,
        },
{
    let mut paths: Vec<syn::Path> = Vec::new();
    let outcome = syn::parse::Parser::parse_str(syn::meta::parser(|meta| {
        paths.push(meta.path);
        Ok(())
    }), tokens);
    let names = paths.into_iter().map(|p| TypePath {
        leading_colon: p.leading_colon.is_some(),
        segments: p.segments.into_iter().map(|s| PathSegment { ident: s.ident.to_string(), arguments: PathArguments::Plain }).collect(),
    });
    NestedOptions { names: names.collect(), syntax_error: outcome.err().map(|e| e.to_string()) }
}

/// A path the way `syn` writes it in its messages.
pub fn path_display_of(p: &TypePath) -> (r: String)
    ensures
        r@ == path_display(p.segments@, p.leading_colon),
{
    let mut r = String::new();
    let mut i: usize = 0;
    while i < p.segments.len()
        invariant
            i <= p.segments.len(),
            r@ == path_display(p.segments@.take(i as int), p.leading_colon),
        decreases p.segments.len() - i,
    {
        if i > 0 || p.leading_colon {
            r.append("::");
        }
        r.append(p.segments[i].ident.as_str());
        proof {
            assert(p.segments@.take(i + 1).drop_last() =~= p.segments@.take(i as int));
        }
        i = i + 1;
    }
    assert(p.segments@.take(p.segments.len() as int) =~= p.segments@);
    r
}

/// A path without arguments is the identifier `copy` exactly when its text is.
proof fn copy_option_matches_path(p: TypePath)
    requires
        plain_segments(p),
    ensures
        path_is_ident(p, "copy"@) <==> is_copy_option(path_view(p)),
{
    if p.segments@.len() == 1 {
        assert(path_view(p).1[0] == p.segments@[0].ident@);
    }
}

/// Whether an attribute is `#[field ...]`.
pub open spec fn is_field_attr(a: AttributeModel) -> bool {
    path_is_ident(a.path, "field"@)
}

/// Whether a field carries a `#[field]` attribute.
pub open spec fn is_marked(f: FieldModel) -> bool {
    exists|i: int| 0 <= i < f.attrs@.len() && is_field_attr(#[trigger] f.attrs@[i])
}

/// What one `#[field]` attribute says: `Ok(true)` for `#[field(copy)]`,
/// `Ok(false)` for `#[field]` or `#[field()]`, an error for any other option
/// or for options that do not parse (the first option other than `copy`
/// decides before a later parse error); `#[field = ...]` is refused as `syn`
/// refuses it.
pub open spec fn option_check(a: AttributeModel) -> Result<bool, OptionFailure> {
    match a.meta {
        AttributeTokens::Path => Ok(false),
        AttributeTokens::NameValue => Err(
            OptionFailure::Syntax(
                "expected parentheses: #["@ + path_display(a.path.segments@, a.path.leading_colon) + "(...)]"@,
            ),
        ),
        AttributeTokens::List(t) => {
            let read = nested_options_read(t@);
            if exists|i: int| 0 <= i < read.0.len() && !is_copy_option(#[trigger] read.0[i]) {
                Err(OptionFailure::Unrecognised)
            } else {
                match read.1 {
                    Some(m) => Err(OptionFailure::Syntax(m)),
                    None => Ok(read.0.len() > 0),
                }
            }
        },
    }
}

/// Whether a field's `#[field]` attributes ask for a value: they are read in
/// order until one says `copy`; an attribute read on the way that is refused
/// refuses the field.
pub open spec fn copy_of(attrs: Seq<AttributeModel>) -> Result<bool, OptionFailure>
    decreases attrs.len(),
{
    if attrs.len() == 0 {
        Ok(false)
    } else if !is_field_attr(attrs[0]) {
        copy_of(attrs.drop_first())
    } else {
        match option_check(attrs[0]) {
            Err(e) => Err(e),
            Ok(c) => if c {
                Ok(true)
            } else {
                copy_of(attrs.drop_first())
            },
        }
    }
}

/// The first reason, in field order, why the marked fields cannot get
/// accessors: a marked field without a name, or one whose options are refused.
pub open spec fn fields_error(fs: Seq<FieldModel>) -> Option<FieldsFailure>
    decreases fs.len(),
{
    if fs.len() == 0 {
        None
    } else if is_marked(fs[0]) && fs[0].ident is None {
        Some(FieldsFailure::UnnamedField)
    } else if is_marked(fs[0]) && copy_of(fs[0].attrs@) is Err {
        Some(FieldsFailure::Options(copy_of(fs[0].attrs@)->Err_0))
    } else {
        fields_error(fs.drop_first())
    }
}

/// The marked fields, in order.
pub open spec fn marked_fields(fs: Seq<FieldModel>) -> Seq<FieldModel>
    decreases fs.len(),
{
    if fs.len() == 0 {
        Seq::empty()
    } else if is_marked(fs.last()) {
        marked_fields(fs.drop_last()).push(fs.last())
    } else {
        marked_fields(fs.drop_last())
    }
}

/// Whether `g` is the accessor that the marked field `f` gets.
pub open spec fn is_getter_for(g: GetterModel, f: FieldModel) -> bool {
    let copy = copy_of(f.attrs@)->Ok_0;
    &&& g.name@ == f.ident->0@
    &&& g.return_type@ == return_type_text(f.ty, copy)
    &&& g.body@ == body_text(f.ident->0@, f.ty, copy)
}

/// The message with which a refused option is reported.
pub fn option_error_message(e: &FieldOptionError) -> (r: String)
    ensures
        r@ == match e {
            FieldOptionError::Unrecognised => "unrecognised `#[field]` option, expected `copy`"@,
            FieldOptionError::Syntax(m) => m@,
        },
{
    match e {
        FieldOptionError::Unrecognised => owned("unrecognised `#[field]` option, expected `copy`"),
        FieldOptionError::Syntax(m) => m.clone(),
    }
}

/// Whether the attribute is `#[field ...]`.
pub fn is_field_attribute(a: &AttributeModel) -> (r: bool)
    ensures
        r == is_field_attr(*a),
{
    path_is_ident_of(&a.path, "field")
}

/// What one `#[field]` attribute says, as `option_check` describes it; the
/// options of a list are read by `syn`'s nested-meta parser.
pub fn field_options(a: &AttributeModel) -> (r: Result<bool, FieldOptionError>)
    ensures
        outcome_view(r) == option_check(*a),
{
    match &a.meta {
        AttributeTokens::Path => Ok(false),
        AttributeTokens::NameValue => {
            let mut m = owned("expected parentheses: #[");
            m.append(path_display_of(&a.path).as_str());
            m.append("(...)]");
            Err(FieldOptionError::Syntax(m))
        },
        AttributeTokens::List(t) => {
            let o = read_nested_options(t.as_str());
            let ghost read = nested_options_read(t@);
            let mut i: usize = 0;
            while i < o.names.len()
                invariant
                    i <= o.names.len(),
                    a.meta == AttributeTokens::List(*t),
                    read == nested_options_read(t@),
                    o.names@.len() == read.0.len(),
                    forall|k: int|
                        0 <= k < o.names@.len() ==> path_view(#[trigger] o.names@[k]) == read.0[k] && plain_segments(
                            o.names@[k],
                        ),
                    forall|j: int| 0 <= j < i ==> is_copy_option(#[trigger] read.0[j]),
                decreases o.names.len() - i,
            {
                proof {
                    copy_option_matches_path(o.names@[i as int]);
                }
                if !path_is_ident_of(&o.names[i], "copy") {
                    assert(!is_copy_option(read.0[i as int]));
                    return Err(FieldOptionError::Unrecognised);
                }
                i = i + 1;
            }
            match &o.syntax_error {
                Some(m) => Err(FieldOptionError::Syntax(m.clone())),
                None => Ok(o.names.len() > 0),
            }
        },
    }
}

/// Whether the attribute `#[field(...)]` opted into `copy`, returning a value
/// rather than a reference.
pub fn wants_copy(a: &AttributeModel) -> (r: bool)
    requires
        option_check(*a) is Ok,
    ensures
        r == option_check(*a)->Ok_0,
{
    match field_options(a) {
        Ok(c) => c,
        Err(_) => false,
    }
}

/// Whether a field's `#[field]` attributes ask for a value, as `copy_of`
/// describes it.
pub fn field_copy(attrs: &Vec<AttributeModel>) -> (r: Result<bool, FieldOptionError>)
    ensures
        outcome_view(r) == copy_of(attrs@),
{
    let mut i: usize = 0;
    assert(attrs@.skip(0) =~= attrs@);
    while i < attrs.len()
        invariant
            i <= attrs.len(),
            copy_of(attrs@) == copy_of(attrs@.skip(i as int)),
        decreases attrs.len() - i,
    {
        assert(attrs@.skip(i as int).drop_first() =~= attrs@.skip(i + 1));
        assert(attrs@.skip(i as int)[0] == attrs@[i as int]);
        if is_field_attribute(&attrs[i]) {
            match field_options(&attrs[i]) {
                Err(e) => {
                    return Err(e);
                },
                Ok(c) => {
                    if c {
                        return Ok(true);
                    }
                },
            }
        }
        i = i + 1;
    }
    Ok(false)
}

/// Whether a field carries a `#[field]` attribute.
pub fn field_is_marked(f: &FieldModel) -> (r: bool)
    ensures
        r == is_marked(*f),
{
    let mut i: usize = 0;
    while i < f.attrs.len()
        invariant
            i <= f.attrs.len(),
            forall|j: int| 0 <= j < i ==> !is_field_attr(#[trigger] f.attrs@[j]),
        decreases f.attrs.len() - i,
    {
        if is_field_attribute(&f.attrs[i]) {
            return true;
        }
        i = i + 1;
    }
    false
}

/// The first reason why the marked fields cannot get accessors, as
/// `fields_error` describes it.
pub fn check_fields(fields: &Vec<FieldModel>) -> (r: Result<(), FieldsError>)
    ensures
        match r {
            Ok(()) => fields_error(fields@) is None,
            Err(e) => fields_error(fields@) == Some(e@),
        },
{
    let mut i: usize = 0;
    assert(fields@.skip(0) =~= fields@);
    while i < fields.len()
        invariant
            i <= fields.len(),
            fields_error(fields@) == fields_error(fields@.skip(i as int)),
        decreases fields.len() - i,
    {
        assert(fields@.skip(i as int).drop_first() =~= fields@.skip(i + 1));
        assert(fields@.skip(i as int)[0] == fields@[i as int]);
        let f = &fields[i];
        if field_is_marked(f) {
            if f.ident.is_none() {
                return Err(FieldsError::UnnamedField);
            }
            match field_copy(&f.attrs) {
                Err(e) => {
                    return Err(FieldsError::Options(e));
                },
                Ok(_) => {},
            }
        }
        i = i + 1;
    }
    Ok(())
}

/// Attributes other than `#[field]` do not bear on whether a field asks for
/// a value: putting one in front of the others changes nothing.
pub proof fn other_attributes_are_ignored(other: AttributeModel, rest: Seq<AttributeModel>)
    requires
        !is_field_attr(other),
    ensures
        copy_of(seq![other] + rest) == copy_of(rest),
{
    assert((seq![other] + rest)[0] == other);
    assert((seq![other] + rest).drop_first() =~= rest);
}

/// A field asks for a value as soon as one of its `#[field]` attributes says
/// `copy`, wherever the others stand, provided no `#[field]` attribute before
/// it is refused; without any `#[field]` attribute saying `copy`, and none
/// refused, it asks for a reference.
pub proof fn copy_is_found_among_the_attributes(attrs: Seq<AttributeModel>)
    ensures
        (exists|k: int|
            0 <= k < attrs.len() && is_field_attr(#[trigger] attrs[k]) && option_check(attrs[k]) == Ok::<
                bool,
                OptionFailure,
            >(true) && (forall|j: int|
                0 <= j < k && is_field_attr(#[trigger] attrs[j]) ==> option_check(attrs[j]) is Ok)) ==> copy_of(attrs)
            == Ok::<bool, OptionFailure>(true),
        (forall|j: int|
            0 <= j < attrs.len() && is_field_attr(#[trigger] attrs[j]) ==> option_check(attrs[j]) == Ok::<
                bool,
                OptionFailure,
            >(false)) ==> copy_of(attrs) == Ok::<bool, OptionFailure>(false),
    decreases attrs.len(),
{
    if attrs.len() > 0 {
        let rest = attrs.drop_first();
        copy_is_found_among_the_attributes(rest);
        if exists|k: int|
            0 <= k < attrs.len() && is_field_attr(#[trigger] attrs[k]) && option_check(attrs[k]) == Ok::<
                bool,
                OptionFailure,
            >(true) && (forall|j: int|
                0 <= j < k && is_field_attr(#[trigger] attrs[j]) ==> option_check(attrs[j]) is Ok) {
            let k = choose|k: int|
                0 <= k < attrs.len() && is_field_attr(#[trigger] attrs[k]) && option_check(attrs[k]) == Ok::<
                    bool,
                    OptionFailure,
                >(true) && (forall|j: int|
                    0 <= j < k && is_field_attr(#[trigger] attrs[j]) ==> option_check(attrs[j]) is Ok);
            if k > 0 {
                assert(rest[k - 1] == attrs[k]);
                assert forall|j: int|
                    0 <= j < k - 1 && is_field_attr(#[trigger] rest[j]) implies option_check(rest[j]) is Ok by {
                    assert(rest[j] == attrs[j + 1]);
                }
                if is_field_attr(attrs[0]) {
                    assert(option_check(attrs[0]) is Ok);
                }
            }
        }
        if forall|j: int|
            0 <= j < attrs.len() && is_field_attr(#[trigger] attrs[j]) ==> option_check(attrs[j]) == Ok::<
                bool,
                OptionFailure,
            >(false) {
            assert forall|j: int|
                0 <= j < rest.len() && is_field_attr(#[trigger] rest[j]) implies option_check(rest[j]) == Ok::<
                bool,
                OptionFailure,
            >(false) by {
                assert(rest[j] == attrs[j + 1]);
            }
        }
    }
}

/// The fields that get accessors are exactly the fields that carry
/// `#[field]`, in field order.
pub proof fn marked_fields_are_the_marked_ones(fs: Seq<FieldModel>)
    ensures
        marked_fields(fs) == fs.filter(|f: FieldModel| is_marked(f)),
    decreases fs.len(),
{
    reveal_with_fuel(Seq::<_>::filter, 1);
    if fs.len() > 0 {
        marked_fields_are_the_marked_ones(fs.drop_last());
    }
}

/// A path is written in messages as its identifiers joined by `::`, with
/// `::` in front when it starts with one.
pub proof fn path_display_joins_identifiers(segs: Seq<PathSegment>, s: PathSegment, leading_colon: bool)
    ensures
        path_display(seq![s], false) == s.ident@,
        path_display(seq![s], true) == seq![':', ':'] + s.ident@,
        segs.len() > 0 ==> path_display(segs.push(s), leading_colon) == path_display(segs, leading_colon) + seq![
            ':',
            ':',
        ] + s.ident@,
{
    reveal_strlit("::");
    assert(seq![s].drop_last() =~= Seq::<PathSegment>::empty());
    assert(seq![s].last() == s);
    assert(path_display(seq![s].drop_last(), false) =~= Seq::<char>::empty());
    assert(path_display(seq![s].drop_last(), true) =~= Seq::<char>::empty());
    assert(segs.push(s).drop_last() =~= segs);
    assert(Seq::<char>::empty() + Seq::<char>::empty() + s.ident@ =~= s.ident@);
    assert(Seq::<char>::empty() + "::"@ + s.ident@ =~= seq![':', ':'] + s.ident@);
    assert("::"@ =~= seq![':', ':']);
}

/// What a `#[field]` attribute says: `#[field]` asks for a reference; a list
/// asks for a value exactly when it reads at least one option, every option
/// is `copy`, and it reads to the end without error; an option other than
/// `copy` is refused as unrecognised.
pub proof fn option_check_law(a: AttributeModel)
    ensures
        a.meta is Path ==> option_check(a) == Ok::<bool, OptionFailure>(false),
        a.meta is NameValue ==> option_check(a) is Err,
        a.meta matches AttributeTokens::List(t) ==> {
            let read = nested_options_read(t@);
            &&& (option_check(a) == Ok::<bool, OptionFailure>(true) <==> (read.0.len() > 0 && read.1 is None
                && forall|i: int| 0 <= i < read.0.len() ==> (#[trigger] read.0[i]).1 == seq![seq!['c', 'o', 'p', 'y']]
                && !read.0[i].0))
            &&& (forall|i: int| 0 <= i < read.0.len() && (#[trigger] read.0[i]).1 != seq![seq!['c', 'o', 'p', 'y']]
                ==> option_check(a) == Err::<bool, OptionFailure>(OptionFailure::Unrecognised))
        },
{
    reveal_strlit("copy");
    assert("copy"@ =~= seq!['c', 'o', 'p', 'y']);
    if let AttributeTokens::List(t) = a.meta {
        let read = nested_options_read(t@);
        assert forall|p: OptionPathView| is_copy_option(p) <==> (p.1 == seq![seq!['c', 'o', 'p', 'y']] && !p.0) by {
            if p.1.len() == 1 && p.1[0] =~= "copy"@ {
                assert(p.1 =~= seq![seq!['c', 'o', 'p', 'y']]);
            }
            if p.1 == seq![seq!['c', 'o', 'p', 'y']] {
                assert(p.1[0] =~= "copy"@);
            }
        }
    }
}

/// Once no marked field is refused, every marked field has a name and
/// options that are accepted.
pub proof fn accepted_fields_are_ready(fs: Seq<FieldModel>, i: int)
    requires
        fields_error(fs) is None,
        0 <= i < fs.len(),
        is_marked(fs[i]),
    ensures
        fs[i].ident is Some,
        copy_of(fs[i].attrs@) is Ok,
    decreases fs.len(),
{
    if i > 0 {
        assert(fs.drop_first()[i - 1] == fs[i]);
        accepted_fields_are_ready(fs.drop_first(), i - 1);
    }
}

/// The accessors of the fields marked `#[field]`, one per marked field, in
/// field order; unmarked fields get none.
pub fn generate_fields(fields: &Vec<FieldModel>) -> (r: Vec<GetterModel>)
    requires
        fields_error(fields@) is None,
    ensures
        r.len() == marked_fields(fields@).len(),
        forall|j: int| 0 <= j < r.len() ==> is_getter_for(#[trigger] r[j], marked_fields(fields@)[j]),
{
    let mut r: Vec<GetterModel> = Vec::new();
    let mut i: usize = 0;
    while i < fields.len()
        invariant
            i <= fields.len(),
            fields_error(fields@) is None,
            r.len() == marked_fields(fields@.take(i as int)).len(),
            forall|j: int| 0 <= j < r.len() ==> is_getter_for(#[trigger] r[j], marked_fields(fields@.take(i as int))[j]),
        decreases fields.len() - i,
    {
        assert(fields@.take(i + 1).drop_last() =~= fields@.take(i as int));
        assert(fields@.take(i + 1).last() == fields@[i as int]);
        let f = &fields[i];
        if field_is_marked(f) {
            proof {
                accepted_fields_are_ready(fields@, i as int);
            }
            let name = f.ident.as_ref().unwrap();
            let copy = match field_copy(&f.attrs) {
                Ok(c) => c,
                Err(_) => false,
            };
            let (return_type, body) = accessor(name.as_str(), &f.ty, copy);
            r.push(GetterModel { name: owned(name.as_str()), return_type, body });
        }
        i = i + 1;
    }
    assert(fields@.take(fields.len() as int) =~= fields@);
    r
}

} // verus!
