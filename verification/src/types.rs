//! A model of the type syntax that a field declares, holding as plain values
//! what the accessor rules read, and the questions those rules ask of it.

use vstd::prelude::*;

use crate::text::{owned, str_equals};

verus! {

/// The type of a field, as written in its declaration.
pub enum TypeModel {
    /// A path such as `String`, `std::borrow::Cow<'a, str>` or `Vec<u8>`,
    /// written without a qualified self type.
    Path(TypePath),
    /// A slice type `[T]`.
    Slice(Box<TypeModel>),
    /// Any other type (a reference, tuple, array, qualified path, ...), held
    /// as its token text.
    Other(String),
}

/// A path type: its segments, and whether it starts with `::`.
pub struct TypePath {
    pub leading_colon: bool,
    pub segments: Vec<PathSegment>,
}

/// One segment of a path: an identifier and what follows it.
pub struct PathSegment {
    pub ident: String,
    pub arguments: PathArguments,
}

/// The arguments of a path segment.
pub enum PathArguments {
    /// No arguments, as in `String`.
    Plain,
    /// Arguments in angle brackets, as in `Cow<'a, str>`.
    AngleBracketed(Vec<GenericArgument>),
    /// Parenthesized arguments, as in `Fn(u8) -> u8`, held as their token text.
    Parenthesized(String),
}

/// One argument between angle brackets.
pub enum GenericArgument {
    /// A lifetime such as `'a`, held as its text.
    Lifetime(String),
    /// A type.
    Type(TypeModel),
    /// A const, an associated type binding or a constraint, held as its token text.
    Other(String),
}

pub open spec fn str_word() -> Seq<char> {
    seq!['s', 't', 'r']
}

pub open spec fn string_word() -> Seq<char> {
    seq!['S', 't', 'r', 'i', 'n', 'g']
}

pub open spec fn box_word() -> Seq<char> {
    seq!['B', 'o', 'x']
}

pub open spec fn cow_word() -> Seq<char> {
    seq!['C', 'o', 'w']
}

pub open spec fn vec_word() -> Seq<char> {
    seq!['V', 'e', 'c']
}

pub open spec fn option_word() -> Seq<char> {
    seq!['O', 'p', 't', 'i', 'o', 'n']
}

/// Whether a path is the single identifier `word`: one segment, no leading
/// `::`, no arguments.
pub open spec fn path_is_ident(p: TypePath, word: Seq<char>) -> bool {
    &&& !p.leading_colon
    &&& p.segments@.len() == 1
    &&& p.segments@[0].arguments is Plain
    &&& p.segments@[0].ident@ == word
}

/// Whether the type is the path `str` itself: one segment, no leading `::`,
/// no arguments.
pub open spec fn is_str(ty: TypeModel) -> bool {
    match ty {
        TypeModel::Path(p) => {
            &&& !p.leading_colon
            &&& p.segments@.len() == 1
            &&& p.segments@[0].arguments is Plain
            &&& p.segments@[0].ident@ == str_word()
        },
        _ => false,
    }
}

/// The last segment of a path type.
pub open spec fn last_segment(ty: TypeModel) -> Option<PathSegment> {
    match ty {
        TypeModel::Path(p) => if p.segments@.len() > 0 {
            Some(p.segments@.last())
        } else {
            None
        },
        _ => None,
    }
}

/// The first type among the arguments, skipping lifetimes and other arguments.
pub open spec fn first_type_in(args: Seq<GenericArgument>) -> Option<TypeModel>
    decreases args.len(),
{
    if args.len() == 0 {
        None
    } else {
        match args[0] {
            GenericArgument::Type(t) => Some(t),
            _ => first_type_in(args.drop_first()),
        }
    }
}

/// The first type argument of a segment: `Cow<'a, str>` yields `str`.
pub open spec fn first_type_argument(seg: PathSegment) -> Option<TypeModel> {
    match seg.arguments {
        PathArguments::AngleBracketed(args) => first_type_in(args@),
        _ => None,
    }
}

/// Whether a segment carries no arguments (empty angle brackets count as none).
pub open spec fn arguments_empty(a: PathArguments) -> bool {
    match a {
        PathArguments::Plain => true,
        PathArguments::AngleBracketed(args) => args@.len() == 0,
        PathArguments::Parenthesized(_) => false,
    }
}

/// Whether a field of this type is exposed as `&str`: `String`, `Box<str>` and
/// `Cow<_, str>`, by the last segment of the path. `Rc<str>` and `Arc<str>`
/// are not, so that callers can still clone them.
pub open spec fn is_str_like(ty: TypeModel) -> bool {
    match last_segment(ty) {
        None => false,
        Some(seg) => if seg.ident@ == string_word() {
            arguments_empty(seg.arguments)
        } else if seg.ident@ == box_word() || seg.ident@ == cow_word() {
            match first_type_argument(seg) {
                Some(t) => is_str(t),
                None => false,
            }
        } else {
            false
        },
    }
}

/// The item type of a `Vec<T>` or a `Box<[T]>`.
pub open spec fn slice_item(ty: TypeModel) -> Option<TypeModel> {
    match last_segment(ty) {
        None => None,
        Some(seg) => if seg.ident@ == vec_word() {
            first_type_argument(seg)
        } else if seg.ident@ == box_word() {
            match first_type_argument(seg) {
                Some(TypeModel::Slice(elem)) => Some(*elem),
                _ => None,
            }
        } else {
            None
        },
    }
}

/// The item type of an `Option<T>`.
pub open spec fn option_item(ty: TypeModel) -> Option<TypeModel> {
    match last_segment(ty) {
        Some(seg) => if seg.ident@ == option_word() {
            first_type_argument(seg)
        } else {
            None
        },
        None => None,
    }
}

/// Whether a path is the single identifier `word`.
pub fn path_is_ident_of(p: &TypePath, word: &str) -> (r: bool)
    ensures
        r == path_is_ident(*p, word@),
{
    !p.leading_colon && p.segments.len() == 1 && matches!(p.segments[0].arguments, PathArguments::Plain)
        && str_equals(p.segments[0].ident.as_str(), word)
}

/// Whether `ty` is the path `str`.
pub fn is_str_type(ty: &TypeModel) -> (r: bool)
    ensures
        r == is_str(*ty),
{
    proof {
        reveal_strlit("str");
        assert("str"@ =~= str_word());
    }
    match ty {
        TypeModel::Path(p) => {
            !p.leading_colon && p.segments.len() == 1 && matches!(p.segments[0].arguments, PathArguments::Plain)
                && str_equals(p.segments[0].ident.as_str(), "str")
        },
        _ => false,
    }
}

/// The last segment of a path type, if `ty` is one.
pub fn last_segment_of(ty: &TypeModel) -> (r: Option<&PathSegment>)
    ensures
        match r {
            Some(seg) => last_segment(*ty) == Some(*seg),
            None => last_segment(*ty) is None,
        },
{
    match ty {
        TypeModel::Path(p) => {
            if p.segments.len() > 0 {
                Some(&p.segments[p.segments.len() - 1])
            } else {
                None
            }
        },
        _ => None,
    }
}

/// The first type among the arguments of a segment.
pub fn first_type_argument_of(seg: &PathSegment) -> (r: Option<&TypeModel>)
    ensures
        match r {
            Some(t) => first_type_argument(*seg) == Some(*t),
            None => first_type_argument(*seg) is None,
        },
{
    match &seg.arguments {
        PathArguments::AngleBracketed(args) => {
            let mut i: usize = 0;
            assert(args@.skip(0) =~= args@);
            while i < args.len()
                invariant
                    i <= args.len(),
                    first_type_argument(*seg) == first_type_in(args@),
                    first_type_in(args@) == first_type_in(args@.skip(i as int)),
                decreases args.len() - i,
            {
                assert(args@.skip(i as int).drop_first() =~= args@.skip(i + 1));
                assert(args@.skip(i as int)[0] == args@[i as int]);
                match &args[i] {
                    GenericArgument::Type(t) => {
                        return Some(t);
                    },
                    _ => {},
                }
                i = i + 1;
            }
            None
        },
        _ => None,
    }
}

/// Whether a field of this type is exposed as `&str`.
pub fn is_str_like_type(ty: &TypeModel) -> (r: bool)
    ensures
        r == is_str_like(*ty),
{
    proof {
        reveal_strlit("String");
        reveal_strlit("Box");
        reveal_strlit("Cow");
        assert("String"@ =~= string_word());
        assert("Box"@ =~= box_word());
        assert("Cow"@ =~= cow_word());
    }
    let seg = match last_segment_of(ty) {
        Some(seg) => seg,
        None => {
            return false;
        },
    };
    let ident = seg.ident.as_str();
    if str_equals(ident, "String") {
        match &seg.arguments {
            PathArguments::Plain => true,
            PathArguments::AngleBracketed(args) => args.len() == 0,
            PathArguments::Parenthesized(_) => false,
        }
    } else if str_equals(ident, "Box") || str_equals(ident, "Cow") {
        match first_type_argument_of(seg) {
            Some(t) => is_str_type(t),
            None => false,
        }
    } else {
        false
    }
}

/// The item type of a `Vec<T>` or a `Box<[T]>`, if `ty` is one.
pub fn slice_item_of(ty: &TypeModel) -> (r: Option<&TypeModel>)
    ensures
        match r {
            Some(t) => slice_item(*ty) == Some(*t),
            None => slice_item(*ty) is None,
        },
{
    proof {
        reveal_strlit("Vec");
        reveal_strlit("Box");
        assert("Vec"@ =~= vec_word());
        assert("Box"@ =~= box_word());
    }
    let seg = match last_segment_of(ty) {
        Some(seg) => seg,
        None => {
            return None;
        },
    };
    let ident = seg.ident.as_str();
    if str_equals(ident, "Vec") {
        first_type_argument_of(seg)
    } else if str_equals(ident, "Box") {
        match first_type_argument_of(seg) {
            Some(TypeModel::Slice(elem)) => Some(&**elem),
            _ => None,
        }
    } else {
        None
    }
}

/// The item type of an `Option<T>`, if `ty` is one.
pub fn option_item_of(ty: &TypeModel) -> (r: Option<&TypeModel>)
    ensures
        match r {
            Some(t) => option_item(*ty) == Some(*t),
            None => option_item(*ty) is None,
        },
{
    proof {
        reveal_strlit("Option");
        assert("Option"@ =~= option_word());
    }
    let seg = match last_segment_of(ty) {
        Some(seg) => seg,
        None => {
            return None;
        },
    };
    if !str_equals(seg.ident.as_str(), "Option") {
        return None;
    }
    first_type_argument_of(seg)
}


/// The text of a type, written without spaces where the syntax needs none:
/// `Cow<'a,str>`, `std::string::String`, `[u8]`.
pub open spec fn type_text(t: TypeModel) -> Seq<char>
    decreases t,
{
    match t {
        TypeModel::Path(p) => {
            (if p.leading_colon {
                seq![':', ':']
            } else {
                Seq::empty()
            }) + segments_text(p.segments@)
        },
        TypeModel::Slice(elem) => seq!['['] + type_text(*elem) + seq![']'],
        TypeModel::Other(text) => text@,
    }
}

/// The segments of a path, joined by `::`.
pub open spec fn segments_text(segs: Seq<PathSegment>) -> Seq<char>
    decreases segs,
{
    if segs.len() == 0 {
        Seq::empty()
    } else if segs.len() == 1 {
        segment_text(segs[0])
    } else {
        segments_text(segs.drop_last()) + seq![':', ':'] + segment_text(segs.last())
    }
}

/// A segment: its identifier followed by its arguments.
pub open spec fn segment_text(seg: PathSegment) -> Seq<char>
    decreases seg,
{
    seg.ident@ + arguments_text(seg.arguments)
}

/// The arguments of a segment: nothing, `<...>` or the parenthesized text.
pub open spec fn arguments_text(a: PathArguments) -> Seq<char>
    decreases a,
{
    match a {
        PathArguments::Plain => Seq::empty(),
        PathArguments::AngleBracketed(args) => seq!['<'] + generic_arguments_text(args@) + seq!['>'],
        PathArguments::Parenthesized(text) => text@,
    }
}

/// Generic arguments, joined by `,`.
pub open spec fn generic_arguments_text(args: Seq<GenericArgument>) -> Seq<char>
    decreases args,
{
    if args.len() == 0 {
        Seq::empty()
    } else if args.len() == 1 {
        generic_argument_text(args[0])
    } else {
        generic_arguments_text(args.drop_last()) + seq![','] + generic_argument_text(args.last())
    }
}

/// One generic argument.
pub open spec fn generic_argument_text(a: GenericArgument) -> Seq<char>
    decreases a,
{
    match a {
        GenericArgument::Lifetime(text) => text@,
        GenericArgument::Type(t) => type_text(t),
        GenericArgument::Other(text) => text@,
    }
}


/// The text of a type, as `type_text` describes it.
pub fn render_type(t: &TypeModel) -> (r: String)
    ensures
        r@ == type_text(*t),
    decreases t,
{
    match t {
        TypeModel::Path(p) => {
            let mut r = String::new();
            if p.leading_colon {
                r.push(':');
                r.push(':');
            }
            let segs = render_segments(&p.segments);
            r.append(segs.as_str());
            r
        },
        TypeModel::Slice(elem) => {
            let mut r = String::new();
            r.push('[');
            let inner = render_type(elem);
            r.append(inner.as_str());
            r.push(']');
            r
        },
        TypeModel::Other(text) => owned(text.as_str()),
    }
}

/// The segments of a path, joined by `::`.
pub fn render_segments(segs: &Vec<PathSegment>) -> (r: String)
    ensures
        r@ == segments_text(segs@),
    decreases segs,
{
    let mut r = String::new();
    let mut i: usize = 0;
    while i < segs.len()
        invariant
            i <= segs.len(),
            r@ == segments_text(segs@.take(i as int)),
        decreases segs.len() - i,
    {
        proof {
            assert(decreases_to!(segs => segs@));
            assert(decreases_to!(segs@ => segs@[i as int]));
        }
        let seg = render_segment(&segs[i]);
        if i > 0 {
            r.push(':');
            r.push(':');
        }
        r.append(seg.as_str());
        proof {
            assert(segs@.take(i + 1).drop_last() =~= segs@.take(i as int));
            assert(segs@.take(i + 1).last() == segs@[i as int]);
            if i == 0 {
                assert(segs@.take(1)[0] == segs@[0]);
            }
        }
        i = i + 1;
    }
    assert(segs@.take(segs.len() as int) =~= segs@);
    r
}

/// A segment: its identifier followed by its arguments.
pub fn render_segment(seg: &PathSegment) -> (r: String)
    ensures
        r@ == segment_text(*seg),
    decreases seg,
{
    let mut r = owned(seg.ident.as_str());
    let args = render_arguments(&seg.arguments);
    r.append(args.as_str());
    r
}

/// The arguments of a segment.
pub fn render_arguments(a: &PathArguments) -> (r: String)
    ensures
        r@ == arguments_text(*a),
    decreases a,
{
    match a {
        PathArguments::Plain => String::new(),
        PathArguments::AngleBracketed(args) => {
            let mut r = String::new();
            r.push('<');
            let inner = render_generic_arguments(args);
            r.append(inner.as_str());
            r.push('>');
            r
        },
        PathArguments::Parenthesized(text) => owned(text.as_str()),
    }
}

/// Generic arguments, joined by `,`.
pub fn render_generic_arguments(args: &Vec<GenericArgument>) -> (r: String)
    ensures
        r@ == generic_arguments_text(args@),
    decreases args,
{
    let mut r = String::new();
    let mut i: usize = 0;
    while i < args.len()
        invariant
            i <= args.len(),
            r@ == generic_arguments_text(args@.take(i as int)),
        decreases args.len() - i,
    {
        proof {
            assert(decreases_to!(args => args@));
            assert(decreases_to!(args@ => args@[i as int]));
        }
        let item = render_generic_argument(&args[i]);
        if i > 0 {
            r.push(',');
        }
        r.append(item.as_str());
        proof {
            assert(args@.take(i + 1).drop_last() =~= args@.take(i as int));
            assert(args@.take(i + 1).last() == args@[i as int]);
            if i == 0 {
                assert(args@.take(1)[0] == args@[0]);
            }
        }
        i = i + 1;
    }
    assert(args@.take(args.len() as int) =~= args@);
    r
}

/// One generic argument.
pub fn render_generic_argument(a: &GenericArgument) -> (r: String)
    ensures
        r@ == generic_argument_text(*a),
    decreases a,
{
    match a {
        GenericArgument::Lifetime(text) => owned(text.as_str()),
        GenericArgument::Type(t) => render_type(t),
        GenericArgument::Other(text) => owned(text.as_str()),
    }
}

/// A path's text is the texts of its segments joined by `::`: one segment is
/// written alone, and one more segment adds `::` and the new segment's text
/// after the text of the shorter path.
pub proof fn path_segments_are_joined_by_colons(segs: Seq<PathSegment>, s: PathSegment)
    ensures
        segments_text(seq![s]) == segment_text(s),
        segs.len() > 0 ==> segments_text(segs.push(s)) == segments_text(segs) + seq![':', ':'] + segment_text(s),
{
    assert(segs.push(s).drop_last() =~= segs);
    assert(seq![s][0] == s);
}

/// A path type is written as its segments, after `::` when it starts with one.
pub proof fn path_type_text(p: TypePath)
    ensures
        !p.leading_colon ==> type_text(TypeModel::Path(p)) == segments_text(p.segments@),
        p.leading_colon ==> type_text(TypeModel::Path(p)) == seq![':', ':'] + segments_text(p.segments@),
{
    assert(Seq::<char>::empty() + segments_text(p.segments@) =~= segments_text(p.segments@));
}

/// A segment is written as its identifier, then its generic arguments between
/// `<` and `>` joined by `,`, or its parenthesized text, or nothing.
pub proof fn segment_text_law(seg: PathSegment)
    ensures
        seg.arguments is Plain ==> segment_text(seg) == seg.ident@,
        seg.arguments matches PathArguments::AngleBracketed(args) ==> segment_text(seg) == seg.ident@ + seq!['<']
            + generic_arguments_text(args@) + seq!['>'],
        seg.arguments matches PathArguments::Parenthesized(t) ==> segment_text(seg) == seg.ident@ + t@,
{
    assert(seg.ident@ + Seq::<char>::empty() =~= seg.ident@);
}

/// Generic arguments are joined by `,`: one argument is written alone, one more
/// adds `,` and its text after the shorter list's text.
pub proof fn generic_arguments_are_joined_by_commas(args: Seq<GenericArgument>, a: GenericArgument)
    ensures
        generic_arguments_text(seq![a]) == generic_argument_text(a),
        args.len() > 0 ==> generic_arguments_text(args.push(a)) == generic_arguments_text(args) + seq![',']
            + generic_argument_text(a),
{
    assert(args.push(a).drop_last() =~= args);
    assert(seq![a][0] == a);
}

/// A slice is its item's text between `[` and `]`; a type argument is the
/// type's own text; any other type keeps its own text.
pub proof fn slice_and_other_texts(t: TypeModel, text: String)
    ensures
        type_text(TypeModel::Slice(Box::new(t))) == seq!['['] + type_text(t) + seq![']'],
        generic_argument_text(GenericArgument::Type(t)) == type_text(t),
        type_text(TypeModel::Other(text)) == text@,
{
}

/// The first type argument is the first argument that is a type: every
/// argument before it is a lifetime or another kind of argument; and where no
/// argument is a type there is none.
pub proof fn first_type_is_the_first_type(args: Seq<GenericArgument>)
    ensures
        first_type_in(args) matches Some(t) ==> exists|k: int|
            0 <= k < args.len() && args[k] == GenericArgument::Type(t) && forall|j: int|
                0 <= j < k ==> !(#[trigger] args[j] is Type),
        first_type_in(args) is None ==> forall|j: int| 0 <= j < args.len() ==> !(#[trigger] args[j] is Type),
    decreases args.len(),
{
    if args.len() > 0 {
        let rest = args.drop_first();
        first_type_is_the_first_type(rest);
        match args[0] {
            GenericArgument::Type(t) => {
                assert(args[0] == GenericArgument::Type(t));
            },
            _ => {
                if let Some(t) = first_type_in(rest) {
                    let k = choose|k: int|
                        0 <= k < rest.len() && rest[k] == GenericArgument::Type(t) && forall|j: int|
                            0 <= j < k ==> !(#[trigger] rest[j] is Type);
                    assert(args[k + 1] == rest[k]);
                    assert forall|j: int| 0 <= j < k + 1 implies !(#[trigger] args[j] is Type) by {
                        if j > 0 {
                            assert(args[j] == rest[j - 1]);
                        }
                    }
                } else {
                    assert forall|j: int| 0 <= j < args.len() implies !(#[trigger] args[j] is Type) by {
                        if j > 0 {
                            assert(args[j] == rest[j - 1]);
                        }
                    }
                }
            },
        }
    }
}

/// The type questions, by the last segment of a path: `String` without
/// arguments, and `Box` or `Cow` whose first type argument is `str`, are
/// string-like and nothing else is; `Vec<T>` and `Box<[T]>` have item `T`
/// and nothing else has one; `Option<T>` has item `T` and nothing else has one.
pub proof fn type_questions_by_last_segment(ty: TypeModel)
    ensures
        last_segment(ty) is None ==> !is_str_like(ty) && slice_item(ty) is None && option_item(ty) is None,
        last_segment(ty) is Some ==> {
            let seg = last_segment(ty)->0;
            let id = seg.ident@;
            &&& id == seq!['S', 't', 'r', 'i', 'n', 'g'] ==> (is_str_like(ty) <==> (seg.arguments is Plain || (
            seg.arguments is AngleBracketed && seg.arguments->AngleBracketed_0@.len() == 0)))
            &&& (id == seq!['B', 'o', 'x'] || id == seq!['C', 'o', 'w']) ==> (is_str_like(ty) <==> (first_type_argument(
                seg,
            ) is Some && is_str(first_type_argument(seg)->0)))
            &&& (id != seq!['S', 't', 'r', 'i', 'n', 'g'] && id != seq!['B', 'o', 'x'] && id != seq!['C', 'o', 'w'])
                ==> !is_str_like(ty)
            &&& id == seq!['V', 'e', 'c'] ==> slice_item(ty) == first_type_argument(seg)
            &&& id == seq!['B', 'o', 'x'] ==> slice_item(ty) == (match first_type_argument(seg) {
                Some(TypeModel::Slice(e)) => Some(*e),
                _ => None,
            })
            &&& (id != seq!['V', 'e', 'c'] && id != seq!['B', 'o', 'x']) ==> slice_item(ty) is None
            &&& id == seq!['O', 'p', 't', 'i', 'o', 'n'] ==> option_item(ty) == first_type_argument(seg)
            &&& id != seq!['O', 'p', 't', 'i', 'o', 'n'] ==> option_item(ty) is None
        },
{
}

/// A type is `str` exactly when it is the one-segment path `str`, without
/// arguments or a leading `::`.
pub proof fn str_is_the_bare_path(ty: TypeModel)
    ensures
        is_str(ty) <==> (ty is Path && !ty->Path_0.leading_colon && ty->Path_0.segments@.len() == 1
            && ty->Path_0.segments@[0].arguments is Plain && ty->Path_0.segments@[0].ident@ == seq!['s', 't', 'r']),
{
}

} // verus!
