//! The accessor that `#[field]` generates for a field: its return type and its
//! body. Owned containers are exposed as the borrowed form they deref to;
//! `Option` needs `as_deref`, since `&Option<String>` does not coerce to
//! `Option<&str>`; `#[field(copy)]` returns the value itself.

use vstd::prelude::*;

use crate::text::owned;
use crate::types::{
    TypeModel, is_str_like, last_segment, string_word, box_word, cow_word, slice_item, option_item, type_text, is_str_like_type, slice_item_of,
    option_item_of, render_type,
};

verus! {

/// How an accessor exposes its field.
pub enum AccessorKind {
    /// `#[field(copy)]`: the field's own type, by value.
    ByValue,
    /// `&str`, for `String`, `Box<str>` and `Cow<_, str>`.
    Str,
    /// `&[T]`, for `Vec<T>` and `Box<[T]>`.
    Slice,
    /// `Option<&str>`, for an `Option` of a string-like type.
    OptionalStr,
    /// `Option<&[T]>`, for an `Option` of a `Vec<T>` or `Box<[T]>`.
    OptionalSlice,
    /// A reference to the field's own type.
    Reference,
}

/// The rule that picks how a field of type `ty` is exposed; `copy` wins over
/// every borrowing rule.
pub open spec fn accessor_kind(ty: TypeModel, copy: bool) -> AccessorKind {
    if copy {
        AccessorKind::ByValue
    } else if is_str_like(ty) {
        AccessorKind::Str
    } else if slice_item(ty) is Some {
        AccessorKind::Slice
    } else if option_item(ty) matches Some(item) && is_str_like(item) {
        AccessorKind::OptionalStr
    } else if option_item(ty) matches Some(item) && slice_item(item) is Some {
        AccessorKind::OptionalSlice
    } else {
        AccessorKind::Reference
    }
}

/// The text of the accessor's return type.
pub open spec fn return_type_text(ty: TypeModel, copy: bool) -> Seq<char> {
    match accessor_kind(ty, copy) {
        AccessorKind::ByValue => type_text(ty),
        AccessorKind::Str => "&str"@,
        AccessorKind::Slice => "&["@ + type_text(slice_item(ty)->0) + "]"@,
        AccessorKind::OptionalStr => "Option<&str>"@,
        AccessorKind::OptionalSlice => "Option<&["@ + type_text(slice_item(option_item(ty)->0)->0) + "]>"@,
        AccessorKind::Reference => "&"@ + type_text(ty),
    }
}

/// The text of the accessor's body, for the field named `field`.
pub open spec fn body_text(field: Seq<char>, ty: TypeModel, copy: bool) -> Seq<char> {
    match accessor_kind(ty, copy) {
        AccessorKind::ByValue => "self."@ + field,
        AccessorKind::OptionalStr | AccessorKind::OptionalSlice => "self."@ + field + ".as_deref()"@,
        _ => "&self."@ + field,
    }
}

/// How a field of type `ty` is exposed.
pub fn accessor_kind_of(ty: &TypeModel, copy: bool) -> (r: AccessorKind)
    ensures
        r == accessor_kind(*ty, copy),
{
    if copy {
        return AccessorKind::ByValue;
    }
    if is_str_like_type(ty) {
        return AccessorKind::Str;
    }
    if slice_item_of(ty).is_some() {
        return AccessorKind::Slice;
    }
    if let Some(item) = option_item_of(ty) {
        if is_str_like_type(item) {
            return AccessorKind::OptionalStr;
        }
        if slice_item_of(item).is_some() {
            return AccessorKind::OptionalSlice;
        }
    }
    AccessorKind::Reference
}

/// The return type and the body of the accessor for the field `field_ident`
/// of type `ty`: `String` gives `&str` and `&self.value`, `Option<Vec<u8>>`
/// gives `Option<&[u8]>` and `self.value.as_deref()`.
pub fn accessor(field_ident: &str, ty: &TypeModel, copy: bool) -> (r: (String, String))
    ensures
        r.0@ == return_type_text(*ty, copy),
        r.1@ == body_text(field_ident@, *ty, copy),
{
    let kind = accessor_kind_of(ty, copy);
    let return_type = match kind {
        AccessorKind::ByValue => render_type(ty),
        AccessorKind::Str => owned("&str"),
        AccessorKind::Slice => {
            let item = slice_item_of(ty).unwrap();
            let mut r = owned("&[");
            r.append(render_type(item).as_str());
            r.append("]");
            r
        },
        AccessorKind::OptionalStr => owned("Option<&str>"),
        AccessorKind::OptionalSlice => {
            let item = slice_item_of(option_item_of(ty).unwrap()).unwrap();
            let mut r = owned("Option<&[");
            r.append(render_type(item).as_str());
            r.append("]>");
            r
        },
        AccessorKind::Reference => {
            let mut r = owned("&");
            r.append(render_type(ty).as_str());
            r
        },
    };
    let body = match kind {
        AccessorKind::ByValue => {
            let mut b = owned("self.");
            b.append(field_ident);
            b
        },
        AccessorKind::OptionalStr | AccessorKind::OptionalSlice => {
            let mut b = owned("self.");
            b.append(field_ident);
            b.append(".as_deref()");
            b
        },
        _ => {
            let mut b = owned("&self.");
            b.append(field_ident);
            b
        },
    };
    (return_type, body)
}


/// `#[field(copy)]` wins over every borrowing rule: the accessor returns the
/// field's own type, by value.
pub proof fn copy_returns_the_value(field: Seq<char>, ty: TypeModel)
    ensures
        return_type_text(ty, true) == type_text(ty),
        body_text(field, ty, true) == "self."@ + field,
{
}

/// Without `copy`, an accessor never hands out its field by value: the
/// return type is a reference, or an `Option` of one.
pub proof fn other_accessors_borrow(ty: TypeModel)
    ensures
        return_type_text(ty, false).len() > 0,
        return_type_text(ty, false)[0] == '&' || return_type_text(ty, false).take(8) == "Option<&"@,
{
    reveal_strlit("&str");
    reveal_strlit("&[");
    reveal_strlit("]");
    reveal_strlit("]>");
    reveal_strlit("&");
    reveal_strlit("Option<&str>");
    reveal_strlit("Option<&[");
    reveal_strlit("Option<&");
    let t = return_type_text(ty, false);
    match accessor_kind(ty, false) {
        AccessorKind::Str => {},
        AccessorKind::Slice => {
            assert(t[0] == "&["@[0]);
        },
        AccessorKind::OptionalStr => {
            assert(t.take(8) =~= "Option<&"@);
        },
        AccessorKind::OptionalSlice => {
            let u = "Option<&["@ + type_text(slice_item(option_item(ty)->0)->0);
            assert(t.take(8) =~= u.take(8));
            assert(t.take(8) =~= "Option<&"@);
        },
        AccessorKind::Reference => {
            assert(t[0] == "&"@[0]);
        },
        AccessorKind::ByValue => {},
    }
}

/// Only `String`, `Box<str>` and `Cow<_, str>` are exposed as `&str`: a path
/// ending in any other identifier, such as `Rc<str>` or `Arc<str>`, is not.
pub proof fn only_owned_strings_are_str_like(ty: TypeModel)
    requires
        last_segment(ty) matches Some(seg) && seg.ident@ != string_word() && seg.ident@ != box_word()
            && seg.ident@ != cow_word(),
    ensures
        !is_str_like(ty),
        accessor_kind(ty, false) != AccessorKind::Str,
{
}

/// The accessor of a field, by its declared type, when `copy` is not asked
/// for: a string-like type gives `&str`; a `Vec<T>` or `Box<[T]>` gives
/// `&[T]`; an `Option` of a string-like type gives `Option<&str>`, and an
/// `Option` of a `Vec<T>` or `Box<[T]>` gives `Option<&[T]>`, both through
/// `as_deref`; any other type gives `&` and the type as written. The body
/// borrows the field, or calls `as_deref` on it for an `Option`.
pub proof fn accessor_rules(field: Seq<char>, ty: TypeModel)
    ensures
        is_str_like(ty) ==> return_type_text(ty, false) == seq!['&', 's', 't', 'r'],
        !is_str_like(ty) && slice_item(ty) is Some ==> return_type_text(ty, false) == seq!['&', '['] + type_text(
            slice_item(ty)->0,
        ) + seq![']'],
        !is_str_like(ty) && slice_item(ty) is None && option_item(ty) is Some && is_str_like(option_item(ty)->0)
            ==> return_type_text(ty, false) == seq!['O', 'p', 't', 'i', 'o', 'n', '<', '&', 's', 't', 'r', '>'],
        !is_str_like(ty) && slice_item(ty) is None && option_item(ty) is Some && !is_str_like(option_item(ty)->0)
            && slice_item(option_item(ty)->0) is Some ==> return_type_text(ty, false) == seq![
            'O',
            'p',
            't',
            'i',
            'o',
            'n',
            '<',
            '&',
            '[',
        ] + type_text(slice_item(option_item(ty)->0)->0) + seq![']', '>'],
        !is_str_like(ty) && slice_item(ty) is None && (option_item(ty) is None || (!is_str_like(option_item(ty)->0)
            && slice_item(option_item(ty)->0) is None)) ==> return_type_text(ty, false) == seq!['&'] + type_text(ty),
        (option_item(ty) is Some && !is_str_like(ty) && slice_item(ty) is None && (is_str_like(option_item(ty)->0)
            || slice_item(option_item(ty)->0) is Some)) ==> body_text(field, ty, false) == seq![
            's',
            'e',
            'l',
            'f',
            '.',
        ] + field + seq!['.', 'a', 's', '_', 'd', 'e', 'r', 'e', 'f', '(', ')'],
        !(option_item(ty) is Some && !is_str_like(ty) && slice_item(ty) is None && (is_str_like(option_item(ty)->0)
            || slice_item(option_item(ty)->0) is Some)) ==> body_text(field, ty, false) == seq![
            '&',
            's',
            'e',
            'l',
            'f',
            '.',
        ] + field,
{
    reveal_strlit("&str");
    reveal_strlit("&[");
    reveal_strlit("]");
    reveal_strlit("]>");
    reveal_strlit("&");
    reveal_strlit("Option<&str>");
    reveal_strlit("Option<&[");
    reveal_strlit("self.");
    reveal_strlit("&self.");
    reveal_strlit(".as_deref()");
    assert("&str"@ =~= seq!['&', 's', 't', 'r']);
    assert("&["@ =~= seq!['&', '[']);
    assert("]"@ =~= seq![']']);
    assert("]>"@ =~= seq![']', '>']);
    assert("&"@ =~= seq!['&']);
    assert("Option<&str>"@ =~= seq!['O', 'p', 't', 'i', 'o', 'n', '<', '&', 's', 't', 'r', '>']);
    assert("Option<&["@ =~= seq!['O', 'p', 't', 'i', 'o', 'n', '<', '&', '[']);
    assert("self."@ =~= seq!['s', 'e', 'l', 'f', '.']);
    assert("&self."@ =~= seq!['&', 's', 'e', 'l', 'f', '.']);
    assert(".as_deref()"@ =~= seq!['.', 'a', 's', '_', 'd', 'e', 'r', 'e', 'f', '(', ')']);
}

} // verus!
