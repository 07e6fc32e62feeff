//! The naming rules behind `event_type`: a type's name in kebab case, with a
//! trailing `Event`/`Events` dropped; for an enum, the enum's name and the
//! variant's name joined by a hyphen.

use vstd::prelude::*;

use crate::text::{owned, str_equals};

verus! {

/// An ASCII capital letter.
pub open spec fn is_capital(c: char) -> bool {
    'A' <= c <= 'Z'
}

/// The lower-case form of an ASCII capital letter; any other character is kept.
pub open spec fn lower(c: char) -> char {
    if is_capital(c) {
        ((c as u32) + 32) as char
    } else {
        c
    }
}

/// What one character of a name becomes in kebab case: a capital letter is
/// lowered and, unless it starts the name, preceded by a hyphen.
pub open spec fn kebab_piece(c: char, first: bool) -> Seq<char> {
    if is_capital(c) && !first {
        seq!['-', lower(c)]
    } else {
        seq![lower(c)]
    }
}

/// `CreatedAccount` in kebab case is `created-account`.
pub open spec fn kebab(s: Seq<char>) -> Seq<char>
    decreases s.len(),
{
    if s.len() == 0 {
        Seq::empty()
    } else {
        kebab(s.drop_last()) + kebab_piece(s.last(), s.len() == 1)
    }
}

pub open spec fn event_word() -> Seq<char> {
    seq!['e', 'v', 'e', 'n', 't']
}

pub open spec fn events_word() -> Seq<char> {
    seq!['e', 'v', 'e', 'n', 't', 's']
}

/// Whether `s` ends with a hyphen followed by `word`.
pub open spec fn ends_with_word(s: Seq<char>, word: Seq<char>) -> bool {
    &&& s.len() > word.len()
    &&& s[s.len() - word.len() - 1] == '-'
    &&& s.subrange(s.len() - word.len(), s.len() as int) == word
}

/// A kebab-case name without its trailing `-event` or `-events`; a name that
/// is nothing but `event` or `events` becomes empty.
pub open spec fn strip_event(s: Seq<char>) -> Seq<char> {
    if s == event_word() || s == events_word() {
        Seq::empty()
    } else if ends_with_word(s, events_word()) {
        s.subrange(0, s.len() - 7)
    } else if ends_with_word(s, event_word()) {
        s.subrange(0, s.len() - 6)
    } else {
        s
    }
}

/// The event type of a struct named `name`.
pub open spec fn struct_event_type(name: Seq<char>) -> Seq<char> {
    strip_event(kebab(name))
}

/// The event type of variant `variant` of an enum named `name`.
pub open spec fn variant_event_type(name: Seq<char>, variant: Seq<char>) -> Seq<char> {
    let prefix = struct_event_type(name);
    if prefix.len() == 0 {
        kebab(variant)
    } else {
        prefix + seq!['-'] + kebab(variant)
    }
}

/// The lower-case form of `c`.
pub fn lower_char(c: char) -> (r: char)
    ensures
        r == lower(c),
{
    if 'A' <= c && c <= 'Z' {
        let b: u8 = c as u8;
        (b + 32) as char
    } else {
        c
    }
}

/// `s` in kebab case: every ASCII capital letter lowered and, unless it starts
/// the name, preceded by a hyphen.
pub fn to_kebab_case(s: &str) -> (r: String)
    ensures
        r@ == kebab(s@),
{
    let n = s.unicode_len();
    let mut r = String::new();
    let mut i: usize = 0;
    while i < n
        invariant
            n == s@.len(),
            i <= n,
            r@ == kebab(s@.take(i as int)),
        decreases n - i,
    {
        let c = s.get_char(i);
        assert(s@.take(i + 1).drop_last() =~= s@.take(i as int));
        if 'A' <= c && c <= 'Z' && i > 0 {
            r.push('-');
        }
        r.push(lower_char(c));
        i = i + 1;
    }
    assert(s@.take(n as int) =~= s@);
    r
}


/// `s` without a trailing `-event` or `-events`; `event` and `events` alone
/// become empty.
pub fn strip_event_suffix(s: &str) -> (r: String)
    ensures
        r@ == strip_event(s@),
{
    proof {
        reveal_strlit("event");
        reveal_strlit("events");
        assert("event"@ =~= event_word());
        assert("events"@ =~= events_word());
    }
    let n = s.unicode_len();
    if str_equals(s, "event") || str_equals(s, "events") {
        return String::new();
    }
    if n > 6 && s.get_char(n - 7) == '-' && str_equals(s.substring_char(n - 6, n), "events") {
        return owned(s.substring_char(0, n - 7));
    }
    proof {
        if ends_with_word(s@, events_word()) {
            assert(s@.subrange(n - 6, n as int) == events_word());
        }
    }
    if n > 5 && s.get_char(n - 6) == '-' && str_equals(s.substring_char(n - 5, n), "event") {
        return owned(s.substring_char(0, n - 6));
    }
    proof {
        if ends_with_word(s@, event_word()) {
            assert(s@.subrange(n - 5, n as int) == event_word());
        }
    }
    owned(s)
}

/// The event type of a struct named `name`: `CreatedAccount` gives
/// `created-account`, `AccountOpenedEvent` gives `account-opened`.
pub fn struct_event_type_of(name: &str) -> (r: String)
    ensures
        r@ == struct_event_type(name@),
{
    let kebab_name = to_kebab_case(name);
    strip_event_suffix(kebab_name.as_str())
}

/// The event type of a variant whose enum's event prefix is `prefix`:
/// `account` and `Created` give `account-created`; an empty prefix gives the
/// variant's own kebab-case name.
pub fn prefixed_event_type(prefix: &str, variant: &str) -> (r: String)
    ensures
        r@ == (if prefix@.len() == 0 {
            kebab(variant@)
        } else {
            prefix@ + seq!['-'] + kebab(variant@)
        }),
{
    let variant_kebab = to_kebab_case(variant);
    if prefix.unicode_len() == 0 {
        variant_kebab
    } else {
        let mut r = owned(prefix);
        r.push('-');
        r.append(variant_kebab.as_str());
        r
    }
}

/// The event types of the variants of an enum named `name`, in the order of
/// `variants`: `AccountEvent` with `Created` and `Updated` gives
/// `account-created` and `account-updated`.
pub fn enum_event_types(name: &str, variants: &Vec<String>) -> (r: Vec<String>)
    ensures
        r.len() == variants.len(),
        forall|i: int| 0 <= i < r.len() ==> #[trigger] r[i]@ == variant_event_type(name@, variants[i]@),
{
    let prefix = struct_event_type_of(name);
    let mut r: Vec<String> = Vec::new();
    let mut i: usize = 0;
    while i < variants.len()
        invariant
            i <= variants.len(),
            prefix@ == struct_event_type(name@),
            r.len() == i,
            forall|j: int| 0 <= j < i ==> #[trigger] r[j]@ == variant_event_type(name@, variants[j]@),
        decreases variants.len() - i,
    {
        let t = prefixed_event_type(prefix.as_str(), variants[i].as_str());
        r.push(t);
        i = i + 1;
    }
    r
}

/// A kebab-case name holds no capital letter.
pub proof fn kebab_has_no_capitals(s: Seq<char>)
    ensures
        forall|i: int| 0 <= i < kebab(s).len() ==> !is_capital(#[trigger] kebab(s)[i]),
    decreases s.len(),
{
    if s.len() > 0 {
        kebab_has_no_capitals(s.drop_last());
        let a = kebab(s.drop_last());
        let b = kebab_piece(s.last(), s.len() == 1);
        assert forall|i: int| 0 <= i < kebab(s).len() implies !is_capital(#[trigger] kebab(s)[i]) by {
            if i >= a.len() {
                assert(kebab(s)[i] == b[i - a.len()]);
            } else {
                assert(kebab(s)[i] == a[i]);
            }
        }
    }
}

/// A name without capital letters is already in kebab case.
pub proof fn kebab_keeps_lower_case(s: Seq<char>)
    requires
        forall|i: int| 0 <= i < s.len() ==> !is_capital(#[trigger] s[i]),
    ensures
        kebab(s) == s,
    decreases s.len(),
{
    if s.len() > 0 {
        kebab_keeps_lower_case(s.drop_last());
        assert(s.drop_last().push(s.last()) =~= s);
    }
}

/// Converting to kebab case twice gives what converting once gives.
pub proof fn kebab_is_idempotent(s: Seq<char>)
    ensures
        kebab(kebab(s)) == kebab(s),
{
    kebab_has_no_capitals(s);
    kebab_keeps_lower_case(kebab(s));
}

/// Dropping the `Event` suffix leaves a prefix of the kebab-case name.
pub proof fn event_type_is_prefix_of_kebab_name(name: Seq<char>)
    ensures
        struct_event_type(name).len() <= kebab(name).len(),
        struct_event_type(name) == kebab(name).subrange(0, struct_event_type(name).len() as int),
{
    let k = kebab(name);
    if k == event_word() || k == events_word() {
        assert(Seq::<char>::empty() =~= k.subrange(0, 0));
    } else if ends_with_word(k, events_word()) {
    } else if ends_with_word(k, event_word()) {
    } else {
        assert(k =~= k.subrange(0, k.len() as int));
    }
}

/// Two variants of one enum share an event type only when their names agree
/// in kebab case.
pub proof fn variant_event_types_are_distinct(name: Seq<char>, v1: Seq<char>, v2: Seq<char>)
    requires
        kebab(v1) != kebab(v2),
    ensures
        variant_event_type(name, v1) != variant_event_type(name, v2),
{
    let p = struct_event_type(name);
    if p.len() != 0 {
        let a = p + seq!['-'] + kebab(v1);
        let b = p + seq!['-'] + kebab(v2);
        if a == b {
            assert(kebab(v1) =~= a.subrange(p.len() + 1int, a.len() as int));
            assert(kebab(v2) =~= b.subrange(p.len() + 1int, b.len() as int));
        }
    }
}

/// Lowering turns an ASCII capital into the small letter 32 code points
/// above it, and keeps every other character.
pub proof fn lower_law(c: char)
    ensures
        is_capital(c) ==> lower(c) as u32 == c as u32 + 32 && 'a' <= lower(c) <= 'z',
        !is_capital(c) ==> lower(c) == c,
{
}

/// Every capital letter after the first character starts a new word: adding
/// a capital to a non-empty name adds a hyphen and the lowered capital,
/// whatever character precedes it; adding any other character adds it as it
/// is; a name of one character is that character lowered.
pub proof fn kebab_step(s: Seq<char>, c: char)
    ensures
        kebab(seq![c]) == seq![lower(c)],
        s.len() > 0 && is_capital(c) ==> kebab(s.push(c)) == kebab(s) + seq!['-', lower(c)],
        !is_capital(c) ==> kebab(s.push(c)) == kebab(s).push(c),
{
    assert(s.push(c).drop_last() =~= s);
    assert(seq![c].drop_last() =~= Seq::<char>::empty());
    assert(kebab(seq![c].drop_last()) =~= Seq::<char>::empty());
    assert(kebab_piece(c, true) == seq![lower(c)]);
    assert(Seq::<char>::empty() + seq![lower(c)] =~= seq![lower(c)]);
    assert(kebab(s) + seq![c] =~= kebab(s).push(c));
}

/// One hyphen is added per capital letter after the first character: the
/// kebab form is as long as the name plus the number of those capitals.
pub proof fn kebab_length(s: Seq<char>)
    ensures
        s.len() == 0 ==> kebab(s).len() == 0,
        s.len() > 0 ==> kebab(s).len() == s.len() + s.skip(1).filter(|c: char| is_capital(c)).len(),
    decreases s.len(),
{
    reveal_with_fuel(Seq::<_>::filter, 1);
    if s.len() == 1 {
        assert(s.drop_last().len() == 0);
        assert(kebab(s.drop_last()).len() == 0);
        assert(s.skip(1).len() == 0);
        assert(s.skip(1).filter(|c: char| is_capital(c)).len() == 0);
    } else if s.len() > 1 {
        let t = s.drop_last();
        kebab_length(t);
        let f = |c: char| is_capital(c);
        assert(s.skip(1).drop_last() =~= t.skip(1));
        assert(s.skip(1).last() == s.last());
        assert(s.skip(1).len() > 0);
        assert(s.skip(1).filter(f) == if f(s.skip(1).last()) {
            s.skip(1).drop_last().filter(f).push(s.skip(1).last())
        } else {
            s.skip(1).drop_last().filter(f)
        });
        assert(kebab(s) == kebab(t) + kebab_piece(s.last(), false));
    }
}

/// Dropping the suffix removes exactly a trailing `-event`.
pub proof fn strip_event_drops_event(p: Seq<char>)
    ensures
        strip_event(p + seq!['-'] + event_word()) == p,
{
    let a = p + seq!['-'] + event_word();
    assert(a.len() == p.len() + 6);
    assert(a != event_word()) by {
        assert(a.len() != event_word().len());
    }
    assert(a != events_word()) by {
        if a.len() == 6 {
            assert(a[5] == event_word()[4]);
        }
    }
    assert(!ends_with_word(a, events_word())) by {
        if a.len() > 6 {
            assert(a[a.len() - 1] == 't');
            assert(a.subrange(a.len() - 6, a.len() as int)[5] == a[a.len() - 1]);
        }
    }
    assert(a.subrange(a.len() - 5, a.len() as int) =~= event_word());
    assert(a[a.len() - 6] == '-');
    assert(a.subrange(0, a.len() - 6) =~= p);
}

/// Dropping the suffix removes exactly a trailing `-events`.
pub proof fn strip_event_drops_events(p: Seq<char>)
    ensures
        strip_event(p + seq!['-'] + events_word()) == p,
{
    let b = p + seq!['-'] + events_word();
    assert(b.len() == p.len() + 7);
    assert(b != event_word()) by {
        assert(b.len() != event_word().len());
    }
    assert(b != events_word()) by {
        assert(b.len() != events_word().len());
    }
    assert(b.subrange(b.len() - 6, b.len() as int) =~= events_word());
    assert(b[b.len() - 7] == '-');
    assert(b.subrange(0, b.len() - 7) =~= p);
}

/// A name that ends in neither `event` nor `events` is left as it is.
pub proof fn strip_event_keeps_other_names(s: Seq<char>)
    requires
        !(s.len() >= 5 && s.subrange(s.len() - 5, s.len() as int) == event_word()),
        !(s.len() >= 6 && s.subrange(s.len() - 6, s.len() as int) == events_word()),
    ensures
        strip_event(s) == s,
{
    if s == event_word() {
        assert(s.subrange(s.len() - 5, s.len() as int) =~= event_word());
    }
    if s == events_word() {
        assert(s.subrange(s.len() - 6, s.len() as int) =~= events_word());
    }
}

} // verus!
