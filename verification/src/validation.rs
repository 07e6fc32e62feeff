//! Turning failed field validations into a domain error: every message of
//! every failing field becomes one error detail, keyed
//! `error.<aggregate>.invalid-<field>` with underscores as hyphens, and
//! worded `'<field>' <message>`.

use vstd::prelude::*;

use crate::text::owned;

verus! {

/// One detail of a domain error: a translation key and a message.
pub struct ErrorDetail {
    pub key: String,
    pub message: String,
}

/// An error of the domain, made of distinct details.
pub struct DomainError {
    details: Vec<ErrorDetail>,
}

/// The failures of one validated field: the messages of its errors when it
/// is a plain field (an error may have none), or a nested struct or list.
pub enum FieldErrorsKind {
    Field(Vec<Option<String>>),
    Struct,
    List,
}

/// The failures reported for the field named `key`.
pub struct FieldErrors {
    pub key: String,
    pub kind: FieldErrorsKind,
}

/// A detail as a pair of texts.
pub type DetailView = (Seq<char>, Seq<char>);

/// The messages of a field's failures, or `None` for a nested struct or list.
pub type KindView = Option<Seq<Option<Seq<char>>>>;

pub open spec fn detail_view(d: ErrorDetail) -> DetailView {
    (d.key@, d.message@)
}

pub open spec fn option_text(m: Option<String>) -> Option<Seq<char>> {
    match m {
        Some(s) => Some(s@),
        None => None,
    }
}

pub open spec fn kind_view(k: FieldErrorsKind) -> KindView {
    match k {
        FieldErrorsKind::Field(msgs) => Some(Seq::new(msgs@.len(), |j: int| option_text(msgs@[j]))),
        _ => None,
    }
}

/// `key` with every underscore written as a hyphen.
pub open spec fn dashed(key: Seq<char>) -> Seq<char> {
    key.map_values(|c: char| if c == '_' { '-' } else { c })
}

/// The translation key of a failure of field `key` of aggregate `aggregate`.
pub open spec fn error_key(aggregate: Seq<char>, key: Seq<char>) -> Seq<char> {
    "error."@ + aggregate + ".invalid-"@ + dashed(key)
}

/// The message of a failure of field `key`.
pub open spec fn error_message(key: Seq<char>, message: Seq<char>) -> Seq<char> {
    "'"@ + key + "' "@ + message
}

/// Whether `d` is the detail that message `j` of the failures `kind` of field
/// `key` becomes.
pub open spec fn detail_from(aggregate: Seq<char>, key: Seq<char>, kind: KindView, j: int, d: DetailView) -> bool {
    &&& kind matches Some(msgs)
    &&& 0 <= j < msgs.len()
    &&& msgs[j] matches Some(m)
    &&& d == (error_key(aggregate, key), error_message(key, m))
}

/// The details that the failures `entries` become.
pub open spec fn entries_details(aggregate: Seq<char>, entries: Seq<FieldErrors>) -> Set<DetailView> {
    Set::new(
        |d: DetailView|
            exists|i: int, j: int|
                0 <= i < entries.len() && detail_from(
                    aggregate,
                    entries[i].key@,
                    kind_view(entries[i].kind),
                    j,
                    d,
                ),
    )
}

/// The details that failures, given per field name, become.
pub open spec fn content_details(aggregate: Seq<char>, content: Map<Seq<char>, KindView>) -> Set<DetailView> {
    Set::new(
        |d: DetailView|
            exists|k: Seq<char>, j: int| content.dom().contains(k) && detail_from(aggregate, k, content[k], j, d),
    )
}

/// The details held by a sequence of details.
pub open spec fn details_set(s: Seq<ErrorDetail>) -> Set<DetailView> {
    Set::new(|d: DetailView| exists|p: int| 0 <= p < s.len() && detail_view(#[trigger] s[p]) == d)
}

/// Whether no two details of `s` are equal.
pub open spec fn distinct_details(s: Seq<ErrorDetail>) -> bool {
    forall|p: int, q: int|
        0 <= p < s.len() && 0 <= q < s.len() && p != q ==> detail_view(#[trigger] s[p]) != detail_view(
            #[trigger] s[q],
        )
}

impl DomainError {
    /// The details of the error.
    pub closed spec fn detail_set(&self) -> Set<DetailView> {
        details_set(self.details@)
    }

    /// No detail occurs twice.
    #[verifier::type_invariant]
    pub closed spec fn wf(&self) -> bool {
        distinct_details(self.details@)
    }

    /// An error made of the distinct details among `details`.
    pub fn multiple(details: Vec<ErrorDetail>) -> (r: DomainError)
        ensures
            r.wf(),
            r.detail_set() == details_set(details@),
    {
        let mut kept: Vec<ErrorDetail> = Vec::new();
        let mut rest = details;
        let ghost all = rest@;
        while rest.len() > 0
            invariant
                distinct_details(kept@),
                forall|d: DetailView| details_set(kept@).contains(d) ==> details_set(all).contains(d),
                forall|p: int| 0 <= p < all.len() - rest@.len() ==> details_set(kept@).contains(#[trigger] detail_view(all[p])),
                rest@.len() <= all.len(),
                rest@ == all.skip(all.len() - rest@.len()),
            decreases rest@.len(),
        {
            let ghost before = rest@;
            let d = rest.remove(0);
            proof {
                assert(before[0] == all[all.len() - before.len()]);
                assert(rest@ =~= all.skip(all.len() - rest@.len()));
            }
            let mut found = false;
            let mut q: usize = 0;
            while q < kept.len()
                invariant
                    q <= kept.len(),
                    !found ==> forall|r: int| 0 <= r < q ==> detail_view(#[trigger] kept@[r]) != detail_view(d),
                    found ==> details_set(kept@).contains(detail_view(d)),
                decreases kept.len() - q,
            {
                if kept[q].key == d.key && kept[q].message == d.message {
                    found = true;
                    assert(details_set(kept@).contains(detail_view(d))) by {
                        assert(detail_view(kept@[q as int]) == detail_view(d));
                    }
                }
                q = q + 1;
            }
            let ghost kept_before = kept@;
            if !found {
                kept.push(d);
                proof {
                    assert(kept@[kept@.len() - 1] == d);
                    assert forall|x: DetailView| details_set(kept_before).contains(x) implies details_set(kept@).contains(x) by {
                        let p = choose|p: int| 0 <= p < kept_before.len() && detail_view(#[trigger] kept_before[p]) == x;
                        assert(kept@[p] == kept_before[p]);
                    }
                    assert(details_set(kept@).contains(detail_view(d)));
                    assert forall|x: DetailView| details_set(kept@).contains(x) implies details_set(all).contains(x) by {
                        let p = choose|p: int| 0 <= p < kept@.len() && detail_view(#[trigger] kept@[p]) == x;
                        if p < kept_before.len() {
                            assert(kept_before[p] == kept@[p]);
                            assert(details_set(kept_before).contains(x));
                        } else {
                            assert(detail_view(all[all.len() - before.len()]) == x);
                        }
                    }
                }
            }
        }
        proof {
            assert forall|x: DetailView| details_set(all).contains(x) implies details_set(kept@).contains(x) by {
                let p = choose|p: int| 0 <= p < all.len() && detail_view(#[trigger] all[p]) == x;
            }
            assert(details_set(kept@) =~= details_set(all));
        }
        DomainError { details: kept }
    }

    /// The details of the error.
    pub fn details(&self) -> (r: &Vec<ErrorDetail>)
        ensures
            details_set(r@) == self.detail_set(),
            distinct_details(r@),
    {
        proof {
            use_type_invariant(self);
        }
        &self.details
    }
}


/// The translation key of a failure of field `key` of aggregate `aggregate`.
pub fn error_key_of(aggregate: &str, key: &str) -> (r: String)
    ensures
        r@ == error_key(aggregate@, key@),
{
    let mut r = owned("error.");
    r.append(aggregate);
    r.append(".invalid-");
    let ghost head = r@;
    let n = key.unicode_len();
    let mut i: usize = 0;
    while i < n
        invariant
            n == key@.len(),
            i <= n,
            r@ == head + dashed(key@).take(i as int),
        decreases n - i,
    {
        let c = key.get_char(i);
        if c == '_' {
            r.push('-');
        } else {
            r.push(c);
        }
        assert(dashed(key@).take(i + 1) =~= dashed(key@).take(i as int).push(dashed(key@)[i as int]));
        i = i + 1;
    }
    assert(dashed(key@).take(n as int) =~= dashed(key@));
    r
}

/// The message of a failure of field `key`.
pub fn error_message_of(key: &str, message: &str) -> (r: String)
    ensures
        r@ == error_message(key@, message@),
{
    let mut r = owned("'");
    r.append(key);
    r.append("' ");
    r.append(message);
    r
}

/// Every detail already in `s` is still there once `x` is appended.
proof fn details_grow(s: Seq<ErrorDetail>, x: ErrorDetail)
    ensures
        forall|d: DetailView| details_set(s).contains(d) ==> details_set(s.push(x)).contains(d),
        details_set(s.push(x)).contains(detail_view(x)),
{
    assert forall|d: DetailView| details_set(s).contains(d) implies details_set(s.push(x)).contains(d) by {
        let p = choose|p: int| 0 <= p < s.len() && detail_view(#[trigger] s[p]) == d;
        assert(s.push(x)[p] == s[p]);
    }
    assert(s.push(x)[s.len() as int] == x);
}

/// The domain error that the failures `entries` of aggregate `aggregate`
/// become: one detail per message of a failing field, nested structs and
/// lists contributing none.
pub fn domain_error_from(aggregate: &str, entries: &Vec<FieldErrors>) -> (r: DomainError)
    ensures
        r.wf(),
        r.detail_set() == entries_details(aggregate@, entries@),
{
    let ghost target = entries_details(aggregate@, entries@);
    let mut out: Vec<ErrorDetail> = Vec::new();
    let mut i: usize = 0;
    while i < entries.len()
        invariant
            i <= entries.len(),
            target == entries_details(aggregate@, entries@),
            forall|d: DetailView| details_set(out@).contains(d) ==> target.contains(d),
            forall|a: int, b: int, d: DetailView|
                0 <= a < i && detail_from(aggregate@, entries@[a].key@, kind_view(entries@[a].kind), b, d)
                    ==> details_set(out@).contains(d),
        decreases entries.len() - i,
    {
        let entry = &entries[i];
        match &entry.kind {
            FieldErrorsKind::Field(msgs) => {
                let key = error_key_of(aggregate, entry.key.as_str());
                let ghost kv = kind_view(entry.kind);
                let mut j: usize = 0;
                while j < msgs.len()
                    invariant
                        i < entries.len(),
                        entry == &entries@[i as int],
                        entry.kind == FieldErrorsKind::Field(*msgs),
                        kv == kind_view(entry.kind),
                        key@ == error_key(aggregate@, entry.key@),
                        j <= msgs.len(),
                        target == entries_details(aggregate@, entries@),
                        forall|d: DetailView| details_set(out@).contains(d) ==> target.contains(d),
                        forall|a: int, b: int, d: DetailView|
                            0 <= a < i && detail_from(aggregate@, entries@[a].key@, kind_view(entries@[a].kind), b, d)
                                ==> details_set(out@).contains(d),
                        forall|b: int, d: DetailView|
                            0 <= b < j && detail_from(aggregate@, entry.key@, kv, b, d) ==> details_set(out@).contains(d),
                    decreases msgs.len() - j,
                {
                    if let Some(m) = &msgs[j] {
                        let detail = ErrorDetail { key: key.clone(), message: error_message_of(entry.key.as_str(), m.as_str()) };
                        let ghost dv = detail_view(detail);
                        proof {
                            assert(kv->0[j as int] == option_text(msgs@[j as int]));
                            assert(detail_from(aggregate@, entries@[i as int].key@, kind_view(entries@[i as int].kind), j as int, dv));
                            assert(target.contains(dv));
                            details_grow(out@, detail);
                        }
                        out.push(detail);
                    } else {
                        proof {
                            assert(kv->0[j as int] == option_text(msgs@[j as int]));
                        }
                    }
                    j = j + 1;
                }
            },
            _ => {},
        }
        i = i + 1;
    }
    proof {
        assert forall|d: DetailView| target.contains(d) implies details_set(out@).contains(d) by {
            let (a, b) = choose|a: int, b: int|
                0 <= a < entries@.len() && detail_from(aggregate@, entries@[a].key@, kind_view(entries@[a].kind), b, d);
        }
        assert(details_set(out@) =~= target);
    }
    DomainError::multiple(out)
}


#[verifier::external_type_specification]
#[verifier::external_body]
pub struct ExValidationErrors(validator::ValidationErrors);

/// The failures that a `validator::ValidationErrors` holds: for each field
/// name, the messages of its errors, or `None` for a nested struct or list.
pub uninterp spec fn validation_failures(e: validator::ValidationErrors) -> Map<Seq<char>, KindView>;

/// Reads the map inside `validator::ValidationErrors` (its public field `0`,
/// a `HashMap` from field names to `ValidationErrorsKind`) into one entry per
/// field name, in the map's walk order; the order is not stated. Each
/// `Field` kind keeps the `message` of each of its errors; `Struct` and
/// `List` kinds keep nothing.
#[verifier::external_body]
fn field_failures(e: validator::ValidationErrors) -> (r: Vec<FieldErrors>)
    ensures
        forall|i: int|
            0 <= i < r.len() ==> validation_failures(e).dom().contains((#[trigger] r[i]).key@)
                && validation_failures(e)[r[i].key@] == kind_view(r[i].kind),
        forall|k: Seq<char>|
            validation_failures(e).dom().contains(k) ==> exists|i: int| 0 <= i < r.len() && (#[trigger] r[i]).key@ == k,
{
    e.0.into_iter().map(|(key, kind)| FieldErrors {
        key: key.to_string(),
        kind: match kind {
            validator::ValidationErrorsKind::Field(errors) => FieldErrorsKind::Field(
                errors.into_iter().map(|error| error.message.map(|m| m.to_string())).collect(),
            ),
            validator::ValidationErrorsKind::Struct(_) => FieldErrorsKind::Struct,
            validator::ValidationErrorsKind::List(_) => FieldErrorsKind::List,
        },
    }).collect()
}

/// An aggregate of the domain, named for its error keys.
pub trait Aggregate {
    /// The name under which the aggregate's errors are keyed.
    spec fn name_spec() -> Seq<char>;

    /// The name under which the aggregate's errors are keyed.
    fn aggregate_name() -> (r: &'static str)
        ensures
            r@ == Self::name_spec(),
    ;
}

/// Turning the outcome of a validation into a domain outcome.
pub trait ResultValidation<T: Aggregate> {
    fn to_domain_error(self) -> Result<T, DomainError>;
}

/// Entries that list exactly the failures of a map give the details that the
/// map gives.
proof fn entries_match_content(aggregate: Seq<char>, entries: Seq<FieldErrors>, content: Map<Seq<char>, KindView>)
    requires
        forall|i: int|
            0 <= i < entries.len() ==> content.dom().contains((#[trigger] entries[i]).key@)
                && content[entries[i].key@] == kind_view(entries[i].kind),
        forall|k: Seq<char>|
            content.dom().contains(k) ==> exists|i: int| 0 <= i < entries.len() && (#[trigger] entries[i]).key@ == k,
    ensures
        entries_details(aggregate, entries) == content_details(aggregate, content),
{
    assert forall|d: DetailView| entries_details(aggregate, entries).contains(d) implies content_details(aggregate, content).contains(d) by {
        let (i, j) = choose|i: int, j: int|
            0 <= i < entries.len() && detail_from(aggregate, entries[i].key@, kind_view(entries[i].kind), j, d);
        let k = entries[i].key@;
        assert(content.dom().contains(k) && detail_from(aggregate, k, content[k], j, d));
    }
    assert forall|d: DetailView| content_details(aggregate, content).contains(d) implies entries_details(aggregate, entries).contains(d) by {
        let (k, j) = choose|k: Seq<char>, j: int| content.dom().contains(k) && detail_from(aggregate, k, content[k], j, d);
        let i = choose|i: int| 0 <= i < entries.len() && (#[trigger] entries[i]).key@ == k;
        assert(detail_from(aggregate, entries[i].key@, kind_view(entries[i].kind), j, d));
    }
    assert(entries_details(aggregate, entries) =~= content_details(aggregate, content));
}

impl<T: Aggregate> ResultValidation<T> for Result<T, validator::ValidationErrors> {
    /// A successful validation passes its value through; a failed one becomes
    /// the domain error whose details are the failures' messages, keyed by the
    /// aggregate's name.
    fn to_domain_error(self) -> (r: Result<T, DomainError>)
        ensures
            match self {
                Ok(v) => r == Ok::<T, DomainError>(v),
                Err(e) => r matches Err(d) && d.wf() && d.detail_set() == content_details(
                    T::name_spec(),
                    validation_failures(e),
                ),
            },
    {
        match self {
            Ok(v) => Ok(v),
            Err(e) => {
                let ghost content = validation_failures(e);
                let entries = field_failures(e);
                let aggregate = T::aggregate_name();
                let d = domain_error_from(aggregate, &entries);
                proof {
                    entries_match_content(aggregate@, entries@, content);
                }
                Err(d)
            },
        }
    }
}

/// Failures of nested structs and lists add no detail: failures that are all
/// of that kind make an empty error.
pub proof fn nested_failures_add_no_detail(aggregate: Seq<char>, content: Map<Seq<char>, KindView>)
    requires
        forall|k: Seq<char>| content.dom().contains(k) ==> (#[trigger] content[k]) is None,
    ensures
        content_details(aggregate, content) == Set::<DetailView>::empty(),
{
    assert(content_details(aggregate, content) =~= Set::<DetailView>::empty());
}

/// Every underscore of a field's name becomes a hyphen, and every other
/// character is kept: the dashed name has the name's length, a hyphen where
/// the name has an underscore, and the name's own character elsewhere; so it
/// holds no underscore.
pub proof fn every_underscore_becomes_a_hyphen(key: Seq<char>)
    ensures
        dashed(key).len() == key.len(),
        forall|i: int| 0 <= i < key.len() ==> #[trigger] dashed(key)[i] == (if key[i] == '_' { '-' } else { key[i] }),
        forall|i: int| 0 <= i < dashed(key).len() ==> #[trigger] dashed(key)[i] != '_',
{
}

/// An error key is `error.`, the aggregate's name, `.invalid-`, then the
/// field's name with each underscore as a hyphen: after the prefix it holds
/// the field's characters, one for one.
pub proof fn error_key_layout(aggregate: Seq<char>, key: Seq<char>)
    ensures
        error_key(aggregate, key).len() == 6 + aggregate.len() + 9 + key.len(),
        error_key(aggregate, key).take(6) == seq!['e', 'r', 'r', 'o', 'r', '.'],
        error_key(aggregate, key).subrange(6, 6int + aggregate.len()) == aggregate,
        error_key(aggregate, key).subrange(6int + aggregate.len(), 15int + aggregate.len()) == seq![
            '.', 'i', 'n', 'v', 'a', 'l', 'i', 'd', '-',
        ],
        forall|i: int|
            0 <= i < key.len() ==> #[trigger] error_key(aggregate, key)[15int + aggregate.len() + i] == (if key[i] == '_' {
                '-'
            } else {
                key[i]
            }),
{
    reveal_strlit("error.");
    reveal_strlit(".invalid-");
    let k = error_key(aggregate, key);
    assert(k.take(6) =~= seq!['e', 'r', 'r', 'o', 'r', '.']);
    assert(k.subrange(6, 6int + aggregate.len()) =~= aggregate);
    assert(k.subrange(6int + aggregate.len(), 15int + aggregate.len()) =~= seq!['.', 'i', 'n', 'v', 'a', 'l', 'i', 'd', '-']);
}

/// A message is the field's name in single quotes, a space, then the
/// validator's message.
pub proof fn error_message_layout(key: Seq<char>, message: Seq<char>)
    ensures
        error_message(key, message).len() == key.len() + message.len() + 3,
        error_message(key, message)[0] == '\'',
        error_message(key, message).subrange(1, key.len() + 1int) == key,
        error_message(key, message)[key.len() + 1int] == '\'',
        error_message(key, message)[key.len() + 2int] == ' ',
        error_message(key, message).skip(key.len() + 3int) == message,
{
    reveal_strlit("'");
    reveal_strlit("' ");
    let m = error_message(key, message);
    assert(m.subrange(1, key.len() + 1int) =~= key);
    assert(m.skip(key.len() + 3int) =~= message);
}

/// Each message of each failing field is one detail of the error, keyed and
/// worded by the field's name; and every detail is one of those.
pub proof fn details_are_the_messages(aggregate: Seq<char>, content: Map<Seq<char>, KindView>, k: Seq<char>, j: int)
    requires
        content.dom().contains(k),
        content[k] is Some,
        0 <= j < content[k]->0.len(),
        content[k]->0[j] is Some,
    ensures
        content_details(aggregate, content).contains(
            (error_key(aggregate, k), error_message(k, content[k]->0[j]->0)),
        ),
        forall|d: DetailView|
            content_details(aggregate, content).contains(d) ==> exists|k2: Seq<char>, j2: int|
                content.dom().contains(k2) && content[k2] is Some && 0 <= j2 < content[k2]->0.len()
                    && content[k2]->0[j2] is Some && d == (
                    error_key(aggregate, k2),
                    error_message(k2, content[k2]->0[j2]->0),
                ),
{
    let d = (error_key(aggregate, k), error_message(k, content[k]->0[j]->0));
    assert(detail_from(aggregate, k, content[k], j, d));
}

} // verus!
