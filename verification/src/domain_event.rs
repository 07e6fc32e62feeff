//! What the `DomainEvent` derive generates for a struct or an enum: where the
//! aggregate id's type is read from, the accessors of `#[field]` fields, the
//! event type of each value, and the shape of the `Serialize` impl; and the
//! inputs the derive refuses, each with the message it is refused with.

use vstd::prelude::*;

use crate::fields::{
    FieldModel, FieldOptionError, FieldsError, FieldsFailure, GetterModel, check_fields, field_is_marked, fields_error,
    generate_fields, is_getter_for, is_marked, marked_fields, option_error_message,
};
use crate::naming::{enum_event_types, struct_event_type, struct_event_type_of, variant_event_type};
use crate::text::{owned, str_equals};

verus! {

/// A variant of an enum: its name and its fields.
pub struct VariantModel {
    pub ident: String,
    pub fields: Vec<FieldModel>,
}

/// The body of the type being derived.
pub enum DataModel {
    Struct(Vec<FieldModel>),
    Enum(Vec<VariantModel>),
    Union,
}

/// The kind of one generic parameter of the type being derived.
pub enum GenericParamKind {
    Type,
    Lifetime,
    Const,
}

/// The type that `#[derive(DomainEvent)]` is applied to.
pub struct DeriveInputModel {
    pub ident: String,
    pub generic_params: Vec<GenericParamKind>,
    pub data: DataModel,
}

/// Why the derive refuses its input.
pub enum DeriveError {
    /// A union, reached while shaping the `Serialize` impl.
    Unreachable,
    /// A union.
    Unsupported,
    /// A field without a name, reached while shaping the `Serialize` impl.
    UnnamedField,
    /// A field without a name, reached while looking for `aggregate_id`.
    UnwrapNone,
    /// A struct without an `aggregate_id` field.
    MissingAggregateId,
    /// An enum without variants.
    NoVariants,
    /// An enum whose first variant has no `aggregate_id` field.
    VariantMissingAggregateId,
    /// A `#[field]` attribute on a field of an enum variant.
    FieldOnVariant,
    /// A struct whose `#[field]` fields cannot get accessors.
    Fields(FieldsError),
}

/// A refusal of the derive, as text.
pub enum DeriveFailure {
    Unreachable,
    Unsupported,
    UnnamedField,
    UnwrapNone,
    MissingAggregateId,
    NoVariants,
    VariantMissingAggregateId,
    FieldOnVariant,
    Fields(FieldsFailure),
}

impl View for DeriveError {
    type V = DeriveFailure;

    open spec fn view(&self) -> DeriveFailure {
        match self {
            DeriveError::Unreachable => DeriveFailure::Unreachable,
            DeriveError::Unsupported => DeriveFailure::Unsupported,
            DeriveError::UnnamedField => DeriveFailure::UnnamedField,
            DeriveError::UnwrapNone => DeriveFailure::UnwrapNone,
            DeriveError::MissingAggregateId => DeriveFailure::MissingAggregateId,
            DeriveError::NoVariants => DeriveFailure::NoVariants,
            DeriveError::VariantMissingAggregateId => DeriveFailure::VariantMissingAggregateId,
            DeriveError::FieldOnVariant => DeriveFailure::FieldOnVariant,
            DeriveError::Fields(e) => DeriveFailure::Fields(e@),
        }
    }
}

/// The outcome of looking for the `aggregate_id` field among fields read in order.
pub enum AggregateIdScan {
    /// Found at this position.
    Found(int),
    /// A field without a name was reached first.
    Unnamed,
    /// No field is named `aggregate_id`.
    Missing,
}

/// Looks for the field named `aggregate_id`, reading the fields in order.
pub open spec fn scan_aggregate_id(fs: Seq<FieldModel>) -> AggregateIdScan
    decreases fs.len(),
{
    if fs.len() == 0 {
        AggregateIdScan::Missing
    } else {
        match fs[0].ident {
            None => AggregateIdScan::Unnamed,
            Some(n) => if n@ == "aggregate_id"@ {
                AggregateIdScan::Found(0)
            } else {
                match scan_aggregate_id(fs.drop_first()) {
                    AggregateIdScan::Found(k) => AggregateIdScan::Found(k + 1),
                    other => other,
                }
            },
        }
    }
}

/// The field named `aggregate_id`.
pub open spec fn is_aggregate_id_field(f: FieldModel) -> bool {
    f.ident matches Some(n) && n@ == "aggregate_id"@
}

/// A named field other than `aggregate_id`, which the scan reads past.
pub open spec fn is_other_named_field(f: FieldModel) -> bool {
    f.ident matches Some(n) && n@ != "aggregate_id"@
}

/// Whether every field has a name.
pub open spec fn all_named(fs: Seq<FieldModel>) -> bool {
    forall|i: int| 0 <= i < fs.len() ==> (#[trigger] fs[i]).ident is Some
}

/// Whether the fields of every variant have names.
pub open spec fn variants_named(vs: Seq<VariantModel>) -> bool {
    forall|i: int| 0 <= i < vs.len() ==> all_named((#[trigger] vs[i]).fields@)
}

/// Whether some field of some variant carries `#[field]`.
pub open spec fn variant_field_marked(vs: Seq<VariantModel>) -> bool {
    exists|i: int, j: int|
        0 <= i < vs.len() && 0 <= j < vs[i].fields@.len() && is_marked(#[trigger] vs[i].fields@[j])
}

/// The refusal met while shaping the `Serialize` impl, made only when `serde` is on.
pub open spec fn serialize_error(d: DeriveInputModel, serde: bool) -> Option<DeriveFailure> {
    if !serde {
        None
    } else {
        match d.data {
            DataModel::Struct(fs) => if all_named(fs@) {
                None
            } else {
                Some(DeriveFailure::UnnamedField)
            },
            DataModel::Enum(vs) => if variants_named(vs@) {
                None
            } else {
                Some(DeriveFailure::UnnamedField)
            },
            DataModel::Union => Some(DeriveFailure::Unreachable),
        }
    }
}

/// The refusal met while looking for the aggregate id: in a struct's fields,
/// or in an enum's first variant.
pub open spec fn aggregate_id_error(d: DeriveInputModel) -> Option<DeriveFailure> {
    match d.data {
        DataModel::Struct(fs) => match scan_aggregate_id(fs@) {
            AggregateIdScan::Found(_) => None,
            AggregateIdScan::Unnamed => Some(DeriveFailure::UnwrapNone),
            AggregateIdScan::Missing => Some(DeriveFailure::MissingAggregateId),
        },
        DataModel::Enum(vs) => if vs@.len() == 0 {
            Some(DeriveFailure::NoVariants)
        } else {
            match scan_aggregate_id(vs@[0].fields@) {
                AggregateIdScan::Found(_) => None,
                AggregateIdScan::Unnamed => Some(DeriveFailure::UnwrapNone),
                AggregateIdScan::Missing => Some(DeriveFailure::VariantMissingAggregateId),
            }
        },
        DataModel::Union => Some(DeriveFailure::Unsupported),
    }
}

/// The refusal met while generating the accessors of `#[field]` fields.
pub open spec fn accessors_error(d: DeriveInputModel) -> Option<DeriveFailure> {
    match d.data {
        DataModel::Struct(fs) => match fields_error(fs@) {
            Some(e) => Some(DeriveFailure::Fields(e)),
            None => None,
        },
        DataModel::Enum(vs) => if variant_field_marked(vs@) {
            Some(DeriveFailure::FieldOnVariant)
        } else {
            None
        },
        DataModel::Union => None,
    }
}

/// Why the derive refuses `d`, if it does: the `Serialize` impl is shaped
/// first, then the aggregate id is looked for, then the accessors are made.
pub open spec fn derive_error(d: DeriveInputModel, serde: bool) -> Option<DeriveFailure> {
    match serialize_error(d, serde) {
        Some(e) => Some(e),
        None => match aggregate_id_error(d) {
            Some(e) => Some(e),
            None => accessors_error(d),
        },
    }
}

/// Where the type of the aggregate id is read from: the field at `field` of
/// the struct, or of the enum's first variant.
pub struct AggregateIdSource {
    pub field: usize,
}

/// The event type of each value of the derived type.
pub enum EventTypes {
    /// The one event type of a struct.
    Struct(String),
    /// The event type of each variant of an enum, in variant order.
    Enum(Vec<String>),
}

/// One arm of the `Serialize` impl of an enum.
pub struct VariantShape {
    pub name: String,
    pub index: u32,
    pub fields: Vec<String>,
}

/// What the `Serialize` impl writes.
pub enum SerializeBody {
    /// A struct, with these field names in order.
    Struct(Vec<String>),
    /// An enum, one arm per variant in order.
    Enum(Vec<VariantShape>),
}

/// The shape of the `Serialize` impl: the name it serializes under, which
/// generic parameters get a `Serialize` bound (the type parameters), and its body.
pub struct SerializePlan {
    pub serialized_name: String,
    pub bounded_params: Vec<bool>,
    pub body: SerializeBody,
}

/// Everything the derive decides for an accepted input.
pub struct DomainEventPlan {
    pub aggregate_id: AggregateIdSource,
    pub getters: Vec<GetterModel>,
    pub event_types: EventTypes,
    pub serialize: Option<SerializePlan>,
}

/// The position of the `aggregate_id` field of an accepted input.
pub open spec fn aggregate_id_position(d: DeriveInputModel) -> int {
    match d.data {
        DataModel::Struct(fs) => scan_aggregate_id(fs@)->Found_0,
        DataModel::Enum(vs) => scan_aggregate_id(vs@[0].fields@)->Found_0,
        DataModel::Union => 0,
    }
}

/// Whether `names` are the names of `fs`, in order.
pub open spec fn names_of(names: Seq<String>, fs: Seq<FieldModel>) -> bool {
    &&& names.len() == fs.len()
    &&& forall|i: int| 0 <= i < fs.len() ==> (#[trigger] names[i])@ == fs[i].ident->0@
}

/// Whether `p` is the `Serialize` impl's shape for `d`.
pub open spec fn is_serialize_plan(p: SerializePlan, d: DeriveInputModel) -> bool {
    &&& p.serialized_name@ == d.ident@
    &&& p.bounded_params@.len() == d.generic_params@.len()
    &&& forall|i: int|
        0 <= i < d.generic_params@.len() ==> (#[trigger] p.bounded_params@[i] <==> d.generic_params@[i] is Type)
    &&& match (p.body, d.data) {
        (SerializeBody::Struct(names), DataModel::Struct(fs)) => names_of(names@, fs@),
        (SerializeBody::Enum(shapes), DataModel::Enum(vs)) => {
            &&& shapes@.len() == vs@.len()
            &&& forall|i: int|
                0 <= i < vs@.len() ==> {
                    &&& (#[trigger] shapes@[i]).name@ == vs@[i].ident@
                    &&& shapes@[i].index == i as u32
                    &&& names_of(shapes@[i].fields@, vs@[i].fields@)
                }
        },
        _ => false,
    }
}

/// Whether `p` is what the derive decides for the accepted input `d`.
pub open spec fn is_plan(p: DomainEventPlan, d: DeriveInputModel, serde: bool) -> bool {
    &&& p.aggregate_id.field == aggregate_id_position(d)
    &&& match d.data {
        DataModel::Struct(fs) => {
            &&& p.getters@.len() == marked_fields(fs@).len()
            &&& forall|j: int|
                0 <= j < p.getters@.len() ==> is_getter_for(#[trigger] p.getters@[j], marked_fields(fs@)[j])
            &&& p.event_types matches EventTypes::Struct(t) && t@ == struct_event_type(d.ident@)
        },
        DataModel::Enum(vs) => {
            &&& p.getters@.len() == 0
            &&& p.event_types matches EventTypes::Enum(ts) && ts@.len() == vs@.len() && forall|i: int|
                0 <= i < vs@.len() ==> (#[trigger] ts@[i])@ == variant_event_type(d.ident@, vs@[i].ident@)
        },
        DataModel::Union => false,
    }
    &&& serde == p.serialize is Some
    &&& p.serialize matches Some(s) ==> is_serialize_plan(s, d)
}

/// Looks for the field named `aggregate_id`, as `scan_aggregate_id` describes it.
pub fn find_aggregate_id(fs: &Vec<FieldModel>) -> (r: Result<usize, DeriveError>)
    ensures
        match r {
            Ok(k) => scan_aggregate_id(fs@) == AggregateIdScan::Found(k as int),
            Err(DeriveError::UnwrapNone) => scan_aggregate_id(fs@) == AggregateIdScan::Unnamed,
            Err(DeriveError::MissingAggregateId) => scan_aggregate_id(fs@) == AggregateIdScan::Missing,
            Err(_) => false,
        },
{
    let mut i: usize = 0;
    while i < fs.len()
        invariant
            i <= fs.len(),
            forall|j: int|
                0 <= j < i ==> is_other_named_field(#[trigger] fs@[j]),
        decreases fs.len() - i,
    {
        match &fs[i].ident {
            None => {
                proof {
                    shifted_scan(fs@, i as int);
                }
                return Err(DeriveError::UnwrapNone);
            },
            Some(n) => {
                if str_equals(n.as_str(), "aggregate_id") {
                    proof {
                        shifted_scan(fs@, i as int);
                    }
                    return Ok(i);
                }
            },
        }
        i = i + 1;
    }
    proof {
        shifted_scan(fs@, fs.len() as int);
    }
    Err(DeriveError::MissingAggregateId)
}

/// The field that the scan finds is the one named `aggregate_id`, and it is
/// the first such field.
pub proof fn found_field_is_aggregate_id(fs: Seq<FieldModel>)
    ensures
        scan_aggregate_id(fs) matches AggregateIdScan::Found(k) ==> {
            &&& 0 <= k < fs.len()
            &&& fs[k].ident matches Some(n) && n@ == "aggregate_id"@
            &&& forall|j: int| 0 <= j < k ==> is_other_named_field(#[trigger] fs[j])
        },
    decreases fs.len(),
{
    if fs.len() > 0 {
        let rest = fs.drop_first();
        found_field_is_aggregate_id(rest);
        if let AggregateIdScan::Found(k) = scan_aggregate_id(fs) {
            if k > 0 {
                assert(rest[k - 1] == fs[k]);
                assert forall|j: int| 0 <= j < k implies is_other_named_field(#[trigger] fs[j]) by {
                    if j > 0 {
                        assert(rest[j - 1] == fs[j]);
                    }
                }
            }
        }
    }
}

/// The scan reports a missing `aggregate_id` only when every field has a
/// name and none is `aggregate_id`; it reports an unnamed field only when a
/// field without a name comes before any `aggregate_id`; and where some field
/// is `aggregate_id` with only named fields before it, the scan finds it.
pub proof fn scan_outcomes(fs: Seq<FieldModel>)
    ensures
        scan_aggregate_id(fs) is Missing ==> forall|i: int| 0 <= i < fs.len() ==> is_other_named_field(#[trigger] fs[i]),
        scan_aggregate_id(fs) is Unnamed ==> exists|k: int|
            0 <= k < fs.len() && (#[trigger] fs[k]).ident is None && forall|j: int|
                0 <= j < k ==> is_other_named_field(#[trigger] fs[j]),
        forall|k: int|
            0 <= k < fs.len() && is_aggregate_id_field(#[trigger] fs[k]) && (forall|j: int|
                0 <= j < k ==> (#[trigger] fs[j]).ident is Some) ==> scan_aggregate_id(fs) is Found,
    decreases fs.len(),
{
    if fs.len() > 0 {
        let rest = fs.drop_first();
        scan_outcomes(rest);
        match fs[0].ident {
            None => {
                assert(fs[0].ident is None);
            },
            Some(n) => {
                if n@ == "aggregate_id"@ {
                } else {
                    if scan_aggregate_id(fs) is Missing {
                        assert forall|i: int| 0 <= i < fs.len() implies is_other_named_field(#[trigger] fs[i]) by {
                            if i > 0 {
                                assert(fs[i] == rest[i - 1]);
                            }
                        }
                    }
                    if scan_aggregate_id(fs) is Unnamed {
                        let k = choose|k: int|
                            0 <= k < rest.len() && (#[trigger] rest[k]).ident is None && forall|j: int|
                                0 <= j < k ==> is_other_named_field(#[trigger] rest[j]);
                        assert(fs[k + 1] == rest[k]);
                        assert forall|j: int| 0 <= j < k + 1 implies is_other_named_field(#[trigger] fs[j]) by {
                            if j > 0 {
                                assert(fs[j] == rest[j - 1]);
                            }
                        }
                    }
                    assert forall|k: int|
                        0 <= k < fs.len() && is_aggregate_id_field(#[trigger] fs[k]) && (
                        forall|j: int| 0 <= j < k ==> (#[trigger] fs[j]).ident is Some) implies scan_aggregate_id(
                        fs,
                    ) is Found by {
                        if k > 0 {
                            assert(rest[k - 1] == fs[k]);
                            assert forall|j: int| 0 <= j < k - 1 implies (#[trigger] rest[j]).ident is Some by {
                                assert(rest[j] == fs[j + 1]);
                            }
                        }
                    }
                }
            },
        }
    }
}

/// What the derive refuses: a union always; a struct whose fields all have
/// names but none is `aggregate_id`; an enum without variants (with `serde`
/// off); and it accepts a struct whose fields all have names, one of them
/// `aggregate_id`, and none of them marked `#[field]`.
pub proof fn derive_refusals(d: DeriveInputModel, serde: bool)
    ensures
        d.data is Union ==> derive_error(d, serde) == Some(
            if serde {
                DeriveFailure::Unreachable
            } else {
                DeriveFailure::Unsupported
            },
        ),
        d.data matches DataModel::Struct(fs) ==> (all_named(fs@) && forall|i: int|
            0 <= i < fs@.len() ==> !is_aggregate_id_field(#[trigger] fs@[i])) ==> derive_error(d, serde) == Some(
            DeriveFailure::MissingAggregateId,
        ),
        d.data matches DataModel::Enum(vs) ==> vs@.len() == 0 && !serde ==> derive_error(d, serde) == Some(
            DeriveFailure::NoVariants,
        ),
        d.data matches DataModel::Struct(fs) ==> (all_named(fs@) && (exists|i: int|
            0 <= i < fs@.len() && is_aggregate_id_field(#[trigger] fs@[i])) && forall|i: int|
            0 <= i < fs@.len() ==> !is_marked(#[trigger] fs@[i])) ==> derive_error(d, serde) is None,
{
    if let DataModel::Struct(fs) = d.data {
        scan_outcomes(fs@);
        if all_named(fs@) {
            if forall|i: int| 0 <= i < fs@.len() ==> !is_aggregate_id_field(#[trigger] fs@[i]) {
                match scan_aggregate_id(fs@) {
                    AggregateIdScan::Found(k) => {
                        found_field_is_aggregate_id(fs@);
                        assert(is_aggregate_id_field(fs@[k]));
                    },
                    AggregateIdScan::Unnamed => {
                        let k = choose|k: int|
                            0 <= k < fs@.len() && (#[trigger] fs@[k]).ident is None && forall|j: int|
                                0 <= j < k ==> is_other_named_field(#[trigger] fs@[j]);
                        assert(fs@[k].ident is Some);
                    },
                    AggregateIdScan::Missing => {},
                }
            }
            if (exists|i: int| 0 <= i < fs@.len() && is_aggregate_id_field(#[trigger] fs@[i])) && forall|i: int|
                0 <= i < fs@.len() ==> !is_marked(#[trigger] fs@[i]) {
                let i = choose|i: int| 0 <= i < fs@.len() && is_aggregate_id_field(#[trigger] fs@[i]);
                assert forall|j: int| 0 <= j < i implies (#[trigger] fs@[j]).ident is Some by {}
                unmarked_fields_are_accepted(fs@);
            }
        }
    }
}

/// Fields none of which carries `#[field]` are never refused for accessors.
proof fn unmarked_fields_are_accepted(fs: Seq<FieldModel>)
    requires
        forall|i: int| 0 <= i < fs.len() ==> !is_marked(#[trigger] fs[i]),
    ensures
        fields_error(fs) is None,
    decreases fs.len(),
{
    if fs.len() > 0 {
        assert(!is_marked(fs[0]));
        assert forall|i: int| 0 <= i < fs.drop_first().len() implies !is_marked(#[trigger] fs.drop_first()[i]) by {
            assert(fs.drop_first()[i] == fs[i + 1]);
        }
        unmarked_fields_are_accepted(fs.drop_first());
    }
}

/// Scanning past named fields other than `aggregate_id` shifts the outcome.
proof fn shifted_scan(fs: Seq<FieldModel>, k: int)
    requires
        0 <= k <= fs.len(),
        forall|j: int| 0 <= j < k ==> is_other_named_field(#[trigger] fs[j]),
    ensures
        scan_aggregate_id(fs) == match scan_aggregate_id(fs.skip(k)) {
            AggregateIdScan::Found(p) => AggregateIdScan::Found(p + k),
            other => other,
        },
    decreases k,
{
    if k == 0 {
        assert(fs.skip(0) =~= fs);
        match scan_aggregate_id(fs) {
            AggregateIdScan::Found(p) => {},
            _ => {},
        }
    } else {
        assert(fs[0] == fs[0]);
        let rest = fs.drop_first();
        assert forall|j: int| 0 <= j < k - 1 implies is_other_named_field(#[trigger] rest[j]) by {
            assert(rest[j] == fs[j + 1]);
        }
        shifted_scan(rest, k - 1);
        assert(rest.skip(k - 1) =~= fs.skip(k));
    }
}


/// Whether every field has a name.
pub fn fields_all_named(fs: &Vec<FieldModel>) -> (r: bool)
    ensures
        r == all_named(fs@),
{
    let mut i: usize = 0;
    while i < fs.len()
        invariant
            i <= fs.len(),
            forall|j: int| 0 <= j < i ==> (#[trigger] fs@[j]).ident is Some,
        decreases fs.len() - i,
    {
        if fs[i].ident.is_none() {
            return false;
        }
        i = i + 1;
    }
    true
}

/// Whether the fields of every variant have names.
pub fn variants_all_named(vs: &Vec<VariantModel>) -> (r: bool)
    ensures
        r == variants_named(vs@),
{
    let mut i: usize = 0;
    while i < vs.len()
        invariant
            i <= vs.len(),
            forall|j: int| 0 <= j < i ==> all_named((#[trigger] vs@[j]).fields@),
        decreases vs.len() - i,
    {
        if !fields_all_named(&vs[i].fields) {
            return false;
        }
        i = i + 1;
    }
    true
}

/// Whether some field of some variant carries `#[field]`.
pub fn any_variant_field_marked(vs: &Vec<VariantModel>) -> (r: bool)
    ensures
        r == variant_field_marked(vs@),
{
    let mut i: usize = 0;
    while i < vs.len()
        invariant
            i <= vs.len(),
            forall|a: int, b: int|
                0 <= a < i && 0 <= b < vs@[a].fields@.len() ==> !is_marked(#[trigger] vs@[a].fields@[b]),
        decreases vs.len() - i,
    {
        let fs = &vs[i].fields;
        let mut j: usize = 0;
        while j < fs.len()
            invariant
                i < vs.len(),
                fs == &vs@[i as int].fields,
                j <= fs.len(),
                forall|b: int| 0 <= b < j ==> !is_marked(#[trigger] fs@[b]),
            decreases fs.len() - j,
        {
            if field_is_marked(&fs[j]) {
                assert(is_marked(vs@[i as int].fields@[j as int]));
                return true;
            }
            j = j + 1;
        }
        i = i + 1;
    }
    false
}

/// Why the derive refuses `d`, as `derive_error` describes it.
pub fn check_domain_event(d: &DeriveInputModel, serde: bool) -> (r: Result<(), DeriveError>)
    ensures
        match r {
            Ok(()) => derive_error(*d, serde) is None,
            Err(e) => derive_error(*d, serde) == Some(e@),
        },
{
    if serde {
        match &d.data {
            DataModel::Struct(fs) => {
                if !fields_all_named(fs) {
                    return Err(DeriveError::UnnamedField);
                }
            },
            DataModel::Enum(vs) => {
                if !variants_all_named(vs) {
                    return Err(DeriveError::UnnamedField);
                }
            },
            DataModel::Union => {
                return Err(DeriveError::Unreachable);
            },
        }
    }
    match &d.data {
        DataModel::Struct(fs) => {
            if let Err(e) = find_aggregate_id(fs) {
                return Err(e);
            }
            match check_fields(fs) {
                Ok(()) => Ok(()),
                Err(e) => Err(DeriveError::Fields(e)),
            }
        },
        DataModel::Enum(vs) => {
            if vs.len() == 0 {
                return Err(DeriveError::NoVariants);
            }
            match find_aggregate_id(&vs[0].fields) {
                Ok(_) => {},
                Err(DeriveError::MissingAggregateId) => {
                    return Err(DeriveError::VariantMissingAggregateId);
                },
                Err(e) => {
                    return Err(e);
                },
            }
            if any_variant_field_marked(vs) {
                Err(DeriveError::FieldOnVariant)
            } else {
                Ok(())
            }
        },
        DataModel::Union => Err(DeriveError::Unsupported),
    }
}

/// The message with which the derive reports a refusal.
pub fn derive_error_message(e: &DeriveError) -> (r: String)
    ensures
        r@ == match e {
            DeriveError::Unreachable => "internal error: entered unreachable code"@,
            DeriveError::Unsupported => "Only structs and enums are supported"@,
            DeriveError::UnnamedField => "DomainEvent only supports named fields"@,
            DeriveError::UnwrapNone => "called `Option::unwrap()` on a `None` value"@,
            DeriveError::MissingAggregateId => "Struct must have 'aggregate_id' field"@,
            DeriveError::NoVariants => "Enum must have variants"@,
            DeriveError::VariantMissingAggregateId => "Enum variants must have 'aggregate_id' field"@,
            DeriveError::FieldOnVariant => "#[field] is not supported on enum variants"@,
            DeriveError::Fields(FieldsError::UnnamedField) => "called `Option::unwrap()` on a `None` value"@,
            DeriveError::Fields(FieldsError::Options(FieldOptionError::Unrecognised)) =>
                "unrecognised `#[field]` option, expected `copy`"@,
            DeriveError::Fields(FieldsError::Options(FieldOptionError::Syntax(m))) => m@,
        },
{
    match e {
        DeriveError::Unreachable => owned("internal error: entered unreachable code"),
        DeriveError::Unsupported => owned("Only structs and enums are supported"),
        DeriveError::UnnamedField => owned("DomainEvent only supports named fields"),
        DeriveError::UnwrapNone => owned("called `Option::unwrap()` on a `None` value"),
        DeriveError::MissingAggregateId => owned("Struct must have 'aggregate_id' field"),
        DeriveError::NoVariants => owned("Enum must have variants"),
        DeriveError::VariantMissingAggregateId => owned("Enum variants must have 'aggregate_id' field"),
        DeriveError::FieldOnVariant => owned("#[field] is not supported on enum variants"),
        DeriveError::Fields(FieldsError::UnnamedField) => owned("called `Option::unwrap()` on a `None` value"),
        DeriveError::Fields(FieldsError::Options(o)) => option_error_message(o),
    }
}

/// The names of fields that all have one, in order.
pub fn field_names(fs: &Vec<FieldModel>) -> (r: Vec<String>)
    requires
        all_named(fs@),
    ensures
        names_of(r@, fs@),
{
    let mut r: Vec<String> = Vec::new();
    let mut i: usize = 0;
    while i < fs.len()
        invariant
            i <= fs.len(),
            all_named(fs@),
            r@.len() == i,
            forall|j: int| 0 <= j < i ==> (#[trigger] r@[j])@ == fs@[j].ident->0@,
        decreases fs.len() - i,
    {
        assert(fs@[i as int].ident is Some);
        let name = fs[i].ident.as_ref().unwrap();
        r.push(owned(name.as_str()));
        i = i + 1;
    }
    r
}

/// Which generic parameters get a `Serialize` bound: the type parameters.
pub fn serialize_bounds(params: &Vec<GenericParamKind>) -> (r: Vec<bool>)
    ensures
        r@.len() == params@.len(),
        forall|i: int| 0 <= i < params@.len() ==> (#[trigger] r@[i] <==> params@[i] is Type),
{
    let mut r: Vec<bool> = Vec::new();
    let mut i: usize = 0;
    while i < params.len()
        invariant
            i <= params.len(),
            r@.len() == i,
            forall|j: int| 0 <= j < i ==> (#[trigger] r@[j] <==> params@[j] is Type),
        decreases params.len() - i,
    {
        let bounded = match params[i] {
            GenericParamKind::Type => true,
            _ => false,
        };
        r.push(bounded);
        i = i + 1;
    }
    r
}

/// The shape of the `Serialize` impl of a type whose fields all have names.
pub fn serialize_plan(d: &DeriveInputModel) -> (r: SerializePlan)
    requires
        serialize_error(*d, true) is None,
    ensures
        is_serialize_plan(r, *d),
{
    let bounded_params = serialize_bounds(&d.generic_params);
    let body = match &d.data {
        DataModel::Struct(fs) => SerializeBody::Struct(field_names(fs)),
        DataModel::Enum(vs) => {
            let mut shapes: Vec<VariantShape> = Vec::new();
            let mut i: usize = 0;
            while i < vs.len()
                invariant
                    i <= vs.len(),
                    variants_named(vs@),
                    shapes@.len() == i,
                    forall|j: int|
                        0 <= j < i ==> {
                            &&& (#[trigger] shapes@[j]).name@ == vs@[j].ident@
                            &&& shapes@[j].index == j as u32
                            &&& names_of(shapes@[j].fields@, vs@[j].fields@)
                        },
                decreases vs.len() - i,
            {
                assert(all_named(vs@[i as int].fields@));
                let fields = field_names(&vs[i].fields);
                let index: u32 = i as u32;
                shapes.push(VariantShape { name: owned(vs[i].ident.as_str()), index, fields });
                i = i + 1;
            }
            SerializeBody::Enum(shapes)
        },
        DataModel::Union => SerializeBody::Struct(Vec::new()),
    };
    SerializePlan { serialized_name: owned(d.ident.as_str()), bounded_params, body }
}

/// What the derive generates for an input it accepts: for a struct, the
/// event type `CreatedAccount` → `created-account` and the accessors of its
/// `#[field]` fields; for an enum, one event type per variant,
/// `AccountEvent::Created` → `account-created`; and, with `serde` on, the
/// shape of the `Serialize` impl.
pub fn generate_domain_event(d: &DeriveInputModel, serde: bool) -> (r: DomainEventPlan)
    requires
        derive_error(*d, serde) is None,
    ensures
        is_plan(r, *d, serde),
{
    let serialize = if serde {
        Some(serialize_plan(d))
    } else {
        None
    };
    match &d.data {
        DataModel::Struct(fs) => {
            let field = match find_aggregate_id(fs) {
                Ok(k) => k,
                Err(_) => 0,
            };
            let getters = generate_fields(fs);
            let event_type = struct_event_type_of(d.ident.as_str());
            DomainEventPlan {
                aggregate_id: AggregateIdSource { field },
                getters,
                event_types: EventTypes::Struct(event_type),
                serialize,
            }
        },
        DataModel::Enum(vs) => {
            let field = match find_aggregate_id(&vs[0].fields) {
                Ok(k) => k,
                Err(_) => 0,
            };
            let mut names: Vec<String> = Vec::new();
            let mut i: usize = 0;
            while i < vs.len()
                invariant
                    i <= vs.len(),
                    names@.len() == i,
                    forall|j: int| 0 <= j < i ==> (#[trigger] names@[j])@ == vs@[j].ident@,
                decreases vs.len() - i,
            {
                names.push(owned(vs[i].ident.as_str()));
                i = i + 1;
            }
            let event_types = enum_event_types(d.ident.as_str(), &names);
            DomainEventPlan {
                aggregate_id: AggregateIdSource { field },
                getters: Vec::new(),
                event_types: EventTypes::Enum(event_types),
                serialize,
            }
        },
        DataModel::Union => {
            DomainEventPlan {
                aggregate_id: AggregateIdSource { field: 0 },
                getters: Vec::new(),
                event_types: EventTypes::Struct(String::new()),
                serialize,
            }
        },
    }
}

} // verus!
