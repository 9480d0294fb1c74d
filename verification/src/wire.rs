use crate::characteristic::Characteristic;
use crate::format::Format;
use crate::hap_type::HapType;
use crate::hooks::{Readable, Updatable};
use crate::json::{views_of, Json, JsonView};
use crate::model::{json_of_all, opt_view, ErasedView};
use crate::perm::Perm;
use crate::unit::Unit;
use crate::value::HapValue;
use vstd::prelude::*;

verus! {

/// How many fields the record of a characteristic can have.
pub const FIELD_COUNT: usize = 15;

/// The fields of a characteristic's record on the wire, in the order in
/// which they are written.
#[derive(Clone, Copy, Debug, PartialEq, Eq, Structural)]
pub enum FieldKind {
    Iid,
    Type,
    Format,
    Perms,
    Description,
    Ev,
    Value,
    Unit,
    MaxValue,
    MinValue,
    MinStep,
    MaxLen,
    MaxDataLen,
    ValidValues,
    ValidValuesRange,
}

impl FieldKind {
    /// The place of the field among the fields: 0 for the first.
    pub open spec fn position(self) -> int {
        match self {
            FieldKind::Iid => 0,
            FieldKind::Type => 1,
            FieldKind::Format => 2,
            FieldKind::Perms => 3,
            FieldKind::Description => 4,
            FieldKind::Ev => 5,
            FieldKind::Value => 6,
            FieldKind::Unit => 7,
            FieldKind::MaxValue => 8,
            FieldKind::MinValue => 9,
            FieldKind::MinStep => 10,
            FieldKind::MaxLen => 11,
            FieldKind::MaxDataLen => 12,
            FieldKind::ValidValues => 13,
            FieldKind::ValidValuesRange => 14,
        }
    }

    /// The field at the given place, where there is one.
    pub open spec fn at(position: int) -> FieldKind {
        if position == 0 {
            FieldKind::Iid
        } else if position == 1 {
            FieldKind::Type
        } else if position == 2 {
            FieldKind::Format
        } else if position == 3 {
            FieldKind::Perms
        } else if position == 4 {
            FieldKind::Description
        } else if position == 5 {
            FieldKind::Ev
        } else if position == 6 {
            FieldKind::Value
        } else if position == 7 {
            FieldKind::Unit
        } else if position == 8 {
            FieldKind::MaxValue
        } else if position == 9 {
            FieldKind::MinValue
        } else if position == 10 {
            FieldKind::MinStep
        } else if position == 11 {
            FieldKind::MaxLen
        } else if position == 12 {
            FieldKind::MaxDataLen
        } else if position == 13 {
            FieldKind::ValidValues
        } else {
            FieldKind::ValidValuesRange
        }
    }

    /// The field at the given place.
    pub fn from_position(position: usize) -> (kind: FieldKind)
        requires
            position < FIELD_COUNT,
        ensures
            kind == FieldKind::at(position as int),
            kind.position() == position,
    {
        if position == 0 {
            FieldKind::Iid
        } else if position == 1 {
            FieldKind::Type
        } else if position == 2 {
            FieldKind::Format
        } else if position == 3 {
            FieldKind::Perms
        } else if position == 4 {
            FieldKind::Description
        } else if position == 5 {
            FieldKind::Ev
        } else if position == 6 {
            FieldKind::Value
        } else if position == 7 {
            FieldKind::Unit
        } else if position == 8 {
            FieldKind::MaxValue
        } else if position == 9 {
            FieldKind::MinValue
        } else if position == 10 {
            FieldKind::MinStep
        } else if position == 11 {
            FieldKind::MaxLen
        } else if position == 12 {
            FieldKind::MaxDataLen
        } else if position == 13 {
            FieldKind::ValidValues
        } else {
            FieldKind::ValidValuesRange
        }
    }

    /// The name of the field on the wire.
    pub open spec fn wire_name(self) -> Seq<char> {
        match self {
            FieldKind::Iid => "iid"@,
            FieldKind::Type => "type"@,
            FieldKind::Format => "format"@,
            FieldKind::Perms => "perms"@,
            FieldKind::Description => "description"@,
            FieldKind::Ev => "ev"@,
            FieldKind::Value => "value"@,
            FieldKind::Unit => "unit"@,
            FieldKind::MaxValue => "maxValue"@,
            FieldKind::MinValue => "minValue"@,
            FieldKind::MinStep => "minStep"@,
            FieldKind::MaxLen => "maxLen"@,
            FieldKind::MaxDataLen => "maxDataLen"@,
            FieldKind::ValidValues => "valid-values"@,
            FieldKind::ValidValuesRange => "valid-values-range"@,
        }
    }

    /// The name of the field on the wire.
    pub fn as_str(&self) -> (s: &'static str)
        ensures
            s@ == self.wire_name(),
    {
        match self {
            FieldKind::Iid => "iid",
            FieldKind::Type => "type",
            FieldKind::Format => "format",
            FieldKind::Perms => "perms",
            FieldKind::Description => "description",
            FieldKind::Ev => "ev",
            FieldKind::Value => "value",
            FieldKind::Unit => "unit",
            FieldKind::MaxValue => "maxValue",
            FieldKind::MinValue => "minValue",
            FieldKind::MinStep => "minStep",
            FieldKind::MaxLen => "maxLen",
            FieldKind::MaxDataLen => "maxDataLen",
            FieldKind::ValidValues => "valid-values",
            FieldKind::ValidValuesRange => "valid-values-range",
        }
    }

    /// No two fields share a wire name.
    pub proof fn lemma_wire_name_injective(a: FieldKind, b: FieldKind)
        requires
            a.wire_name() == b.wire_name(),
        ensures
            a == b,
    {
        reveal_strlit("iid");
        reveal_strlit("type");
        reveal_strlit("format");
        reveal_strlit("perms");
        reveal_strlit("description");
        reveal_strlit("ev");
        reveal_strlit("value");
        reveal_strlit("unit");
        reveal_strlit("maxValue");
        reveal_strlit("minValue");
        reveal_strlit("minStep");
        reveal_strlit("maxLen");
        reveal_strlit("maxDataLen");
        reveal_strlit("valid-values");
        reveal_strlit("valid-values-range");
        assert("iid"@.len() == 3);
        assert("type"@.len() == 4 && "type"@[0] == 't');
        assert("format"@.len() == 6 && "format"@[0] == 'f');
        assert("perms"@.len() == 5 && "perms"@[0] == 'p');
        assert("description"@.len() == 11);
        assert("ev"@.len() == 2);
        assert("value"@.len() == 5 && "value"@[0] == 'v');
        assert("unit"@.len() == 4 && "unit"@[0] == 'u');
        assert("maxValue"@.len() == 8 && "maxValue"@[1] == 'a');
        assert("minValue"@.len() == 8 && "minValue"@[1] == 'i');
        assert("minStep"@.len() == 7);
        assert("maxLen"@.len() == 6 && "maxLen"@[0] == 'm');
        assert("maxDataLen"@.len() == 10);
        assert("valid-values"@.len() == 12);
        assert("valid-values-range"@.len() == 18);
    }
}

/// One field of a characteristic's record on the wire, with what it holds.
#[derive(Debug, PartialEq)]
pub enum Field {
    Iid(u64),
    Type(HapType),
    Format(Format),
    Perms(Vec<Perm>),
    Description(String),
    Ev(bool),
    Value(Json),
    Unit(Unit),
    MaxValue(Json),
    MinValue(Json),
    MinStep(Json),
    MaxLen(u16),
    MaxDataLen(u32),
    ValidValues(Vec<Json>),
    ValidValuesRange(Json, Json),
}

/// What a `Field` holds.
pub enum FieldView {
    Iid(u64),
    Type(HapType),
    Format(Format),
    Perms(Seq<Perm>),
    Description(Seq<char>),
    Ev(bool),
    Value(JsonView),
    Unit(Unit),
    MaxValue(JsonView),
    MinValue(JsonView),
    MinStep(JsonView),
    MaxLen(u16),
    MaxDataLen(u32),
    ValidValues(Seq<JsonView>),
    ValidValuesRange(JsonView, JsonView),
}

impl FieldView {
    /// Which field this is.
    pub open spec fn kind(self) -> FieldKind {
        match self {
            FieldView::Iid(_) => FieldKind::Iid,
            FieldView::Type(_) => FieldKind::Type,
            FieldView::Format(_) => FieldKind::Format,
            FieldView::Perms(_) => FieldKind::Perms,
            FieldView::Description(_) => FieldKind::Description,
            FieldView::Ev(_) => FieldKind::Ev,
            FieldView::Value(_) => FieldKind::Value,
            FieldView::Unit(_) => FieldKind::Unit,
            FieldView::MaxValue(_) => FieldKind::MaxValue,
            FieldView::MinValue(_) => FieldKind::MinValue,
            FieldView::MinStep(_) => FieldKind::MinStep,
            FieldView::MaxLen(_) => FieldKind::MaxLen,
            FieldView::MaxDataLen(_) => FieldKind::MaxDataLen,
            FieldView::ValidValues(_) => FieldKind::ValidValues,
            FieldView::ValidValuesRange(_, _) => FieldKind::ValidValuesRange,
        }
    }
}

impl View for Field {
    type V = FieldView;

    open spec fn view(&self) -> FieldView {
        match self {
            Field::Iid(id) => FieldView::Iid(*id),
            Field::Type(hap_type) => FieldView::Type(*hap_type),
            Field::Format(format) => FieldView::Format(*format),
            Field::Perms(perms) => FieldView::Perms(perms@),
            Field::Description(text) => FieldView::Description(text@),
            Field::Ev(on) => FieldView::Ev(*on),
            Field::Value(value) => FieldView::Value(value@),
            Field::Unit(unit) => FieldView::Unit(*unit),
            Field::MaxValue(value) => FieldView::MaxValue(value@),
            Field::MinValue(value) => FieldView::MinValue(value@),
            Field::MinStep(value) => FieldView::MinStep(value@),
            Field::MaxLen(len) => FieldView::MaxLen(*len),
            Field::MaxDataLen(len) => FieldView::MaxDataLen(*len),
            Field::ValidValues(values) => FieldView::ValidValues(views_of(values@)),
            Field::ValidValuesRange(low, high) => FieldView::ValidValuesRange(low@, high@),
        }
    }
}

impl Field {
    /// Which field this is.
    pub fn kind(&self) -> (kind: FieldKind)
        ensures
            kind == self@.kind(),
    {
        match self {
            Field::Iid(_) => FieldKind::Iid,
            Field::Type(_) => FieldKind::Type,
            Field::Format(_) => FieldKind::Format,
            Field::Perms(_) => FieldKind::Perms,
            Field::Description(_) => FieldKind::Description,
            Field::Ev(_) => FieldKind::Ev,
            Field::Value(_) => FieldKind::Value,
            Field::Unit(_) => FieldKind::Unit,
            Field::MaxValue(_) => FieldKind::MaxValue,
            Field::MinValue(_) => FieldKind::MinValue,
            Field::MinStep(_) => FieldKind::MinStep,
            Field::MaxLen(_) => FieldKind::MaxLen,
            Field::MaxDataLen(_) => FieldKind::MaxDataLen,
            Field::ValidValues(_) => FieldKind::ValidValues,
            Field::ValidValuesRange(_, _) => FieldKind::ValidValuesRange,
        }
    }

    /// The name of the field on the wire.
    pub fn name(&self) -> (s: &'static str)
        ensures
            s@ == self@.kind().wire_name(),
    {
        self.kind().as_str()
    }
}

/// What each of `fields` holds.
pub open spec fn fields_view(fields: Seq<Field>) -> Seq<FieldView> {
    fields.map_values(|f: Field| f@)
}

/// The field, where there is one, and nothing where there is none.
pub open spec fn optional(field: Option<FieldView>) -> Seq<FieldView> {
    match field {
        Some(f) => seq![f],
        None => Seq::empty(),
    }
}

impl<E> ErasedView<E> {
    /// The field of the given kind, if the record of the characteristic has
    /// it.
    ///
    /// The identifier, the type, the format and the permissions are always
    /// there. The value is there exactly when controllers may read it. Each
    /// other field is there exactly when the characteristic has what it
    /// holds.
    pub open spec fn field(self, kind: FieldKind) -> Option<FieldView> {
        match kind {
            FieldKind::Iid => Some(FieldView::Iid(self.id)),
            FieldKind::Type => Some(FieldView::Type(self.hap_type)),
            FieldKind::Format => Some(FieldView::Format(self.format)),
            FieldKind::Perms => Some(FieldView::Perms(self.perms)),
            FieldKind::Description => match self.description {
                Some(text) => Some(FieldView::Description(text)),
                None => None,
            },
            FieldKind::Ev => match self.event_notifications {
                Some(on) => Some(FieldView::Ev(on)),
                None => None,
            },
            FieldKind::Value => if self.perms.contains(Perm::PairedRead) {
                Some(FieldView::Value(self.value))
            } else {
                None
            },
            FieldKind::Unit => match self.unit {
                Some(unit) => Some(FieldView::Unit(unit)),
                None => None,
            },
            FieldKind::MaxValue => match self.max_value {
                Some(v) => Some(FieldView::MaxValue(v)),
                None => None,
            },
            FieldKind::MinValue => match self.min_value {
                Some(v) => Some(FieldView::MinValue(v)),
                None => None,
            },
            FieldKind::MinStep => match self.step_value {
                Some(v) => Some(FieldView::MinStep(v)),
                None => None,
            },
            FieldKind::MaxLen => match self.max_len {
                Some(len) => Some(FieldView::MaxLen(len)),
                None => None,
            },
            FieldKind::MaxDataLen => match self.max_data_len {
                Some(len) => Some(FieldView::MaxDataLen(len)),
                None => None,
            },
            FieldKind::ValidValues => match self.valid_values {
                Some(values) => Some(FieldView::ValidValues(values)),
                None => None,
            },
            FieldKind::ValidValuesRange => match self.valid_values_range {
                Some(range) => Some(FieldView::ValidValuesRange(range.0, range.1)),
                None => None,
            },
        }
    }

    /// The fields that the record has among those of the first `n` places,
    /// in their order.
    pub open spec fn fields_before(self, n: int) -> Seq<FieldView>
        decreases n,
    {
        if n <= 0 {
            Seq::empty()
        } else {
            self.fields_before(n - 1) + optional(self.field(FieldKind::at(n - 1)))
        }
    }

    /// The record of the characteristic on the wire: the fields that it has,
    /// in their order.
    pub open spec fn fields(self) -> Seq<FieldView> {
        self.fields_before(FIELD_COUNT as int)
    }
}

/// Whether a field of the given kind is among `fields`.
pub open spec fn has_kind(fields: Seq<FieldView>, kind: FieldKind) -> bool {
    exists|i: int| 0 <= i < fields.len() && (#[trigger] fields[i]).kind() == kind
}

/// What holds of the fields of the first `n` places: each is the field that
/// the characteristic has of its kind, they stand in the order of their
/// places, and none that the characteristic has is missing.
proof fn lemma_fields_before<E>(c: ErasedView<E>, n: int)
    requires
        0 <= n <= FIELD_COUNT,
    ensures
        forall|i: int|
            0 <= i < c.fields_before(n).len() ==> {
                &&& (#[trigger] c.fields_before(n)[i]).kind().position() < n
                &&& c.field(c.fields_before(n)[i].kind()) == Some(c.fields_before(n)[i])
            },
        forall|i: int, j: int|
            0 <= i < j < c.fields_before(n).len() ==> (
            #[trigger] c.fields_before(n)[i]).kind().position() < (
            #[trigger] c.fields_before(n)[j]).kind().position(),
        forall|kind: FieldKind|
            kind.position() < n && (#[trigger] c.field(kind)) is Some ==> c.fields_before(
                n,
            ).contains(c.field(kind).unwrap()),
    decreases n,
{
    if n > 0 {
        lemma_fields_before(c, n - 1);
        let before = c.fields_before(n - 1);
        let last = FieldKind::at(n - 1);
        let all = c.fields_before(n);
        assert(last.position() == n - 1);
        assert(all == before + optional(c.field(last)));
        assert forall|kind: FieldKind|
            kind.position() < n && (#[trigger] c.field(kind)) is Some implies all.contains(
            c.field(kind).unwrap(),
        ) by {
            if kind.position() < n - 1 {
                let i = choose|i: int| 0 <= i < before.len() && before[i] == c.field(kind).unwrap();
                assert(all[i] == c.field(kind).unwrap());
            } else {
                assert(kind == last);
                assert(all[before.len() as int] == c.field(kind).unwrap());
            }
        }
    }
}

/// A record holds its fields in the order of their places, and so each kind
/// of field at most once.
pub proof fn lemma_fields_in_order<E>(c: ErasedView<E>)
    ensures
        forall|i: int, j: int|
            0 <= i < j < c.fields().len() ==> (#[trigger] c.fields()[i]).kind().position() < (
            #[trigger] c.fields()[j]).kind().position(),
{
    lemma_fields_before(c, FIELD_COUNT as int);
}

/// No two fields of a record bear the same name.
pub proof fn lemma_field_names_distinct<E>(c: ErasedView<E>)
    ensures
        forall|i: int, j: int|
            0 <= i < j < c.fields().len() ==> (#[trigger] c.fields()[i]).kind().wire_name() != (
            #[trigger] c.fields()[j]).kind().wire_name(),
{
    lemma_fields_in_order(c);
    assert forall|i: int, j: int| 0 <= i < j < c.fields().len() implies (
    #[trigger] c.fields()[i]).kind().wire_name() != (#[trigger] c.fields()[j]).kind().wire_name() by {
        if c.fields()[i].kind().wire_name() == c.fields()[j].kind().wire_name() {
            FieldKind::lemma_wire_name_injective(c.fields()[i].kind(), c.fields()[j].kind());
        }
    }
}

/// A record holds a field of a kind exactly when the characteristic has one,
/// and holds no other field of that kind than the one that the
/// characteristic has.
pub proof fn lemma_field_present<E>(c: ErasedView<E>, kind: FieldKind)
    ensures
        has_kind(c.fields(), kind) <==> c.field(kind) is Some,
        c.field(kind) matches Some(field) ==> c.fields().contains(field),
        forall|i: int|
            0 <= i < c.fields().len() && (#[trigger] c.fields()[i]).kind() == kind ==> c.field(kind)
                == Some(c.fields()[i]),
{
    lemma_fields_before(c, FIELD_COUNT as int);
    if c.field(kind) is Some {
        let field = c.field(kind).unwrap();
        let i = choose|i: int| 0 <= i < c.fields().len() && c.fields()[i] == field;
        assert(c.fields()[i].kind() == kind);
    }
}

/// A record names a unit exactly when the characteristic has one, and then
/// names that unit.
pub proof fn lemma_unit_field<E>(c: ErasedView<E>)
    ensures
        c.unit is None ==> !has_kind(c.fields(), FieldKind::Unit),
        c.unit matches Some(unit) ==> c.fields().contains(FieldView::Unit(unit)),
{
    lemma_field_present(c, FieldKind::Unit);
}

/// A record shows the value exactly when controllers may read it.
pub proof fn lemma_value_field<E>(c: ErasedView<E>)
    ensures
        has_kind(c.fields(), FieldKind::Value) <==> c.perms.contains(Perm::PairedRead),
        c.perms.contains(Perm::PairedRead) ==> c.fields().contains(FieldView::Value(c.value)),
{
    lemma_field_present(c, FieldKind::Value);
}

/// A record begins with the identifier, the type, the format and the
/// permissions, whatever else it holds.
pub proof fn lemma_fields_begin<E>(c: ErasedView<E>)
    ensures
        c.fields().len() >= 4,
        c.fields()[0] == FieldView::Iid(c.id),
        c.fields()[1] == FieldView::Type(c.hap_type),
        c.fields()[2] == FieldView::Format(c.format),
        c.fields()[3] == FieldView::Perms(c.perms),
{
    reveal_with_fuel(ErasedView::fields_before, 5);
    lemma_fields_grow(c, 4, FIELD_COUNT as int);
    assert(c.fields_before(4) =~= seq![
        FieldView::Iid(c.id),
        FieldView::Type(c.hap_type),
        FieldView::Format(c.format),
        FieldView::Perms(c.perms),
    ]);
}

/// The fields of the first `m` places come first among those of the first
/// `n`, for `m` up to `n`.
proof fn lemma_fields_grow<E>(c: ErasedView<E>, m: int, n: int)
    requires
        0 <= m <= n,
    ensures
        c.fields_before(m).is_prefix_of(c.fields_before(n)),
    decreases n - m,
{
    if m < n {
        lemma_fields_grow(c, m, n - 1);
    }
}

/// A copy of `perms`.
fn copy_perms(perms: &Vec<Perm>) -> (copy: Vec<Perm>)
    ensures
        copy@ == perms@,
{
    let mut copy: Vec<Perm> = Vec::new();
    let mut i: usize = 0;
    while i < perms.len()
        invariant
            i <= perms.len(),
            copy@ == perms@.subrange(0, i as int),
        decreases perms.len() - i,
    {
        copy.push(perms[i]);
        assert(copy@ == perms@.subrange(0, i + 1));
        i += 1;
    }
    assert(copy@ == perms@);
    copy
}

/// The untyped form of each of `values`.
fn to_json_all<T: HapValue>(values: &Vec<T>) -> (all: Vec<Json>)
    ensures
        views_of(all@) == json_of_all::<T>(values@.map_values(|v: T| v@)),
{
    let mut all: Vec<Json> = Vec::new();
    let mut i: usize = 0;
    while i < values.len()
        invariant
            i <= values.len(),
            all.len() == i,
            forall|k: int| 0 <= k < i ==> (#[trigger] all[k])@ == T::json_of(values[k]@),
        decreases values.len() - i,
    {
        all.push(values[i].to_json());
        i += 1;
    }
    assert(views_of(all@) =~= json_of_all::<T>(values@.map_values(|v: T| v@)));
    all
}

impl<T: HapValue, E, R: Readable<T>, U: Updatable<T>> Characteristic<T, E, R, U> {
    /// The field of the given kind, with what it holds, if the record of the
    /// characteristic has it.
    pub fn field(&self, kind: FieldKind) -> (field: Option<Field>)
        ensures
            opt_view(field) == self@.erased().field(kind),
    {
        match kind {
            FieldKind::Iid => Some(Field::Iid(self.get_id())),
            FieldKind::Type => Some(Field::Type(*self.get_type())),
            FieldKind::Format => Some(Field::Format(*self.get_format())),
            FieldKind::Perms => Some(Field::Perms(copy_perms(self.get_perms()))),
            FieldKind::Description => match self.get_description() {
                Some(text) => Some(Field::Description(text.clone())),
                None => None,
            },
            FieldKind::Ev => match self.get_event_notifications() {
                Some(on) => Some(Field::Ev(on)),
                None => None,
            },
            FieldKind::Value => if self.has_perm(Perm::PairedRead) {
                Some(Field::Value(self.value_json()))
            } else {
                None
            },
            FieldKind::Unit => match self.get_unit() {
                Some(unit) => Some(Field::Unit(*unit)),
                None => None,
            },
            FieldKind::MaxValue => match self.get_max_value() {
                Some(v) => Some(Field::MaxValue(v.to_json())),
                None => None,
            },
            FieldKind::MinValue => match self.get_min_value() {
                Some(v) => Some(Field::MinValue(v.to_json())),
                None => None,
            },
            FieldKind::MinStep => match self.get_step_value() {
                Some(v) => Some(Field::MinStep(v.to_json())),
                None => None,
            },
            FieldKind::MaxLen => match self.get_max_len() {
                Some(len) => Some(Field::MaxLen(len)),
                None => None,
            },
            FieldKind::MaxDataLen => match self.get_max_data_len() {
                Some(len) => Some(Field::MaxDataLen(len)),
                None => None,
            },
            FieldKind::ValidValues => match self.get_valid_values() {
                Some(values) => Some(Field::ValidValues(to_json_all(values))),
                None => None,
            },
            FieldKind::ValidValuesRange => match self.get_valid_values_range() {
                Some(range) => Some(Field::ValidValuesRange(range.0.to_json(), range.1.to_json())),
                None => None,
            },
        }
    }

    /// The record of the characteristic on the wire: its fields with what
    /// they hold, in the order in which they are written. A field that the
    /// characteristic does not have is left out, not written empty.
    pub fn fields(&self) -> (fields: Vec<Field>)
        ensures
            fields_view(fields@) == self@.erased().fields(),
    {
        let mut fields: Vec<Field> = Vec::new();
        let mut position: usize = 0;
        assert(fields_view(fields@) =~= self@.erased().fields_before(0));
        while position < FIELD_COUNT
            invariant
                position <= FIELD_COUNT,
                fields_view(fields@) == self@.erased().fields_before(position as int),
            decreases FIELD_COUNT - position,
        {
            let ghost before = fields_view(fields@);
            match self.field(FieldKind::from_position(position)) {
                Some(field) => {
                    fields.push(field);
                    assert(fields_view(fields@) =~= before + seq![field@]);
                },
                None => {
                    assert(fields_view(fields@) =~= before + Seq::<FieldView>::empty());
                },
            }
            position += 1;
        }
        fields
    }
}

} // verus!
