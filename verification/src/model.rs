use crate::error::Error;
use crate::event::EventView;
use crate::format::Format;
use crate::hap_type::HapType;
use crate::json::{JsonView, Number};
use crate::perm::Perm;
use crate::unit::Unit;
use crate::value::HapValue;
use vstd::prelude::*;

verus! {

/// What a characteristic of kind `T` holds. Of a hook it holds the history:
/// the calls that the hook has answered.
#[verifier::reject_recursive_types(T)]
pub struct CharacteristicView<T: HapValue, E> {
    pub id: u64,
    pub accessory_id: u64,
    pub hap_type: HapType,
    pub format: Format,
    pub perms: Seq<Perm>,
    pub description: Option<Seq<char>>,
    pub event_notifications: Option<bool>,
    pub value: T::V,
    pub unit: Option<Unit>,
    pub max_value: Option<T::V>,
    pub min_value: Option<T::V>,
    pub step_value: Option<T::V>,
    pub max_len: Option<u16>,
    pub max_data_len: Option<u32>,
    pub valid_values: Option<Seq<T::V>>,
    pub valid_values_range: Option<(T::V, T::V)>,
    /// The reads that the read hook has answered, if one is attached.
    pub reads: Option<Seq<(HapType, T::V)>>,
    /// The writes that the update hook has been told of, if one is attached.
    pub updates: Option<Seq<(HapType, T::V, T::V)>>,
    pub event_emitter: Option<E>,
}

/// What a characteristic holds, whatever the kind of its value: each value
/// in its untyped form.
pub struct ErasedView<E> {
    pub id: u64,
    pub accessory_id: u64,
    pub hap_type: HapType,
    pub format: Format,
    pub perms: Seq<Perm>,
    pub description: Option<Seq<char>>,
    pub event_notifications: Option<bool>,
    pub value: JsonView,
    pub unit: Option<Unit>,
    pub max_value: Option<JsonView>,
    pub min_value: Option<JsonView>,
    pub step_value: Option<JsonView>,
    pub max_len: Option<u16>,
    pub max_data_len: Option<u32>,
    pub valid_values: Option<Seq<JsonView>>,
    pub valid_values_range: Option<(JsonView, JsonView)>,
    /// The reads that the read hook has answered, if one is attached.
    pub reads: Option<Seq<(HapType, JsonView)>>,
    /// The writes that the update hook has been told of, if one is attached.
    pub updates: Option<Seq<(HapType, JsonView, JsonView)>>,
    pub event_emitter: Option<E>,
    /// How the characteristic reads an untyped value: the untyped form of
    /// the value of its kind that the untyped value stands for, if it stands
    /// for one.
    pub decodes: spec_fn(JsonView) -> Option<JsonView>,
}

/// What an optional value holds.
pub open spec fn opt_view<A: View>(o: Option<A>) -> Option<A::V> {
    match o {
        Some(a) => Some(a@),
        None => None,
    }
}

/// What each value of an optional list holds.
pub open spec fn opt_list_view<A: View>(o: Option<Vec<A>>) -> Option<Seq<A::V>> {
    match o {
        Some(v) => Some(v@.map_values(|a: A| a@)),
        None => None,
    }
}

/// What the two ends of an optional range hold.
pub open spec fn opt_range_view<A: View>(o: Option<(A, A)>) -> Option<(A::V, A::V)> {
    match o {
        Some(r) => Some((r.0@, r.1@)),
        None => None,
    }
}

/// The untyped form of an optional value of kind `T`.
pub open spec fn opt_json_of<T: HapValue>(o: Option<T::V>) -> Option<JsonView> {
    match o {
        Some(v) => Some(T::json_of(v)),
        None => None,
    }
}

/// The untyped form of each of `values`.
pub open spec fn json_of_all<T: HapValue>(values: Seq<T::V>) -> Seq<JsonView> {
    values.map_values(|v: T::V| T::json_of(v))
}

/// The history of a read hook with each value in its untyped form.
pub open spec fn json_of_reads<T: HapValue>(reads: Seq<(HapType, T::V)>) -> Seq<
    (HapType, JsonView),
> {
    reads.map_values(|r: (HapType, T::V)| (r.0, T::json_of(r.1)))
}

/// The history of an update hook with each value in its untyped form.
pub open spec fn json_of_updates<T: HapValue>(updates: Seq<(HapType, T::V, T::V)>) -> Seq<
    (HapType, JsonView, JsonView),
> {
    updates.map_values(|u: (HapType, T::V, T::V)| (u.0, T::json_of(u.1), T::json_of(u.2)))
}

/// How a characteristic of kind `T` reads an untyped value: the untyped
/// form of the value of kind `T` that it stands for, if it stands for one.
pub open spec fn decodes_as<T: HapValue>() -> spec_fn(JsonView) -> Option<JsonView> {
    |j: JsonView| opt_json_of::<T>(T::value_of(j))
}

/// What a characteristic of the given format makes of the untyped value `j`
/// before it reads it as a value of its kind.
///
/// Controllers write a boolean either as a boolean or as a number. So a
/// boolean characteristic takes the number 0 for `false` and the number 1
/// for `true`, and refuses every other number. Anything else is taken as it
/// is.
pub open spec fn coerced(format: Format, j: JsonView) -> Result<JsonView, Error> {
    if format == Format::Bool && j is Number {
        if j == JsonView::Number(Number::Integer(0)) {
            Ok(JsonView::Bool(false))
        } else if j == JsonView::Number(Number::Integer(1)) {
            Ok(JsonView::Bool(true))
        } else {
            Err(Error::InvalidValue)
        }
    } else {
        Ok(j)
    }
}

/// The value of kind `T` that a characteristic of the given format takes
/// the untyped value `j` for, or why it takes it for none.
pub open spec fn accepted<T: HapValue>(format: Format, j: JsonView) -> Result<T::V, Error> {
    match coerced(format, j) {
        Ok(c) => match T::value_of(c) {
            Some(v) => Ok(v),
            None => Err(Error::Deserialization),
        },
        Err(e) => Err(e),
    }
}

/// The event that reports the value `value` of the characteristic `iid` of
/// the accessory `aid`.
pub open spec fn value_changed(aid: u64, iid: u64, value: JsonView) -> EventView {
    EventView::CharacteristicValueChanged { aid, iid, value }
}

impl<T: HapValue, E> CharacteristicView<T, E> {
    /// A characteristic as it is made: the given identity and value, no
    /// optional metadata, no hook, no emitter.
    pub open spec fn fresh(hap_type: HapType, format: Format, perms: Seq<Perm>, value: T::V) -> Self {
        CharacteristicView {
            id: 0,
            accessory_id: 0,
            hap_type,
            format,
            perms,
            description: None,
            event_notifications: None,
            value,
            unit: None,
            max_value: None,
            min_value: None,
            step_value: None,
            max_len: None,
            max_data_len: None,
            valid_values: None,
            valid_values_range: None,
            reads: None,
            updates: None,
            event_emitter: None,
        }
    }

    /// The characteristic after its read hook, if one is attached, has
    /// supplied `value`: the hook's history has one more read.
    pub open spec fn asked(self, value: T::V) -> Self {
        CharacteristicView {
            reads: match self.reads {
                Some(reads) => Some(reads.push((self.hap_type, value))),
                None => None,
            },
            ..self
        }
    }

    /// The characteristic after its update hook, if one is attached, has
    /// been told of the write of `value`: the hook's history has one more
    /// write, of `value` over the value held. The value held is still the
    /// old one.
    pub open spec fn announced(self, value: T::V) -> Self {
        CharacteristicView {
            updates: match self.updates {
                Some(updates) => Some(updates.push((self.hap_type, self.value, value))),
                None => None,
            },
            ..self
        }
    }

    /// The characteristic with `value` in place of its value.
    pub open spec fn stored(self, value: T::V) -> Self {
        CharacteristicView { value, ..self }
    }

    /// The characteristic after the write of `value`: the update hook, if
    /// one is attached, has been told once, and then `value` has been
    /// stored.
    pub open spec fn written(self, value: T::V) -> Self {
        self.announced(value).stored(value)
    }

    /// Whether a write is reported: controllers subscribed, and there is a
    /// sink to report to.
    pub open spec fn emits(self) -> bool {
        self.event_notifications == Some(true) && self.event_emitter is Some
    }

    /// The event that a write of `value` gives rise to, if it gives rise to
    /// one.
    pub open spec fn emission(self, value: T::V) -> Option<EventView> {
        if self.emits() {
            Some(value_changed(self.accessory_id, self.id, T::json_of(value)))
        } else {
            None
        }
    }

    /// What is left of a read: the state `after` it, the value `out` that it
    /// hands out, and the event.
    ///
    /// Without a read hook nothing changes, the value is the one that the
    /// characteristic holds, and there is no event. With one, the hook is
    /// asked once, and the value that it supplied is written and handed out.
    pub open spec fn read(self, after: Self, out: T::V, event: Option<EventView>) -> bool {
        &&& out == after.value
        &&& if self.reads is Some {
            after == self.asked(out).written(out) && event == self.emission(out)
        } else {
            after == self && event is None
        }
    }

    /// The same characteristic with each value in its untyped form.
    pub open spec fn erased(self) -> ErasedView<E> {
        ErasedView {
            id: self.id,
            accessory_id: self.accessory_id,
            hap_type: self.hap_type,
            format: self.format,
            perms: self.perms,
            description: self.description,
            event_notifications: self.event_notifications,
            value: T::json_of(self.value),
            unit: self.unit,
            max_value: opt_json_of::<T>(self.max_value),
            min_value: opt_json_of::<T>(self.min_value),
            step_value: opt_json_of::<T>(self.step_value),
            max_len: self.max_len,
            max_data_len: self.max_data_len,
            valid_values: match self.valid_values {
                Some(values) => Some(json_of_all::<T>(values)),
                None => None,
            },
            valid_values_range: match self.valid_values_range {
                Some(range) => Some((T::json_of(range.0), T::json_of(range.1))),
                None => None,
            },
            reads: match self.reads {
                Some(reads) => Some(json_of_reads::<T>(reads)),
                None => None,
            },
            updates: match self.updates {
                Some(updates) => Some(json_of_updates::<T>(updates)),
                None => None,
            },
            event_emitter: self.event_emitter,
            decodes: decodes_as::<T>(),
        }
    }
}

impl<E> ErasedView<E> {
    /// The characteristic after its read hook, if one is attached, has
    /// supplied the value with the untyped form `value`.
    pub open spec fn asked(self, value: JsonView) -> Self {
        ErasedView {
            reads: match self.reads {
                Some(reads) => Some(reads.push((self.hap_type, value))),
                None => None,
            },
            ..self
        }
    }

    /// The characteristic after its update hook, if one is attached, has
    /// been told of the write of the value with the untyped form `value`.
    /// The value held is still the old one.
    pub open spec fn announced(self, value: JsonView) -> Self {
        ErasedView {
            updates: match self.updates {
                Some(updates) => Some(updates.push((self.hap_type, self.value, value))),
                None => None,
            },
            ..self
        }
    }

    /// The characteristic with the value with the untyped form `value` in
    /// place of its value.
    pub open spec fn stored(self, value: JsonView) -> Self {
        ErasedView { value, ..self }
    }

    /// The characteristic after the write of the value with the untyped form
    /// `value`: the update hook, if one is attached, has been told once, and
    /// then the value has been stored.
    pub open spec fn written(self, value: JsonView) -> Self {
        self.announced(value).stored(value)
    }

    /// Whether a write is reported: controllers subscribed, and there is a
    /// sink to report to.
    pub open spec fn emits(self) -> bool {
        self.event_notifications == Some(true) && self.event_emitter is Some
    }

    /// The event that a write of the value with the untyped form `value`
    /// gives rise to, if it gives rise to one.
    pub open spec fn emission(self, value: JsonView) -> Option<EventView> {
        if self.emits() {
            Some(value_changed(self.accessory_id, self.id, value))
        } else {
            None
        }
    }

    /// The untyped form of the value that the characteristic takes the
    /// untyped value `j` for, or why it takes it for none.
    pub open spec fn accepts(self, j: JsonView) -> Result<JsonView, Error> {
        match coerced(self.format, j) {
            Ok(c) => match (self.decodes)(c) {
                Some(v) => Ok(v),
                None => Err(Error::Deserialization),
            },
            Err(e) => Err(e),
        }
    }

    /// What is left of a read: the state `after` it, the untyped form `out`
    /// of the value that it hands out, and the event.
    ///
    /// Without a read hook nothing changes and there is no event. With one,
    /// the hook is asked once, and the value that it supplied is written and
    /// handed out.
    pub open spec fn read(self, after: Self, out: JsonView, event: Option<EventView>) -> bool {
        &&& out == after.value
        &&& if self.reads is Some {
            after == self.asked(out).written(out) && event == self.emission(out)
        } else {
            after == self && event is None
        }
    }
}

} // verus!
