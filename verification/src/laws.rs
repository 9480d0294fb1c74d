//! What holds of a characteristic across its operations, stated over the
//! models that the contracts of the operations use.

use crate::error::Error;
use crate::event::EventView;
use crate::format::Format;
use crate::json::{JsonView, Number};
use crate::model::{
    accepted, coerced, json_of_reads, json_of_updates, value_changed, CharacteristicView,
    ErasedView,
};
use crate::value::HapValue;
use vstd::prelude::*;

verus! {

/// No two values of a kind share an untyped form.
pub proof fn lemma_json_of_injective<T: HapValue>(a: T::V, b: T::V)
    requires
        T::json_of(a) == T::json_of(b),
    ensures
        a == b,
{
    T::lemma_round_trip(a);
    T::lemma_round_trip(b);
}

/// What is written is what is read back, as long as no read hook steps in:
/// a read that follows the write of `v` hands out `v`, changes nothing and
/// gives rise to no event.
pub proof fn lemma_write_then_read<T: HapValue, E>(
    c: CharacteristicView<T, E>,
    v: T::V,
    after: CharacteristicView<T, E>,
    out: T::V,
    event: Option<EventView>,
)
    requires
        c.reads is None,
        c.written(v).read(after, out, event),
    ensures
        out == v,
        after == c.written(v),
        event is None,
{
}

/// A write tells the update hook once, of the new value over the value held
/// before, and tells it nothing where none is attached. It leaves the read
/// hook's history as it is.
pub proof fn lemma_write_tells_once<T: HapValue, E>(c: CharacteristicView<T, E>, v: T::V)
    ensures
        c.written(v).value == v,
        c.updates matches Some(told) ==> c.written(v).updates == Some(
            told.push((c.hap_type, c.value, v)),
        ),
        c.updates is None ==> c.written(v).updates is None,
        c.written(v).reads == c.reads,
{
}

/// With a read hook attached, a read asks the hook once and is a write of
/// the value that it hands out: the update hook, if one is attached, is told
/// once, of that value over the value held before, and the event is the
/// event of that write. It is so on every read, also where the value handed
/// out is the value already held.
pub proof fn lemma_read_is_write<T: HapValue, E>(
    c: CharacteristicView<T, E>,
    after: CharacteristicView<T, E>,
    out: T::V,
    event: Option<EventView>,
)
    requires
        c.reads is Some,
        c.read(after, out, event),
    ensures
        after.value == out,
        after.reads == Some(c.reads->Some_0.push((c.hap_type, out))),
        c.updates matches Some(told) ==> after.updates == Some(
            told.push((c.hap_type, c.value, out)),
        ),
        c.updates is None ==> after.updates is None,
        event == c.emission(out),
        event is Some <==> c.emits(),
{
}

/// A write is reported exactly when controllers subscribed and an emitter
/// is attached. The event then names the accessory, the characteristic and
/// the untyped form of the value written. With the subscription unset or
/// `false`, or without an emitter, there is no event.
pub proof fn lemma_event_gating<T: HapValue, E>(c: CharacteristicView<T, E>, v: T::V)
    ensures
        c.emission(v) is Some <==> c.event_notifications == Some(true) && c.event_emitter is Some,
        c.emission(v) matches Some(event) ==> event == value_changed(
            c.accessory_id,
            c.id,
            T::json_of(v),
        ),
        c.event_notifications is None ==> c.emission(v) is None,
        c.event_notifications == Some(false) ==> c.emission(v) is None,
        c.event_emitter is None ==> c.emission(v) is None,
{
}

/// The untyped interface does what the typed one does, on the untyped forms
/// of the values: a write and a call of the read hook leave the same
/// characteristic, a write gives rise to the same event, and an untyped
/// value is taken for the untyped form of the value of kind `T` that it is
/// taken for.
pub proof fn lemma_erased_agrees<T: HapValue, E>(c: CharacteristicView<T, E>, v: T::V, j: JsonView)
    ensures
        c.written(v).erased() == c.erased().written(T::json_of(v)),
        c.asked(v).erased() == c.erased().asked(T::json_of(v)),
        c.emission(v) == c.erased().emission(T::json_of(v)),
        c.erased().accepts(j) == (match accepted::<T>(c.format, j) {
            Ok(w) => Ok::<JsonView, Error>(T::json_of(w)),
            Err(e) => Err::<JsonView, Error>(e),
        }),
{
    match c.updates {
        Some(told) => {
            assert(json_of_updates::<T>(told.push((c.hap_type, c.value, v))) =~= json_of_updates::<
                T,
            >(told).push((c.hap_type, T::json_of(c.value), T::json_of(v))));
        },
        None => {},
    }
    match c.reads {
        Some(reads) => {
            assert(json_of_reads::<T>(reads.push((c.hap_type, v))) =~= json_of_reads::<T>(
                reads,
            ).push((c.hap_type, T::json_of(v))));
        },
        None => {},
    }
}

/// A boolean characteristic takes the number 0 for `false` and the number 1
/// for `true`, and refuses every other number as an invalid value.
pub proof fn lemma_bool_coercion<E>(c: CharacteristicView<bool, E>, n: Number)
    requires
        c.format == Format::Bool,
    ensures
        n == Number::Integer(0) ==> c.erased().accepts(JsonView::Number(n)) == Ok::<
            JsonView,
            Error,
        >(JsonView::Bool(false)),
        n == Number::Integer(1) ==> c.erased().accepts(JsonView::Number(n)) == Ok::<
            JsonView,
            Error,
        >(JsonView::Bool(true)),
        n != Number::Integer(0) && n != Number::Integer(1) ==> c.erased().accepts(
            JsonView::Number(n),
        ) == Err::<JsonView, Error>(Error::InvalidValue),
        accepted::<bool>(Format::Bool, JsonView::Number(Number::Integer(0))) == Ok::<bool, Error>(
            false,
        ),
        accepted::<bool>(Format::Bool, JsonView::Number(Number::Integer(1))) == Ok::<bool, Error>(
            true,
        ),
{
}

/// Whatever the kind of its value, a characteristic of the boolean format
/// refuses each number but 0 and 1 as an invalid value.
pub proof fn lemma_bool_format_refuses<E>(c: ErasedView<E>, n: Number)
    requires
        c.format == Format::Bool,
        n != Number::Integer(0),
        n != Number::Integer(1),
    ensures
        c.accepts(JsonView::Number(n)) == Err::<JsonView, Error>(Error::InvalidValue),
{
}

/// A characteristic of another format than the boolean one, and a boolean
/// one given anything but a number, reads the untyped value as it is.
pub proof fn lemma_no_coercion(format: Format, j: JsonView)
    requires
        format != Format::Bool || !(j is Number),
    ensures
        coerced(format, j) == Ok::<JsonView, Error>(j),
{
}

/// A characteristic takes back the untyped form of each value of its kind,
/// for that value: what the untyped interface hands out can be written
/// through it again. The one exception is a characteristic of the boolean
/// format that holds numbers, which its format does not allow for.
pub proof fn lemma_erased_round_trip<T: HapValue, E>(c: CharacteristicView<T, E>, v: T::V)
    requires
        c.format == Format::Bool ==> !(T::json_of(v) is Number),
    ensures
        accepted::<T>(c.format, T::json_of(v)) == Ok::<T::V, Error>(v),
        c.erased().accepts(T::json_of(v)) == Ok::<JsonView, Error>(T::json_of(v)),
{
    T::lemma_round_trip(v);
}

/// What the untyped interface is given is what it hands out, as long as no
/// read hook steps in: after a write of an untyped value that is taken for
/// a value, a read hands out the untyped form of that value.
pub proof fn lemma_erased_write_then_read<E>(
    c: ErasedView<E>,
    j: JsonView,
    after: ErasedView<E>,
    out: JsonView,
    event: Option<EventView>,
)
    requires
        c.reads is None,
        c.accepts(j) is Ok,
        c.written(c.accepts(j)->Ok_0).read(after, out, event),
    ensures
        Ok::<JsonView, Error>(out) == c.accepts(j),
        after == c.written(out),
        event is None,
{
}

} // verus!
