use crate::characteristic::{Characteristic, PendingWrite};
use crate::error::Error;
use crate::event::Event;
use crate::format::Format;
use crate::hap_type::HapType;
use crate::hooks::{Readable, Updatable};
use crate::json::{Json, JsonView};
use crate::laws::lemma_erased_agrees;
use crate::model::{accepted, coerced, opt_view, ErasedView};
use crate::perm::Perm;
use crate::unit::Unit;
use crate::value::HapValue;
use crate::wire::{fields_view, Field};
use vstd::prelude::*;

verus! {

/// A characteristic whatever the kind of its value: values go in and out in
/// their untyped form. It is what a collection of characteristics of
/// different kinds holds.
pub trait HapCharacteristic<E> {
    /// What the characteristic holds, each value in its untyped form.
    spec fn erased(&self) -> ErasedView<E>;

    /// The instance identifier.
    fn get_id(&self) -> (id: u64)
        ensures
            id == self.erased().id,
    ;

    /// Assigns the instance identifier.
    fn set_id(&mut self, id: u64)
        ensures
            final(self).erased() == (ErasedView { id, ..old(self).erased() }),
    ;

    /// Assigns the identifier of the accessory that owns the characteristic.
    fn set_accessory_id(&mut self, accessory_id: u64)
        ensures
            final(self).erased() == (ErasedView { accessory_id, ..old(self).erased() }),
    ;

    /// What the characteristic stands for.
    fn get_type(&self) -> (hap_type: &HapType)
        ensures
            *hap_type == self.erased().hap_type,
    ;

    /// The kind of value, as the wire names it.
    fn get_format(&self) -> (format: &Format)
        ensures
            *format == self.erased().format,
    ;

    /// What controllers may do with the characteristic.
    fn get_perms(&self) -> (perms: &Vec<Perm>)
        ensures
            perms@ == self.erased().perms,
    ;

    /// Whether controllers subscribed to changes of the value.
    fn get_event_notifications(&self) -> (event_notifications: Option<bool>)
        ensures
            event_notifications == self.erased().event_notifications,
    ;

    /// Records whether controllers subscribed to changes of the value.
    fn set_event_notifications(&mut self, event_notifications: Option<bool>)
        ensures
            final(self).erased() == (ErasedView { event_notifications, ..old(self).erased() }),
    ;

    /// The value in its untyped form, and the event to emit.
    ///
    /// With a read hook attached, the hook is asked once for a value, and
    /// that value is written: the update hook is called once, the value is
    /// stored, and the event of the write is returned. Without one, nothing
    /// changes, no hook is called, and there is no event.
    fn get_value(&mut self) -> (r: Result<(Json, Option<Event>), Error>)
        ensures
            r matches Ok(out) && old(self).erased().read(
                final(self).erased(),
                out.0@,
                opt_view(out.1),
            ),
    ;

    /// Gives the characteristic the value that it takes `value` for.
    ///
    /// A boolean characteristic takes the numbers 0 and 1 for `false` and
    /// `true` and refuses any other number as an invalid value. Any other
    /// untyped value is read as a value of the characteristic's kind, and
    /// refused where it is none. A value that is refused changes nothing,
    /// and no hook is called for it. Otherwise the update hook is called
    /// once, the value is stored, and the result is the event to emit: there
    /// is one exactly when controllers subscribed and an emitter is
    /// attached.
    fn set_value(&mut self, value: Json) -> (r: Result<Option<Event>, Error>)
        ensures
            match old(self).erased().accepts(value@) {
                Ok(v) => {
                    &&& final(self).erased() == old(self).erased().written(v)
                    &&& r matches Ok(event) && opt_view(event) == old(self).erased().emission(v)
                },
                Err(e) => {
                    &&& final(self).erased() == old(self).erased()
                    &&& r matches Err(err) && err == e
                },
            },
    ;

    /// The unit of the value.
    fn get_unit(&self) -> (unit: &Option<Unit>)
        ensures
            *unit == self.erased().unit,
    ;

    /// The largest value that controllers are told to expect, in its untyped
    /// form.
    fn get_max_value(&self) -> (val: Option<Json>)
        ensures
            opt_view(val) == self.erased().max_value,
    ;

    /// The smallest value that controllers are told to expect, in its
    /// untyped form.
    fn get_min_value(&self) -> (val: Option<Json>)
        ensures
            opt_view(val) == self.erased().min_value,
    ;

    /// The step between values that controllers are told to expect, in its
    /// untyped form.
    fn get_step_value(&self) -> (val: Option<Json>)
        ensures
            opt_view(val) == self.erased().step_value,
    ;

    /// The largest length of a string value.
    fn get_max_len(&self) -> (max_len: Option<u16>)
        ensures
            max_len == self.erased().max_len,
    ;

    /// Replaces the handle of the event sink.
    fn set_event_emitter(&mut self, event_emitter: Option<E>)
        ensures
            final(self).erased() == (ErasedView { event_emitter, ..old(self).erased() }),
    ;

    /// The record of the characteristic on the wire: its fields with what
    /// they hold, in the order in which they are written.
    fn fields(&self) -> (fields: Vec<Field>)
        ensures
            fields_view(fields@) == self.erased().fields(),
    ;
}

/// What a characteristic of the given format makes of the untyped value
/// `value` before it reads it as a value of its kind: a boolean
/// characteristic takes the number 0 for `false` and the number 1 for
/// `true`, and refuses every other number; anything else is taken as it is.
pub fn coerce(format: Format, value: Json) -> (r: Result<Json, Error>)
    ensures
        r matches Ok(j) ==> coerced(format, value@) == Ok::<JsonView, Error>(j@),
        r matches Err(e) ==> coerced(format, value@) == Err::<JsonView, Error>(e),
{
    if format == Format::Bool && value.is_number() {
        match u8::from_json(&value) {
            Ok(n) => {
                if n == 0 {
                    Ok(Json::Bool(false))
                } else if n == 1 {
                    Ok(Json::Bool(true))
                } else {
                    Err(Error::InvalidValue)
                }
            },
            Err(_) => Err(Error::InvalidValue),
        }
    } else {
        Ok(value)
    }
}

impl<T: HapValue, E, R: Readable<T>, U: Updatable<T>> Characteristic<T, E, R, U> {
    /// The value as `get_value` reads it, in its untyped form, and the event
    /// to emit.
    pub fn read_json(&mut self) -> (r: Result<(Json, Option<Event>), Error>)
        ensures
            r matches Ok(out) && out.0@ == T::json_of(final(self)@.value) && old(self)@.read(
                final(self)@,
                final(self)@.value,
                opt_view(out.1),
            ),
            old(self)@.reads is None ==> *final(self) == *old(self),
    {
        let (value, event) = self.get_value()?;
        Ok((value.to_json(), event))
    }

    /// The first half of an untyped write: begins the write of the value
    /// that the characteristic takes `value` for, as `begin_write` begins
    /// it.
    ///
    /// A boolean characteristic takes the numbers 0 and 1 for `false` and
    /// `true` and refuses any other number as an invalid value. Any other
    /// untyped value is read as a value of kind `T`, and refused where it is
    /// none. A value that is refused leaves the characteristic as it is: no
    /// hook is called for it.
    pub fn begin_write_json(&mut self, value: Json) -> (r: Result<PendingWrite<T>, Error>)
        ensures
            match accepted::<T>(old(self)@.format, value@) {
                Ok(v) => {
                    &&& r matches Ok(pending) && pending.value()@ == v && pending.emission() == old(
                        self,
                    )@.emission(v)
                    &&& final(self)@ == old(self)@.announced(v)
                    &&& final(self).value() == old(self).value()
                    &&& final(self).readable() == old(self).readable()
                },
                Err(e) => {
                    &&& *final(self) == *old(self)
                    &&& r matches Err(err) && err == e
                },
            },
    {
        let val = T::from_json(&coerce(*self.get_format(), value)?)?;
        Ok(self.begin_write(val))
    }

    /// Gives the characteristic the value that it takes `value` for, as
    /// `set_value` writes it. A value that is refused leaves the
    /// characteristic as it is: no hook is called for it.
    pub fn write_json(&mut self, value: Json) -> (r: Result<Option<Event>, Error>)
        ensures
            match accepted::<T>(old(self)@.format, value@) {
                Ok(v) => {
                    &&& final(self)@ == old(self)@.written(v)
                    &&& final(self).readable() == old(self).readable()
                    &&& r matches Ok(event) && opt_view(event) == old(self)@.emission(v)
                },
                Err(e) => {
                    &&& *final(self) == *old(self)
                    &&& r matches Err(err) && err == e
                },
            },
    {
        let pending = self.begin_write_json(value)?;
        Ok(self.commit(pending))
    }
}

/// Every characteristic is one whatever its kind: each method does what the
/// trait says of it, on the model of the characteristic with its values in
/// their untyped form.
impl<T: HapValue, E, R: Readable<T>, U: Updatable<T>> HapCharacteristic<E> for Characteristic<
    T,
    E,
    R,
    U,
> {
    open spec fn erased(&self) -> ErasedView<E> {
        self@.erased()
    }

    fn get_id(&self) -> (id: u64) {
        Characteristic::get_id(self)
    }

    fn set_id(&mut self, id: u64) {
        Characteristic::set_id(self, id)
    }

    fn set_accessory_id(&mut self, accessory_id: u64) {
        Characteristic::set_accessory_id(self, accessory_id)
    }

    fn get_type(&self) -> (hap_type: &HapType) {
        Characteristic::get_type(self)
    }

    fn get_format(&self) -> (format: &Format) {
        Characteristic::get_format(self)
    }

    fn get_perms(&self) -> (perms: &Vec<Perm>) {
        Characteristic::get_perms(self)
    }

    fn get_event_notifications(&self) -> (event_notifications: Option<bool>) {
        Characteristic::get_event_notifications(self)
    }

    fn set_event_notifications(&mut self, event_notifications: Option<bool>) {
        Characteristic::set_event_notifications(self, event_notifications)
    }

    fn get_value(&mut self) -> (r: Result<(Json, Option<Event>), Error>) {
        let r = self.read_json();
        proof {
            lemma_erased_agrees(old(self)@, self@.value, JsonView::Null);
            lemma_erased_agrees(old(self)@.asked(self@.value), self@.value, JsonView::Null);
        }
        r
    }

    fn set_value(&mut self, value: Json) -> (r: Result<Option<Event>, Error>) {
        proof {
            lemma_erased_agrees(self@, self@.value, value@);
            if accepted::<T>(self@.format, value@) is Ok {
                lemma_erased_agrees(self@, accepted::<T>(self@.format, value@)->Ok_0, value@);
            }
        }
        self.write_json(value)
    }

    fn get_unit(&self) -> (unit: &Option<Unit>) {
        Characteristic::get_unit(self)
    }

    fn get_max_value(&self) -> (val: Option<Json>) {
        match Characteristic::get_max_value(self) {
            Some(v) => Some(v.to_json()),
            None => None,
        }
    }

    fn get_min_value(&self) -> (val: Option<Json>) {
        match Characteristic::get_min_value(self) {
            Some(v) => Some(v.to_json()),
            None => None,
        }
    }

    fn get_step_value(&self) -> (val: Option<Json>) {
        match Characteristic::get_step_value(self) {
            Some(v) => Some(v.to_json()),
            None => None,
        }
    }

    fn get_max_len(&self) -> (max_len: Option<u16>) {
        Characteristic::get_max_len(self)
    }

    fn set_event_emitter(&mut self, event_emitter: Option<E>) {
        Characteristic::set_event_emitter(self, event_emitter)
    }

    fn fields(&self) -> (fields: Vec<Field>) {
        Characteristic::fields(self)
    }
}

} // verus!
