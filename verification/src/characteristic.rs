use crate::error::Error;
use crate::event::{Event, EventView};
use crate::format::Format;
use crate::hap_type::HapType;
use crate::hooks::{Readable, Updatable};
use crate::json::Json;
use crate::model::{opt_list_view, opt_range_view, opt_view, CharacteristicView};
use crate::perm::Perm;
use crate::unit::Unit;
use crate::value::HapValue;
use vstd::prelude::*;

verus! {

/// A typed property of an accessory: a value of kind `T`, what describes it
/// to controllers, and the hooks of the accessory's logic.
///
/// `E` is the handle of the sink that delivers events to controllers. The
/// characteristic keeps the handle and never uses it: `set_value` and
/// `get_value` return the event that their caller is to emit through it. A
/// caller that is to emit the event before the value is stored takes the
/// write in two halves, `begin_write` or `begin_read` and then `commit`.
///
/// `R` and `U` are the kinds of hook that the characteristic can hold. Left
/// out, they are boxes that take any hook.
#[verifier::reject_recursive_types(T)]
pub struct Characteristic<
    T: HapValue,
    E,
    R: Readable<T> = Box<dyn Readable<T>>,
    U: Updatable<T> = Box<dyn Updatable<T>>,
> {
    id: u64,
    accessory_id: u64,
    hap_type: HapType,
    format: Format,
    perms: Vec<Perm>,
    description: Option<String>,
    event_notifications: Option<bool>,
    value: T,
    unit: Option<Unit>,
    max_value: Option<T>,
    min_value: Option<T>,
    step_value: Option<T>,
    max_len: Option<u16>,
    max_data_len: Option<u32>,
    valid_values: Option<Vec<T>>,
    valid_values_range: Option<(T, T)>,
    readable: Option<R>,
    updatable: Option<U>,
    event_emitter: Option<E>,
}

/// A write that the update hook has been told of and that is not stored
/// yet: the value, and the event that the write gives rise to.
///
/// It is what lies between `begin_write` and `commit`, for a caller that
/// emits the event before the value is stored. A pending write that is
/// never committed leaves the hook told and the value as it was, as a write
/// does that fails between the two.
pub struct PendingWrite<T> {
    val: T,
    event: Option<Event>,
}

impl<T> PendingWrite<T> {
    /// The value to store.
    pub closed spec fn value(&self) -> T {
        self.val
    }

    /// The event that the write gives rise to, if it gives rise to one.
    pub closed spec fn emission(&self) -> Option<EventView> {
        opt_view(self.event)
    }

    /// The event to emit, if there is one.
    pub fn event(&self) -> (event: &Option<Event>)
        ensures
            opt_view(*event) == self.emission(),
    {
        &self.event
    }
}

impl<T: HapValue, E, R: Readable<T>, U: Updatable<T>> View for Characteristic<T, E, R, U> {
    type V = CharacteristicView<T, E>;

    closed spec fn view(&self) -> CharacteristicView<T, E> {
        CharacteristicView {
            id: self.id,
            accessory_id: self.accessory_id,
            hap_type: self.hap_type,
            format: self.format,
            perms: self.perms@,
            description: opt_view(self.description),
            event_notifications: self.event_notifications,
            value: self.value@,
            unit: self.unit,
            max_value: opt_view(self.max_value),
            min_value: opt_view(self.min_value),
            step_value: opt_view(self.step_value),
            max_len: self.max_len,
            max_data_len: self.max_data_len,
            valid_values: opt_list_view(self.valid_values),
            valid_values_range: opt_range_view(self.valid_values_range),
            reads: match self.readable {
                Some(hook) => Some(hook.supplied()),
                None => None,
            },
            updates: match self.updatable {
                Some(hook) => Some(hook.told()),
                None => None,
            },
            event_emitter: self.event_emitter,
        }
    }
}

impl<T: HapValue, E, R: Readable<T>, U: Updatable<T>> Characteristic<T, E, R, U> {
    /// The value that the characteristic holds.
    pub closed spec fn value(&self) -> T {
        self.value
    }

    /// The read hook, if one is attached.
    pub closed spec fn readable(&self) -> Option<R> {
        self.readable
    }

    /// The update hook, if one is attached.
    pub closed spec fn updatable(&self) -> Option<U> {
        self.updatable
    }

    /// Whether the characteristic holds the very value and the very hooks
    /// that it held `before`.
    pub open spec fn keeps_value_and_hooks(&self, before: &Self) -> bool {
        &&& self.value() == before.value()
        &&& self.readable() == before.readable()
        &&& self.updatable() == before.updatable()
    }

    /// The model shows the value that the characteristic holds, and of each
    /// hook that it holds the history.
    pub proof fn lemma_view(&self)
        ensures
            self@.value == self.value()@,
            self@.reads == (match self.readable() {
                Some(hook) => Some(hook.supplied()),
                None => None,
            }),
            self@.updates == (match self.updatable() {
                Some(hook) => Some(hook.told()),
                None => None,
            }),
    {
    }

    /// A characteristic of the given type, format and permissions that holds
    /// `value`. Its identifiers are 0 until the registry assigns them.
    pub fn new(hap_type: HapType, format: Format, perms: Vec<Perm>, value: T) -> (c: Self)
        ensures
            c@ == CharacteristicView::<T, E>::fresh(hap_type, format, perms@, value@),
            c.value() == value,
            c.readable() is None,
            c.updatable() is None,
    {
        Characteristic {
            id: 0,
            accessory_id: 0,
            hap_type,
            format,
            perms,
            description: None,
            event_notifications: None,
            value,
            unit: None,
            max_value: None,
            min_value: None,
            step_value: None,
            max_len: None,
            max_data_len: None,
            valid_values: None,
            valid_values_range: None,
            readable: None,
            updatable: None,
            event_emitter: None,
        }
    }

    /// The first half of a write: tells the update hook, if one is attached,
    /// once, of `val` over the value that the characteristic holds, and
    /// stores nothing. The result holds `val` and the event of the write:
    /// there is one exactly when controllers subscribed and an emitter is
    /// attached. `commit` is the second half.
    pub fn begin_write(&mut self, val: T) -> (pending: PendingWrite<T>)
        ensures
            final(self)@ == old(self)@.announced(val@),
            final(self).value() == old(self).value(),
            final(self).readable() == old(self).readable(),
            pending.value() == val,
            pending.emission() == old(self)@.emission(val@),
    {
        match &mut self.updatable {
            Some(hook) => {
                hook.on_update(self.hap_type, &self.value, &val);
            },
            None => {},
        }
        let event = if self.emits() {
            Some(
                Event::CharacteristicValueChanged {
                    aid: self.accessory_id,
                    iid: self.id,
                    value: val.to_json(),
                },
            )
        } else {
            None
        };
        PendingWrite { val, event }
    }

    /// The second half of a write: stores the value of `pending` and hands
    /// out its event. No hook is called.
    pub fn commit(&mut self, pending: PendingWrite<T>) -> (event: Option<Event>)
        ensures
            final(self)@ == old(self)@.stored(pending.value()@),
            final(self).value() == pending.value(),
            final(self).readable() == old(self).readable(),
            final(self).updatable() == old(self).updatable(),
            opt_view(event) == pending.emission(),
    {
        self.value = pending.val;
        pending.event
    }

    /// The first half of a read. With a read hook attached, the hook is
    /// asked once for a value, and the write of that value is begun as
    /// `begin_write` begins it. Without one, nothing happens and nothing is
    /// pending.
    pub fn begin_read(&mut self) -> (pending: Option<PendingWrite<T>>)
        ensures
            match old(self)@.reads {
                Some(_) => {
                    &&& pending matches Some(p)
                    &&& final(self)@ == old(self)@.asked(p.value()@).announced(p.value()@)
                    &&& final(self).value() == old(self).value()
                    &&& p.emission() == old(self)@.emission(p.value()@)
                },
                None => pending is None && *final(self) == *old(self),
            },
    {
        let fresh = match &mut self.readable {
            Some(hook) => Some(hook.on_read(self.hap_type)),
            None => None,
        };
        match fresh {
            Some(val) => Some(self.begin_write(val)),
            None => None,
        }
    }

    /// Gives the characteristic the value `val`.
    ///
    /// The update hook, if one is attached, is called once, with the value
    /// that the characteristic still holds and with `val`. Then `val` is
    /// stored. The result is the event to emit: there is one exactly when
    /// controllers subscribed and an emitter is attached. The write itself
    /// never fails, and the read hook is left alone.
    pub fn set_value(&mut self, val: T) -> (r: Result<Option<Event>, Error>)
        ensures
            final(self)@ == old(self)@.written(val@),
            final(self).value() == val,
            final(self).readable() == old(self).readable(),
            r matches Ok(event) && opt_view(event) == old(self)@.emission(val@),
    {
        let pending = self.begin_write(val);
        Ok(self.commit(pending))
    }

    /// The value of the characteristic, and the event to emit.
    ///
    /// With a read hook attached, the hook is asked once for a value, and
    /// that value is written as `set_value` writes it: the update hook is
    /// called once, the value is stored, and the event of the write is
    /// returned. Without one, nothing changes and there is no event.
    pub fn get_value(&mut self) -> (r: Result<(&T, Option<Event>), Error>)
        ensures
            r matches Ok(out) && *out.0 == final(self).value() && old(self)@.read(
                final(self)@,
                out.0@,
                opt_view(out.1),
            ),
            old(self)@.reads is None ==> *final(self) == *old(self),
    {
        let event = match self.begin_read() {
            Some(pending) => self.commit(pending),
            None => None,
        };
        Ok((&self.value, event))
    }

    /// The instance identifier.
    pub fn get_id(&self) -> (id: u64)
        ensures
            id == self@.id,
    {
        self.id
    }

    /// Assigns the instance identifier.
    pub fn set_id(&mut self, id: u64)
        ensures
            final(self)@ == (CharacteristicView { id, ..old(self)@ }),
            final(self).keeps_value_and_hooks(old(self)),
    {
        self.id = id;
    }

    /// The identifier of the accessory that owns the characteristic.
    pub fn get_accessory_id(&self) -> (accessory_id: u64)
        ensures
            accessory_id == self@.accessory_id,
    {
        self.accessory_id
    }

    /// Assigns the identifier of the accessory that owns the characteristic.
    pub fn set_accessory_id(&mut self, accessory_id: u64)
        ensures
            final(self)@ == (CharacteristicView { accessory_id, ..old(self)@ }),
            final(self).keeps_value_and_hooks(old(self)),
    {
        self.accessory_id = accessory_id;
    }

    /// What the characteristic stands for.
    pub fn get_type(&self) -> (hap_type: &HapType)
        ensures
            *hap_type == self@.hap_type,
    {
        &self.hap_type
    }

    /// The kind of value, as the wire names it.
    pub fn get_format(&self) -> (format: &Format)
        ensures
            *format == self@.format,
    {
        &self.format
    }

    /// What controllers may do with the characteristic.
    pub fn get_perms(&self) -> (perms: &Vec<Perm>)
        ensures
            perms@ == self@.perms,
    {
        &self.perms
    }

    /// Whether `perm` is among the permissions.
    pub fn has_perm(&self, perm: Perm) -> (b: bool)
        ensures
            b == self@.perms.contains(perm),
    {
        let mut i: usize = 0;
        while i < self.perms.len()
            invariant
                i <= self.perms.len(),
                forall|k: int| 0 <= k < i ==> self.perms[k] != perm,
            decreases self.perms.len() - i,
        {
            if self.perms[i] == perm {
                return true;
            }
            i += 1;
        }
        false
    }

    /// The label for people.
    pub fn get_description(&self) -> (description: &Option<String>)
        ensures
            opt_view(*description) == self@.description,
    {
        &self.description
    }

    /// Replaces the label for people.
    pub fn set_description(&mut self, description: Option<String>)
        ensures
            final(self)@ == (CharacteristicView {
                description: opt_view(description),
                ..old(self)@
            }),
            final(self).keeps_value_and_hooks(old(self)),
    {
        self.description = description;
    }

    /// Whether controllers subscribed to changes of the value.
    pub fn get_event_notifications(&self) -> (event_notifications: Option<bool>)
        ensures
            event_notifications == self@.event_notifications,
    {
        self.event_notifications
    }

    /// Records whether controllers subscribed to changes of the value.
    pub fn set_event_notifications(&mut self, event_notifications: Option<bool>)
        ensures
            final(self)@ == (CharacteristicView { event_notifications, ..old(self)@ }),
            final(self).keeps_value_and_hooks(old(self)),
    {
        self.event_notifications = event_notifications;
    }

    /// The unit of the value.
    pub fn get_unit(&self) -> (unit: &Option<Unit>)
        ensures
            *unit == self@.unit,
    {
        &self.unit
    }

    /// Replaces the unit of the value.
    pub fn set_unit(&mut self, unit: Option<Unit>)
        ensures
            final(self)@ == (CharacteristicView { unit, ..old(self)@ }),
            final(self).keeps_value_and_hooks(old(self)),
    {
        self.unit = unit;
    }

    /// The largest value that controllers are told to expect. It is not
    /// enforced.
    pub fn get_max_value(&self) -> (val: &Option<T>)
        ensures
            opt_view(*val) == self@.max_value,
    {
        &self.max_value
    }

    /// Replaces the largest value that controllers are told to expect.
    pub fn set_max_value(&mut self, val: Option<T>)
        ensures
            final(self)@ == (CharacteristicView { max_value: opt_view(val), ..old(self)@ }),
            final(self).keeps_value_and_hooks(old(self)),
    {
        self.max_value = val;
    }

    /// The smallest value that controllers are told to expect. It is not
    /// enforced.
    pub fn get_min_value(&self) -> (val: &Option<T>)
        ensures
            opt_view(*val) == self@.min_value,
    {
        &self.min_value
    }

    /// Replaces the smallest value that controllers are told to expect.
    pub fn set_min_value(&mut self, val: Option<T>)
        ensures
            final(self)@ == (CharacteristicView { min_value: opt_view(val), ..old(self)@ }),
            final(self).keeps_value_and_hooks(old(self)),
    {
        self.min_value = val;
    }

    /// The step between values that controllers are told to expect. It is
    /// not enforced.
    pub fn get_step_value(&self) -> (val: &Option<T>)
        ensures
            opt_view(*val) == self@.step_value,
    {
        &self.step_value
    }

    /// Replaces the step between values that controllers are told to expect.
    pub fn set_step_value(&mut self, val: Option<T>)
        ensures
            final(self)@ == (CharacteristicView { step_value: opt_view(val), ..old(self)@ }),
            final(self).keeps_value_and_hooks(old(self)),
    {
        self.step_value = val;
    }

    /// The largest length of a string value.
    pub fn get_max_len(&self) -> (max_len: Option<u16>)
        ensures
            max_len == self@.max_len,
    {
        self.max_len
    }

    /// Replaces the largest length of a string value.
    pub fn set_max_len(&mut self, max_len: Option<u16>)
        ensures
            final(self)@ == (CharacteristicView { max_len, ..old(self)@ }),
            final(self).keeps_value_and_hooks(old(self)),
    {
        self.max_len = max_len;
    }

    /// The largest length of a binary value.
    pub fn get_max_data_len(&self) -> (max_data_len: Option<u32>)
        ensures
            max_data_len == self@.max_data_len,
    {
        self.max_data_len
    }

    /// Replaces the largest length of a binary value.
    pub fn set_max_data_len(&mut self, max_data_len: Option<u32>)
        ensures
            final(self)@ == (CharacteristicView { max_data_len, ..old(self)@ }),
            final(self).keeps_value_and_hooks(old(self)),
    {
        self.max_data_len = max_data_len;
    }

    /// The values that controllers are told to expect, where they are
    /// listed.
    pub fn get_valid_values(&self) -> (vals: &Option<Vec<T>>)
        ensures
            opt_list_view(*vals) == self@.valid_values,
    {
        &self.valid_values
    }

    /// Replaces the list of values that controllers are told to expect.
    pub fn set_valid_values(&mut self, vals: Option<Vec<T>>)
        ensures
            final(self)@ == (CharacteristicView {
                valid_values: opt_list_view(vals),
                ..old(self)@
            }),
            final(self).keeps_value_and_hooks(old(self)),
    {
        self.valid_values = vals;
    }

    /// The two ends of the range of values that controllers are told to
    /// expect.
    pub fn get_valid_values_range(&self) -> (range: &Option<(T, T)>)
        ensures
            opt_range_view(*range) == self@.valid_values_range,
    {
        &self.valid_values_range
    }

    /// Replaces the range of values that controllers are told to expect.
    pub fn set_valid_values_range(&mut self, range: Option<(T, T)>)
        ensures
            final(self)@ == (CharacteristicView {
                valid_values_range: opt_range_view(range),
                ..old(self)@
            }),
            final(self).keeps_value_and_hooks(old(self)),
    {
        self.valid_values_range = range;
    }

    /// Attaches `readable` as the read hook, in place of any earlier one.
    /// The hook is not called.
    pub fn set_readable(&mut self, readable: R)
        ensures
            final(self).readable() == Some(readable),
            final(self)@ == (CharacteristicView {
                reads: Some(readable.supplied()),
                ..old(self)@
            }),
            final(self).value() == old(self).value(),
            final(self).updatable() == old(self).updatable(),
    {
        self.readable = Some(readable);
    }

    /// Attaches `updatable` as the update hook, in place of any earlier
    /// one. The hook is not called.
    pub fn set_updatable(&mut self, updatable: U)
        ensures
            final(self).updatable() == Some(updatable),
            final(self)@ == (CharacteristicView {
                updates: Some(updatable.told()),
                ..old(self)@
            }),
            final(self).value() == old(self).value(),
            final(self).readable() == old(self).readable(),
    {
        self.updatable = Some(updatable);
    }

    /// The handle of the event sink.
    pub fn get_event_emitter(&self) -> (event_emitter: &Option<E>)
        ensures
            *event_emitter == self@.event_emitter,
    {
        &self.event_emitter
    }

    /// Replaces the handle of the event sink.
    pub fn set_event_emitter(&mut self, event_emitter: Option<E>)
        ensures
            final(self)@ == (CharacteristicView { event_emitter, ..old(self)@ }),
            final(self).keeps_value_and_hooks(old(self)),
    {
        self.event_emitter = event_emitter;
    }

    /// The value that the characteristic holds. No hook is called.
    pub fn stored_value(&self) -> (val: &T)
        ensures
            *val == self.value(),
            val@ == self@.value,
    {
        &self.value
    }

    /// The untyped form of the value that the characteristic holds. No hook
    /// is called.
    pub fn value_json(&self) -> (j: Json)
        ensures
            j@ == T::json_of(self@.value),
    {
        self.value.to_json()
    }

    /// Whether a write is reported.
    fn emits(&self) -> (b: bool)
        ensures
            b == self@.emits(),
    {
        match self.event_notifications {
            Some(true) => self.event_emitter.is_some(),
            _ => false,
        }
    }
}

} // verus!
