use hap_characteristic::erased::coerce;
use hap_characteristic::{
    Characteristic, Error, Event, Format, HapCharacteristic, HapType, Json, Number, Perm,
    Readable, Reads, Unit, Updatable, Updates,
};
use std::cell::RefCell;
use std::rc::Rc;

const ON: HapType = HapType(0x25);

fn whole(k: i128) -> Json {
    Json::Number(Number::Integer(k))
}

fn switch(on: bool) -> Box<dyn HapCharacteristic<()>> {
    Box::new(Characteristic::<bool, ()>::new(
        ON,
        Format::Bool,
        vec![Perm::PairedRead, Perm::PairedWrite, Perm::Events],
        on,
    ))
}

fn level(value: u8) -> Box<dyn HapCharacteristic<()>> {
    Box::new(Characteristic::<u8, ()>::new(
        HapType(0x8),
        Format::UInt8,
        vec![Perm::PairedRead, Perm::PairedWrite],
        value,
    ))
}

struct Counter {
    count: Rc<RefCell<u32>>,
}

impl Updatable<bool> for Counter {
    fn told(&self) -> Updates<bool> {
        unreachable!("the history is ghost")
    }

    fn on_update(&mut self, _hap_type: HapType, _old_val: &bool, _new_val: &bool) {
        *self.count.borrow_mut() += 1;
    }
}

struct AlwaysOn;

impl Readable<bool> for AlwaysOn {
    fn supplied(&self) -> Reads<bool> {
        unreachable!("the history is ghost")
    }

    fn on_read(&mut self, _hap_type: HapType) -> bool {
        true
    }
}

#[test]
fn number_zero_is_false() {
    let mut c = switch(true);
    assert_eq!(c.set_value(whole(0)), Ok(None));
    assert_eq!(c.get_value(), Ok((Json::Bool(false), None)));
}

#[test]
fn number_one_is_true() {
    let mut c = switch(false);
    assert_eq!(c.set_value(whole(1)), Ok(None));
    assert_eq!(c.get_value(), Ok((Json::Bool(true), None)));
}

#[test]
fn number_two_is_an_invalid_value() {
    let mut c = switch(true);
    assert_eq!(c.set_value(whole(2)), Err(Error::InvalidValue));
    assert_eq!(c.get_value(), Ok((Json::Bool(true), None)));
    let mut c = switch(false);
    assert_eq!(c.set_value(whole(2)), Err(Error::InvalidValue));
    assert_eq!(c.get_value(), Ok((Json::Bool(false), None)));
}

#[test]
fn any_other_number_is_an_invalid_value() {
    let mut c = switch(true);
    assert_eq!(c.set_value(whole(-1)), Err(Error::InvalidValue));
    assert_eq!(c.set_value(whole(255)), Err(Error::InvalidValue));
    assert_eq!(c.set_value(whole(256)), Err(Error::InvalidValue));
    assert_eq!(c.set_value(whole(i128::MAX)), Err(Error::InvalidValue));
    let one = Json::Number(Number::Float(0x3ff0_0000_0000_0000));
    assert_eq!(c.set_value(one), Err(Error::InvalidValue));
    assert_eq!(c.get_value(), Ok((Json::Bool(true), None)));
}

#[test]
fn booleans_are_taken_as_they_are() {
    let mut c = switch(false);
    assert_eq!(c.set_value(Json::Bool(true)), Ok(None));
    assert_eq!(c.get_value(), Ok((Json::Bool(true), None)));
    assert_eq!(c.set_value(Json::Bool(false)), Ok(None));
    assert_eq!(c.get_value(), Ok((Json::Bool(false), None)));
}

#[test]
fn what_is_no_boolean_is_a_deserialization_error() {
    let mut c = switch(true);
    assert_eq!(c.set_value(Json::String("on".to_string())), Err(Error::Deserialization));
    assert_eq!(c.set_value(Json::Null), Err(Error::Deserialization));
    assert_eq!(c.set_value(Json::Array(vec![Json::Bool(true)])), Err(Error::Deserialization));
    assert_eq!(
        c.set_value(Json::Object(vec![("value".to_string(), Json::Bool(true))])),
        Err(Error::Deserialization)
    );
    assert_eq!(c.get_value(), Ok((Json::Bool(true), None)));
}

#[test]
fn numbers_are_not_coerced_for_other_formats() {
    let mut c = level(3);
    assert_eq!(c.set_value(whole(2)), Ok(None));
    assert_eq!(c.get_value(), Ok((whole(2), None)));
    assert_eq!(c.set_value(whole(300)), Err(Error::Deserialization));
    assert_eq!(c.set_value(Json::Bool(true)), Err(Error::Deserialization));
    assert_eq!(c.get_value(), Ok((whole(2), None)));
}

#[test]
fn refused_value_calls_no_hook() {
    let count = Rc::new(RefCell::new(0));
    let mut typed = Characteristic::<bool, ()>::new(ON, Format::Bool, vec![Perm::PairedRead], false);
    typed.set_updatable(Box::new(Counter { count: count.clone() }));
    let mut c: Box<dyn HapCharacteristic<()>> = Box::new(typed);
    assert_eq!(c.set_value(whole(2)), Err(Error::InvalidValue));
    assert_eq!(c.set_value(Json::Null), Err(Error::Deserialization));
    assert_eq!(*count.borrow(), 0);
    assert_eq!(c.set_value(whole(1)), Ok(None));
    assert_eq!(*count.borrow(), 1);
}

#[test]
fn coerce_by_format() {
    assert_eq!(coerce(Format::Bool, whole(0)), Ok(Json::Bool(false)));
    assert_eq!(coerce(Format::Bool, whole(1)), Ok(Json::Bool(true)));
    assert_eq!(coerce(Format::Bool, whole(2)), Err(Error::InvalidValue));
    assert_eq!(coerce(Format::Bool, Json::Bool(true)), Ok(Json::Bool(true)));
    assert_eq!(coerce(Format::Bool, Json::Null), Ok(Json::Null));
    assert_eq!(coerce(Format::UInt8, whole(2)), Ok(whole(2)));
    assert_eq!(coerce(Format::String, whole(1)), Ok(whole(1)));
}

#[test]
fn untyped_write_reports_the_event() {
    let mut c = switch(false);
    c.set_id(6);
    c.set_accessory_id(1);
    c.set_event_notifications(Some(true));
    c.set_event_emitter(Some(()));
    let expected = Event::CharacteristicValueChanged { aid: 1, iid: 6, value: Json::Bool(true) };
    assert_eq!(c.set_value(whole(1)), Ok(Some(expected)));
    assert_eq!(c.set_value(whole(2)), Err(Error::InvalidValue));
    c.set_event_notifications(Some(false));
    assert_eq!(c.set_value(whole(0)), Ok(None));
    c.set_event_notifications(None);
    assert_eq!(c.set_value(whole(1)), Ok(None));
    c.set_event_notifications(Some(true));
    c.set_event_emitter(None);
    assert_eq!(c.set_value(whole(0)), Ok(None));
}

#[test]
fn untyped_read_through_a_hook() {
    let count = Rc::new(RefCell::new(0));
    let mut typed = Characteristic::<bool, ()>::new(ON, Format::Bool, vec![Perm::PairedRead], false);
    typed.set_readable(Box::new(AlwaysOn));
    typed.set_updatable(Box::new(Counter { count: count.clone() }));
    let mut c: Box<dyn HapCharacteristic<()>> = Box::new(typed);
    assert_eq!(c.get_value(), Ok((Json::Bool(true), None)));
    assert_eq!(*count.borrow(), 1);
    assert_eq!(c.get_value(), Ok((Json::Bool(true), None)));
    assert_eq!(*count.borrow(), 2);
}

#[test]
fn untyped_metadata() {
    let mut typed = Characteristic::<u8, ()>::new(
        HapType(0x8),
        Format::UInt8,
        vec![Perm::PairedRead],
        5,
    );
    typed.set_unit(Some(Unit::Percentage));
    typed.set_min_value(Some(0));
    typed.set_max_value(Some(100));
    typed.set_step_value(Some(1));
    typed.set_max_len(Some(3));
    let mut c: Box<dyn HapCharacteristic<()>> = Box::new(typed);
    c.set_id(21);
    c.set_accessory_id(2);
    assert_eq!(c.get_id(), 21);
    assert_eq!(*c.get_type(), HapType(0x8));
    assert_eq!(*c.get_format(), Format::UInt8);
    assert_eq!(*c.get_perms(), vec![Perm::PairedRead]);
    assert_eq!(c.get_event_notifications(), None);
    c.set_event_notifications(Some(true));
    assert_eq!(c.get_event_notifications(), Some(true));
    assert_eq!(*c.get_unit(), Some(Unit::Percentage));
    assert_eq!(c.get_min_value(), Some(whole(0)));
    assert_eq!(c.get_max_value(), Some(whole(100)));
    assert_eq!(c.get_step_value(), Some(whole(1)));
    assert_eq!(c.get_max_len(), Some(3));
    let plain = level(1);
    assert_eq!(plain.get_min_value(), None);
    assert_eq!(plain.get_max_value(), None);
    assert_eq!(plain.get_step_value(), None);
    assert_eq!(plain.get_max_len(), None);
}

#[test]
fn characteristics_of_different_kinds_in_one_list() {
    let mut all: Vec<Box<dyn HapCharacteristic<()>>> = vec![switch(false), level(7)];
    let name: Characteristic<String, ()> =
        Characteristic::new(HapType(0x23), Format::String, vec![Perm::PairedRead], "Lamp".to_string());
    all.push(Box::new(name));
    let mut values = Vec::new();
    for c in all.iter_mut() {
        values.push(c.get_value().unwrap().0);
    }
    assert_eq!(values, vec![Json::Bool(false), whole(7), Json::String("Lamp".to_string())]);
}

#[test]
fn write_json_and_read_json_on_a_typed_characteristic() {
    let count = Rc::new(RefCell::new(0));
    let mut c = Characteristic::<bool, ()>::new(ON, Format::Bool, vec![Perm::PairedRead], false);
    c.set_updatable(Box::new(Counter { count: count.clone() }));
    assert_eq!(c.write_json(whole(1)), Ok(None));
    assert_eq!(*c.stored_value(), true);
    assert_eq!(c.read_json(), Ok((Json::Bool(true), None)));
    assert_eq!(c.write_json(whole(3)), Err(Error::InvalidValue));
    assert_eq!(c.write_json(Json::String("no".to_string())), Err(Error::Deserialization));
    assert_eq!(*c.stored_value(), true);
    assert_eq!(*count.borrow(), 1);
}

#[test]
fn float_characteristic_takes_any_number_and_nothing_else() {
    let half = Number::Float(0x3fe0_0000_0000_0000);
    let mut c = Characteristic::<Number, ()>::new(
        HapType(0x11),
        Format::Float,
        vec![Perm::PairedRead],
        Number::Integer(0),
    );
    assert_eq!(c.write_json(Json::Number(half)), Ok(None));
    assert_eq!(c.read_json(), Ok((Json::Number(half), None)));
    assert_eq!(c.write_json(whole(21)), Ok(None));
    assert_eq!(c.read_json(), Ok((whole(21), None)));
    assert_eq!(c.write_json(Json::Bool(true)), Err(Error::Deserialization));
    assert_eq!(c.write_json(Json::String("21".to_string())), Err(Error::Deserialization));
    assert_eq!(c.read_json(), Ok((whole(21), None)));
}

#[test]
fn refused_untyped_write_to_a_number_calls_no_hook() {
    struct Count(Rc<RefCell<u32>>);
    impl Updatable<u8> for Count {
        fn told(&self) -> Updates<u8> {
            unreachable!("the history is ghost")
        }

        fn on_update(&mut self, _hap_type: HapType, _old_val: &u8, _new_val: &u8) {
            *self.0.borrow_mut() += 1;
        }
    }
    let count = Rc::new(RefCell::new(0));
    let mut typed: Characteristic<u8, (), Box<dyn Readable<u8>>, Count> =
        Characteristic::new(HapType(0x8), Format::UInt8, vec![Perm::PairedRead], 5);
    typed.set_event_notifications(Some(true));
    typed.set_event_emitter(Some(()));
    typed.set_updatable(Count(count.clone()));
    let mut c: Box<dyn HapCharacteristic<()>> = Box::new(typed);
    assert_eq!(c.set_value(Json::String("abc".to_string())), Err(Error::Deserialization));
    assert_eq!(c.set_value(whole(300)), Err(Error::Deserialization));
    assert_eq!(*count.borrow(), 0);
    assert_eq!(c.get_value(), Ok((whole(5), None)));
    assert!(matches!(c.set_value(whole(6)), Ok(Some(_))));
    assert_eq!(*count.borrow(), 1);
}

#[test]
fn untyped_write_in_two_halves() {
    let mut c = Characteristic::<bool, ()>::new(ON, Format::Bool, vec![Perm::PairedRead], false);
    assert!(matches!(c.begin_write_json(whole(2)), Err(Error::InvalidValue)));
    assert!(matches!(c.begin_write_json(Json::Null), Err(Error::Deserialization)));
    let pending = c.begin_write_json(whole(1)).unwrap();
    assert_eq!(*pending.event(), None);
    assert_eq!(*c.stored_value(), false);
    assert_eq!(c.commit(pending), None);
    assert_eq!(*c.stored_value(), true);
}
