use hap_characteristic::{
    Characteristic, Field, FieldKind, Format, HapCharacteristic, HapType, Json, Number, Perm, Unit,
};

const TEMPERATURE: HapType = HapType(0x11);

fn whole(k: i128) -> Json {
    Json::Number(Number::Integer(k))
}

fn names(fields: &Vec<Field>) -> Vec<&'static str> {
    fields.iter().map(|f| f.name()).collect()
}

fn temperature(unit: Option<Unit>) -> Characteristic<i32, ()> {
    let mut c =
        Characteristic::new(TEMPERATURE, Format::Int32, vec![Perm::PairedRead, Perm::Events], 21);
    c.set_unit(unit);
    c
}

#[test]
fn no_unit_field_without_a_unit() {
    let c = temperature(None);
    let fields = c.fields();
    assert!(!names(&fields).contains(&"unit"));
    assert!(fields.iter().all(|f| f.kind() != FieldKind::Unit));
    assert_eq!(c.field(FieldKind::Unit), None);
}

#[test]
fn unit_field_with_a_unit() {
    let c = temperature(Some(Unit::Celsius));
    let fields = c.fields();
    assert!(names(&fields).contains(&"unit"));
    assert!(fields.contains(&Field::Unit(Unit::Celsius)));
    assert_eq!(c.field(FieldKind::Unit), Some(Field::Unit(Unit::Celsius)));
}

#[test]
fn bare_record_has_the_four_fixed_fields_and_the_value() {
    let c = temperature(None);
    assert_eq!(
        c.fields(),
        vec![
            Field::Iid(0),
            Field::Type(TEMPERATURE),
            Field::Format(Format::Int32),
            Field::Perms(vec![Perm::PairedRead, Perm::Events]),
            Field::Value(whole(21)),
        ]
    );
}

#[test]
fn value_is_left_out_when_it_may_not_be_read() {
    let c: Characteristic<i32, ()> =
        Characteristic::new(TEMPERATURE, Format::Int32, vec![Perm::PairedWrite], 21);
    assert_eq!(names(&c.fields()), vec!["iid", "type", "format", "perms"]);
    assert_eq!(c.field(FieldKind::Value), None);
}

#[test]
fn full_record_in_order() {
    let mut c = temperature(Some(Unit::Celsius));
    c.set_id(7);
    c.set_description(Some("Current Temperature".to_string()));
    c.set_event_notifications(Some(false));
    c.set_max_value(Some(100));
    c.set_min_value(Some(-40));
    c.set_step_value(Some(1));
    c.set_max_len(Some(64));
    c.set_max_data_len(Some(1024));
    c.set_valid_values(Some(vec![-40, 0, 100]));
    c.set_valid_values_range(Some((-40, 100)));
    assert_eq!(
        c.fields(),
        vec![
            Field::Iid(7),
            Field::Type(TEMPERATURE),
            Field::Format(Format::Int32),
            Field::Perms(vec![Perm::PairedRead, Perm::Events]),
            Field::Description("Current Temperature".to_string()),
            Field::Ev(false),
            Field::Value(whole(21)),
            Field::Unit(Unit::Celsius),
            Field::MaxValue(whole(100)),
            Field::MinValue(whole(-40)),
            Field::MinStep(whole(1)),
            Field::MaxLen(64),
            Field::MaxDataLen(1024),
            Field::ValidValues(vec![whole(-40), whole(0), whole(100)]),
            Field::ValidValuesRange(whole(-40), whole(100)),
        ]
    );
    assert_eq!(
        names(&c.fields()),
        vec![
            "iid",
            "type",
            "format",
            "perms",
            "description",
            "ev",
            "value",
            "unit",
            "maxValue",
            "minValue",
            "minStep",
            "maxLen",
            "maxDataLen",
            "valid-values",
            "valid-values-range",
        ]
    );
}

#[test]
fn each_optional_field_alone() {
    let mut c: Characteristic<u8, ()> = Characteristic::new(HapType(0x8), Format::UInt8, vec![], 1);
    assert_eq!(names(&c.fields()), vec!["iid", "type", "format", "perms"]);
    c.set_description(Some("d".to_string()));
    assert_eq!(names(&c.fields()), vec!["iid", "type", "format", "perms", "description"]);
    c.set_description(None);
    c.set_event_notifications(Some(true));
    assert_eq!(names(&c.fields()), vec!["iid", "type", "format", "perms", "ev"]);
    c.set_event_notifications(None);
    c.set_max_value(Some(9));
    assert_eq!(names(&c.fields()), vec!["iid", "type", "format", "perms", "maxValue"]);
    c.set_max_value(None);
    c.set_min_value(Some(1));
    assert_eq!(names(&c.fields()), vec!["iid", "type", "format", "perms", "minValue"]);
    c.set_min_value(None);
    c.set_step_value(Some(1));
    assert_eq!(names(&c.fields()), vec!["iid", "type", "format", "perms", "minStep"]);
    c.set_step_value(None);
    c.set_max_len(Some(1));
    assert_eq!(names(&c.fields()), vec!["iid", "type", "format", "perms", "maxLen"]);
    c.set_max_len(None);
    c.set_max_data_len(Some(1));
    assert_eq!(names(&c.fields()), vec!["iid", "type", "format", "perms", "maxDataLen"]);
    c.set_max_data_len(None);
    c.set_valid_values(Some(vec![]));
    assert_eq!(names(&c.fields()), vec!["iid", "type", "format", "perms", "valid-values"]);
    assert_eq!(c.field(FieldKind::ValidValues), Some(Field::ValidValues(vec![])));
    c.set_valid_values(None);
    c.set_valid_values_range(Some((1, 2)));
    assert_eq!(names(&c.fields()), vec!["iid", "type", "format", "perms", "valid-values-range"]);
}

#[test]
fn field_kinds_by_position() {
    let expected = [
        FieldKind::Iid,
        FieldKind::Type,
        FieldKind::Format,
        FieldKind::Perms,
        FieldKind::Description,
        FieldKind::Ev,
        FieldKind::Value,
        FieldKind::Unit,
        FieldKind::MaxValue,
        FieldKind::MinValue,
        FieldKind::MinStep,
        FieldKind::MaxLen,
        FieldKind::MaxDataLen,
        FieldKind::ValidValues,
        FieldKind::ValidValuesRange,
    ];
    for (position, kind) in expected.iter().enumerate() {
        assert_eq!(FieldKind::from_position(position), *kind);
    }
}

#[test]
fn record_through_the_untyped_interface() {
    let mut typed: Characteristic<bool, ()> =
        Characteristic::new(HapType(0x25), Format::Bool, vec![Perm::PairedRead], true);
    typed.set_id(2);
    let c: Box<dyn HapCharacteristic<()>> = Box::new(typed);
    assert_eq!(
        c.fields(),
        vec![
            Field::Iid(2),
            Field::Type(HapType(0x25)),
            Field::Format(Format::Bool),
            Field::Perms(vec![Perm::PairedRead]),
            Field::Value(Json::Bool(true)),
        ]
    );
}

#[test]
fn record_shows_the_stored_value_without_calling_the_read_hook() {
    struct Nine;
    impl hap_characteristic::Readable<u8> for Nine {
        fn supplied(&self) -> hap_characteristic::Reads<u8> {
            unreachable!("the history is ghost")
        }

        fn on_read(&mut self, _hap_type: HapType) -> u8 {
            9
        }
    }
    let mut c: Characteristic<u8, ()> =
        Characteristic::new(HapType(0x8), Format::UInt8, vec![Perm::PairedRead], 1);
    c.set_readable(Box::new(Nine));
    assert_eq!(c.field(FieldKind::Value), Some(Field::Value(whole(1))));
    assert_eq!(c.get_value(), Ok((&9, None)));
    assert_eq!(c.field(FieldKind::Value), Some(Field::Value(whole(9))));
}
