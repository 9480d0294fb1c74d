use hap_characteristic::{Error, Format, HapValue, Json, Number, Perm, Unit};

fn whole(k: i128) -> Json {
    Json::Number(Number::Integer(k))
}

#[test]
fn bool_has_boolean_form() {
    assert_eq!(true.to_json(), Json::Bool(true));
    assert_eq!(false.to_json(), Json::Bool(false));
    assert_eq!(bool::from_json(&Json::Bool(true)), Ok(true));
    assert_eq!(bool::from_json(&Json::Bool(false)), Ok(false));
}

#[test]
fn bool_is_read_from_nothing_else() {
    assert_eq!(bool::from_json(&whole(1)), Err(Error::Deserialization));
    assert_eq!(bool::from_json(&Json::Null), Err(Error::Deserialization));
    assert_eq!(bool::from_json(&Json::String("true".to_string())), Err(Error::Deserialization));
}

#[test]
fn u8_is_read_within_its_range() {
    assert_eq!(u8::from_json(&whole(0)), Ok(0));
    assert_eq!(u8::from_json(&whole(7)), Ok(7));
    assert_eq!(u8::from_json(&whole(255)), Ok(255));
}

#[test]
fn u8_is_refused_outside_its_range() {
    assert_eq!(u8::from_json(&whole(256)), Err(Error::Deserialization));
    assert_eq!(u8::from_json(&whole(-1)), Err(Error::Deserialization));
    assert_eq!(u8::from_json(&whole(i128::MAX)), Err(Error::Deserialization));
    assert_eq!(u8::from_json(&whole(i128::MIN)), Err(Error::Deserialization));
}

#[test]
fn u8_is_not_read_from_a_float() {
    let one = Json::Number(Number::Float(0x3ff0_0000_0000_0000));
    assert_eq!(u8::from_json(&one), Err(Error::Deserialization));
}

#[test]
fn u16_limits() {
    assert_eq!(u16::from_json(&whole(65535)), Ok(65535));
    assert_eq!(u16::from_json(&whole(65536)), Err(Error::Deserialization));
    assert_eq!(u16::from_json(&whole(-1)), Err(Error::Deserialization));
    assert_eq!(300u16.to_json(), whole(300));
}

#[test]
fn u32_limits() {
    assert_eq!(u32::from_json(&whole(4_294_967_295)), Ok(u32::MAX));
    assert_eq!(u32::from_json(&whole(4_294_967_296)), Err(Error::Deserialization));
    assert_eq!(u32::from_json(&whole(-5)), Err(Error::Deserialization));
    assert_eq!(70_000u32.to_json(), whole(70_000));
}

#[test]
fn u64_limits() {
    assert_eq!(u64::from_json(&whole(u64::MAX as i128)), Ok(u64::MAX));
    assert_eq!(u64::from_json(&whole(u64::MAX as i128 + 1)), Err(Error::Deserialization));
    assert_eq!(u64::from_json(&whole(-1)), Err(Error::Deserialization));
    assert_eq!(u64::MAX.to_json(), whole(18_446_744_073_709_551_615));
}

#[test]
fn i32_limits() {
    assert_eq!(i32::from_json(&whole(2_147_483_647)), Ok(i32::MAX));
    assert_eq!(i32::from_json(&whole(-2_147_483_648)), Ok(i32::MIN));
    assert_eq!(i32::from_json(&whole(2_147_483_648)), Err(Error::Deserialization));
    assert_eq!(i32::from_json(&whole(-2_147_483_649)), Err(Error::Deserialization));
    assert_eq!(i32::from_json(&whole(i64::MIN as i128 - 1)), Err(Error::Deserialization));
    assert_eq!((-12i32).to_json(), whole(-12));
}

#[test]
fn integers_are_not_read_from_text() {
    let text = Json::String("12".to_string());
    assert_eq!(u8::from_json(&text), Err(Error::Deserialization));
    assert_eq!(u16::from_json(&text), Err(Error::Deserialization));
    assert_eq!(u32::from_json(&text), Err(Error::Deserialization));
    assert_eq!(u64::from_json(&text), Err(Error::Deserialization));
    assert_eq!(i32::from_json(&text), Err(Error::Deserialization));
}

#[test]
fn string_round_trip() {
    let s = "Living room".to_string();
    assert_eq!(s.to_json(), Json::String("Living room".to_string()));
    assert_eq!(String::from_json(&s.to_json()), Ok(s));
    assert_eq!(String::from_json(&whole(3)), Err(Error::Deserialization));
}

#[test]
fn bytes_are_an_array_of_numbers() {
    let data: Vec<u8> = vec![0, 1, 255];
    assert_eq!(data.to_json(), Json::Array(vec![whole(0), whole(1), whole(255)]));
    assert_eq!(Vec::<u8>::from_json(&data.to_json()), Ok(data));
    assert_eq!(Vec::<u8>::new().to_json(), Json::Array(vec![]));
    assert_eq!(Vec::<u8>::from_json(&Json::Array(vec![])), Ok(vec![]));
}

#[test]
fn bytes_are_refused_when_one_item_is_no_byte() {
    let wide = Json::Array(vec![whole(1), whole(256)]);
    assert_eq!(Vec::<u8>::from_json(&wide), Err(Error::Deserialization));
    let mixed = Json::Array(vec![whole(1), Json::Bool(true)]);
    assert_eq!(Vec::<u8>::from_json(&mixed), Err(Error::Deserialization));
    assert_eq!(Vec::<u8>::from_json(&Json::String("AQ==".to_string())), Err(Error::Deserialization));
    let object = Json::Object(vec![("a".to_string(), whole(1))]);
    assert_eq!(Vec::<u8>::from_json(&object), Err(Error::Deserialization));
}

#[test]
fn every_value_is_read_back_from_its_own_form() {
    assert_eq!(bool::from_json(&true.to_json()), Ok(true));
    assert_eq!(u8::from_json(&200u8.to_json()), Ok(200));
    assert_eq!(u16::from_json(&40_000u16.to_json()), Ok(40_000));
    assert_eq!(u32::from_json(&3_000_000_000u32.to_json()), Ok(3_000_000_000));
    assert_eq!(u64::from_json(&u64::MAX.to_json()), Ok(u64::MAX));
    assert_eq!(i32::from_json(&i32::MIN.to_json()), Ok(i32::MIN));
}

#[test]
fn is_number_tells_numbers_apart() {
    assert!(whole(0).is_number());
    assert!(Json::Number(Number::Float(0)).is_number());
    assert!(!Json::Bool(true).is_number());
    assert!(!Json::Null.is_number());
    assert!(!Json::String("1".to_string()).is_number());
    assert!(!Json::Array(vec![whole(1)]).is_number());
}

#[test]
fn wire_names_of_permissions() {
    assert_eq!(Perm::PairedRead.as_str(), "pr");
    assert_eq!(Perm::PairedWrite.as_str(), "pw");
    assert_eq!(Perm::Events.as_str(), "ev");
    assert_eq!(Perm::AdditionalAuthorization.as_str(), "aa");
    assert_eq!(Perm::TimedWrite.as_str(), "tw");
    assert_eq!(Perm::Hidden.as_str(), "hd");
}

#[test]
fn wire_names_of_units() {
    assert_eq!(Unit::Percentage.as_str(), "percentage");
    assert_eq!(Unit::ArcDegrees.as_str(), "arcdegrees");
    assert_eq!(Unit::Celsius.as_str(), "celsius");
    assert_eq!(Unit::Lux.as_str(), "lux");
    assert_eq!(Unit::Seconds.as_str(), "seconds");
}

#[test]
fn wire_names_of_formats() {
    assert_eq!(Format::String.as_str(), "string");
    assert_eq!(Format::Bool.as_str(), "bool");
    assert_eq!(Format::Float.as_str(), "float");
    assert_eq!(Format::UInt8.as_str(), "uint8");
    assert_eq!(Format::UInt16.as_str(), "uint16");
    assert_eq!(Format::UInt32.as_str(), "uint32");
    assert_eq!(Format::UInt64.as_str(), "uint64");
    assert_eq!(Format::Int32.as_str(), "int32");
    assert_eq!(Format::Tlv8.as_str(), "tlv8");
    assert_eq!(Format::Data.as_str(), "data");
}

#[test]
fn default_format_is_string() {
    assert_eq!(Format::default(), Format::String);
}

#[test]
fn error_messages() {
    assert_eq!(Error::InvalidValue.message(), "invalid value");
    assert_ne!(Error::Deserialization.message(), Error::InvalidValue.message());
}

#[test]
fn number_kind_keeps_the_number() {
    let half = Number::Float(0x3fe0_0000_0000_0000);
    assert_eq!(half.to_json(), Json::Number(half));
    assert_eq!(Number::from_json(&Json::Number(half)), Ok(half));
    assert_eq!(Number::from_json(&whole(-3)), Ok(Number::Integer(-3)));
    assert_eq!(Number::from_json(&Json::Bool(true)), Err(Error::Deserialization));
    assert_eq!(Number::from_json(&Json::String("0.5".to_string())), Err(Error::Deserialization));
}

#[test]
fn clone_copies_the_whole_tree() {
    let tree = Json::Object(vec![
        ("name".to_string(), Json::String("Lamp".to_string())),
        (
            "levels".to_string(),
            Json::Array(vec![whole(1), Json::Null, Json::Array(vec![Json::Bool(true)])]),
        ),
        ("inner".to_string(), Json::Object(vec![("x".to_string(), whole(-1))])),
    ]);
    let copy = tree.clone();
    assert_eq!(copy, tree);
    assert_eq!(Json::Null.clone(), Json::Null);
    assert_eq!(whole(5).clone(), whole(5));
    assert_eq!(Json::Array(vec![]).clone(), Json::Array(vec![]));
}
