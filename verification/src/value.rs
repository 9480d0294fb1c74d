use crate::error::Error;
use crate::json::{lemma_array_view, views_of, Json, JsonView, Number};
use vstd::prelude::*;

verus! {

/// A kind of value that a characteristic can hold: it has an untyped form,
/// and can be read back from it.
pub trait HapValue: View + Sized {
    /// The untyped form of `v`.
    spec fn json_of(v: Self::V) -> JsonView;

    /// The value that `j` stands for, if it stands for one of this kind.
    spec fn value_of(j: JsonView) -> Option<Self::V>;

    /// The untyped form of the value.
    fn to_json(&self) -> (j: Json)
        ensures
            j@ == Self::json_of(self@),
    ;

    /// Reads a value of this kind from its untyped form. Fails exactly on the
    /// untyped values that stand for none.
    fn from_json(j: &Json) -> (r: Result<Self, Error>)
        ensures
            r matches Ok(v) ==> Self::value_of(j@) == Some(v@),
            r matches Err(e) ==> e == Error::Deserialization && Self::value_of(j@) is None,
    ;

    /// A value is read back from its own untyped form.
    proof fn lemma_round_trip(v: Self::V)
        ensures
            Self::value_of(Self::json_of(v)) == Some(v),
    ;
}

/// The `u8` that the whole number `k` is, if it is one.
pub open spec fn narrow_u8(k: i128) -> Option<u8> {
    if 0 <= k <= u8::MAX {
        Some(k as u8)
    } else {
        None
    }
}

/// The `u16` that the whole number `k` is, if it is one.
pub open spec fn narrow_u16(k: i128) -> Option<u16> {
    if 0 <= k <= u16::MAX {
        Some(k as u16)
    } else {
        None
    }
}

/// The `u32` that the whole number `k` is, if it is one.
pub open spec fn narrow_u32(k: i128) -> Option<u32> {
    if 0 <= k <= u32::MAX {
        Some(k as u32)
    } else {
        None
    }
}

/// The `u64` that the whole number `k` is, if it is one.
pub open spec fn narrow_u64(k: i128) -> Option<u64> {
    if 0 <= k <= u64::MAX {
        Some(k as u64)
    } else {
        None
    }
}

/// The `i32` that the whole number `k` is, if it is one.
pub open spec fn narrow_i32(k: i128) -> Option<i32> {
    if i32::MIN <= k <= i32::MAX {
        Some(k as i32)
    } else {
        None
    }
}

/// `serde_json::from_value::<u8>`, called on the JSON number that
/// `serde_json::Number::from_i128` makes of `k`. Trusted: the number is read
/// as a `u8` exactly when it lies in the range of `u8`, and is then that
/// number; outside the range, and where `k` is no JSON number, there is no
/// result.
#[verifier::external_body]
fn integer_to_u8(k: i128) -> (r: Option<u8>)
    ensures
        r == narrow_u8(k),
{
    match serde_json::Number::from_i128(k) {
        Some(n) => serde_json::from_value::<u8>(serde_json::Value::Number(n)).ok(),
        None => None,
    }
}

/// `serde_json::from_value::<u16>`, called on the JSON number that
/// `serde_json::Number::from_i128` makes of `k`. Trusted: the number is read
/// as a `u16` exactly when it lies in the range of `u16`, and is then that
/// number.
#[verifier::external_body]
fn integer_to_u16(k: i128) -> (r: Option<u16>)
    ensures
        r == narrow_u16(k),
{
    match serde_json::Number::from_i128(k) {
        Some(n) => serde_json::from_value::<u16>(serde_json::Value::Number(n)).ok(),
        None => None,
    }
}

/// `serde_json::from_value::<u32>`, called on the JSON number that
/// `serde_json::Number::from_i128` makes of `k`. Trusted: the number is read
/// as a `u32` exactly when it lies in the range of `u32`, and is then that
/// number.
#[verifier::external_body]
fn integer_to_u32(k: i128) -> (r: Option<u32>)
    ensures
        r == narrow_u32(k),
{
    match serde_json::Number::from_i128(k) {
        Some(n) => serde_json::from_value::<u32>(serde_json::Value::Number(n)).ok(),
        None => None,
    }
}

/// `serde_json::from_value::<u64>`, called on the JSON number that
/// `serde_json::Number::from_i128` makes of `k`. Trusted: the number is read
/// as a `u64` exactly when it lies in the range of `u64`, and is then that
/// number.
#[verifier::external_body]
fn integer_to_u64(k: i128) -> (r: Option<u64>)
    ensures
        r == narrow_u64(k),
{
    match serde_json::Number::from_i128(k) {
        Some(n) => serde_json::from_value::<u64>(serde_json::Value::Number(n)).ok(),
        None => None,
    }
}

/// `serde_json::from_value::<i32>`, called on the JSON number that
/// `serde_json::Number::from_i128` makes of `k`. Trusted: the number is read
/// as an `i32` exactly when it lies in the range of `i32`, and is then that
/// number.
#[verifier::external_body]
fn integer_to_i32(k: i128) -> (r: Option<i32>)
    ensures
        r == narrow_i32(k),
{
    match serde_json::Number::from_i128(k) {
        Some(n) => serde_json::from_value::<i32>(serde_json::Value::Number(n)).ok(),
        None => None,
    }
}

impl HapValue for bool {
    open spec fn json_of(v: bool) -> JsonView {
        JsonView::Bool(v)
    }

    open spec fn value_of(j: JsonView) -> Option<bool> {
        match j {
            JsonView::Bool(b) => Some(b),
            _ => None,
        }
    }

    fn to_json(&self) -> (j: Json) {
        Json::Bool(*self)
    }

    fn from_json(j: &Json) -> (r: Result<bool, Error>) {
        match j {
            Json::Bool(b) => Ok(*b),
            _ => Err(Error::Deserialization),
        }
    }

    proof fn lemma_round_trip(v: bool) {
    }
}

impl HapValue for u8 {
    open spec fn json_of(v: u8) -> JsonView {
        JsonView::Number(Number::Integer(v as i128))
    }

    /// A float is no `u8`, not even one without a fraction.
    open spec fn value_of(j: JsonView) -> Option<u8> {
        match j {
            JsonView::Number(Number::Integer(k)) => narrow_u8(k),
            _ => None,
        }
    }

    fn to_json(&self) -> (j: Json) {
        Json::Number(Number::Integer(*self as i128))
    }

    fn from_json(j: &Json) -> (r: Result<u8, Error>) {
        match j {
            Json::Number(Number::Integer(k)) => match integer_to_u8(*k) {
                Some(v) => Ok(v),
                None => Err(Error::Deserialization),
            },
            _ => Err(Error::Deserialization),
        }
    }

    proof fn lemma_round_trip(v: u8) {
    }
}

impl HapValue for u16 {
    open spec fn json_of(v: u16) -> JsonView {
        JsonView::Number(Number::Integer(v as i128))
    }

    open spec fn value_of(j: JsonView) -> Option<u16> {
        match j {
            JsonView::Number(Number::Integer(k)) => narrow_u16(k),
            _ => None,
        }
    }

    fn to_json(&self) -> (j: Json) {
        Json::Number(Number::Integer(*self as i128))
    }

    fn from_json(j: &Json) -> (r: Result<u16, Error>) {
        match j {
            Json::Number(Number::Integer(k)) => match integer_to_u16(*k) {
                Some(v) => Ok(v),
                None => Err(Error::Deserialization),
            },
            _ => Err(Error::Deserialization),
        }
    }

    proof fn lemma_round_trip(v: u16) {
    }
}

impl HapValue for u32 {
    open spec fn json_of(v: u32) -> JsonView {
        JsonView::Number(Number::Integer(v as i128))
    }

    open spec fn value_of(j: JsonView) -> Option<u32> {
        match j {
            JsonView::Number(Number::Integer(k)) => narrow_u32(k),
            _ => None,
        }
    }

    fn to_json(&self) -> (j: Json) {
        Json::Number(Number::Integer(*self as i128))
    }

    fn from_json(j: &Json) -> (r: Result<u32, Error>) {
        match j {
            Json::Number(Number::Integer(k)) => match integer_to_u32(*k) {
                Some(v) => Ok(v),
                None => Err(Error::Deserialization),
            },
            _ => Err(Error::Deserialization),
        }
    }

    proof fn lemma_round_trip(v: u32) {
    }
}

impl HapValue for u64 {
    open spec fn json_of(v: u64) -> JsonView {
        JsonView::Number(Number::Integer(v as i128))
    }

    open spec fn value_of(j: JsonView) -> Option<u64> {
        match j {
            JsonView::Number(Number::Integer(k)) => narrow_u64(k),
            _ => None,
        }
    }

    fn to_json(&self) -> (j: Json) {
        Json::Number(Number::Integer(*self as i128))
    }

    fn from_json(j: &Json) -> (r: Result<u64, Error>) {
        match j {
            Json::Number(Number::Integer(k)) => match integer_to_u64(*k) {
                Some(v) => Ok(v),
                None => Err(Error::Deserialization),
            },
            _ => Err(Error::Deserialization),
        }
    }

    proof fn lemma_round_trip(v: u64) {
    }
}

impl HapValue for i32 {
    open spec fn json_of(v: i32) -> JsonView {
        JsonView::Number(Number::Integer(v as i128))
    }

    open spec fn value_of(j: JsonView) -> Option<i32> {
        match j {
            JsonView::Number(Number::Integer(k)) => narrow_i32(k),
            _ => None,
        }
    }

    fn to_json(&self) -> (j: Json) {
        Json::Number(Number::Integer(*self as i128))
    }

    fn from_json(j: &Json) -> (r: Result<i32, Error>) {
        match j {
            Json::Number(Number::Integer(k)) => match integer_to_i32(*k) {
                Some(v) => Ok(v),
                None => Err(Error::Deserialization),
            },
            _ => Err(Error::Deserialization),
        }
    }

    proof fn lemma_round_trip(v: i32) {
    }
}

/// A number of either sort, kept as JSON has it. It is the kind of value
/// of a characteristic of the float format: the number goes in and out
/// unchanged, and whoever holds the characteristic reads it as a float.
impl HapValue for Number {
    open spec fn json_of(v: Number) -> JsonView {
        JsonView::Number(v)
    }

    open spec fn value_of(j: JsonView) -> Option<Number> {
        match j {
            JsonView::Number(n) => Some(n),
            _ => None,
        }
    }

    fn to_json(&self) -> (j: Json) {
        Json::Number(*self)
    }

    fn from_json(j: &Json) -> (r: Result<Number, Error>) {
        match j {
            Json::Number(n) => Ok(*n),
            _ => Err(Error::Deserialization),
        }
    }

    proof fn lemma_round_trip(v: Number) {
    }
}

impl HapValue for String {
    open spec fn json_of(v: Seq<char>) -> JsonView {
        JsonView::String(v)
    }

    open spec fn value_of(j: JsonView) -> Option<Seq<char>> {
        match j {
            JsonView::String(s) => Some(s),
            _ => None,
        }
    }

    fn to_json(&self) -> (j: Json) {
        Json::String(self.clone())
    }

    fn from_json(j: &Json) -> (r: Result<String, Error>) {
        match j {
            Json::String(s) => Ok(s.clone()),
            _ => Err(Error::Deserialization),
        }
    }

    proof fn lemma_round_trip(v: Seq<char>) {
    }
}

/// The untyped form of each byte of `bytes`.
pub open spec fn json_of_bytes(bytes: Seq<u8>) -> Seq<JsonView> {
    bytes.map_values(|b: u8| <u8 as HapValue>::json_of(b))
}

/// Whether each of `items` stands for a byte.
pub open spec fn all_bytes(items: Seq<JsonView>) -> bool {
    forall|i: int| 0 <= i < items.len() ==> (#[trigger] <u8 as HapValue>::value_of(items[i])) is Some
}

/// The bytes that `items` stand for, where each of them stands for one.
pub open spec fn bytes_of(items: Seq<JsonView>) -> Seq<u8> {
    items.map_values(|j: JsonView| <u8 as HapValue>::value_of(j).unwrap())
}

/// Binary data: its untyped form is the array of its bytes.
impl HapValue for Vec<u8> {
    open spec fn json_of(v: Seq<u8>) -> JsonView {
        JsonView::Array(json_of_bytes(v))
    }

    open spec fn value_of(j: JsonView) -> Option<Seq<u8>> {
        match j {
            JsonView::Array(items) => if all_bytes(items) {
                Some(bytes_of(items))
            } else {
                None
            },
            _ => None,
        }
    }

    fn to_json(&self) -> (j: Json) {
        let mut items: Vec<Json> = Vec::new();
        let mut i: usize = 0;
        while i < self.len()
            invariant
                i <= self.len(),
                items.len() == i,
                forall|k: int|
                    0 <= k < i ==> (#[trigger] items[k])@ == <u8 as HapValue>::json_of(self[k]),
            decreases self.len() - i,
        {
            items.push(self[i].to_json());
            i += 1;
        }
        proof {
            lemma_array_view(items);
            assert(views_of(items@) =~= json_of_bytes(self@));
        }
        Json::Array(items)
    }

    fn from_json(j: &Json) -> (r: Result<Vec<u8>, Error>) {
        match j {
            Json::Array(items) => {
                proof {
                    lemma_array_view(*items);
                }
                let mut bytes: Vec<u8> = Vec::new();
                let mut i: usize = 0;
                while i < items.len()
                    invariant
                        j@ == JsonView::Array(views_of(items@)),
                        i <= items.len(),
                        bytes.len() == i,
                        forall|k: int|
                            0 <= k < i ==> <u8 as HapValue>::value_of((#[trigger] items[k])@)
                                == Some(bytes[k]),
                    decreases items.len() - i,
                {
                    match u8::from_json(&items[i]) {
                        Ok(b) => {
                            bytes.push(b);
                        },
                        Err(_) => {
                            assert(views_of(items@)[i as int] == items[i as int]@);
                            assert(!all_bytes(views_of(items@)));
                            return Err(Error::Deserialization);
                        },
                    }
                    i += 1;
                }
                proof {
                    assert forall|k: int| 0 <= k < views_of(items@).len() implies (
                    #[trigger] <u8 as HapValue>::value_of(views_of(items@)[k])) is Some by {
                        assert(views_of(items@)[k] == items[k]@);
                    }
                    assert(bytes_of(views_of(items@)) =~= bytes@);
                }
                Ok(bytes)
            },
            _ => Err(Error::Deserialization),
        }
    }

    proof fn lemma_round_trip(v: Seq<u8>) {
        assert(all_bytes(json_of_bytes(v)));
        assert(bytes_of(json_of_bytes(v)) =~= v);
    }
}

} // verus!
