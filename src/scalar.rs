use vstd::prelude::*;
use crate::decimal::{render_signed, render_unsigned, signed_decimal};

verus! {

/// The mathematical content of a persisted scalar.
pub enum Scalar {
    /// A text value.
    Text(Seq<char>),
    /// An integer value, whatever its storage width.
    Int(int),
}

impl Scalar {
    /// How the scalar is shown in messages: text as it is, integers in decimal.
    pub open spec fn rendered(self) -> Seq<char> {
        match self {
            Scalar::Text(s) => s,
            Scalar::Int(n) => signed_decimal(n),
        }
    }
}

/// The storage layer's generic representation of a column value.
#[verifier::external_type_specification]
#[verifier::external_body]
pub struct ExValue(sea_query::Value);

/// The storage layer's error for a value that holds another type than the one read.
#[verifier::external_type_specification]
#[verifier::external_body]
pub struct ExValueTypeErr(sea_query::ValueTypeErr);

/// What sea-query reads as `String` out of a stored value: the string held in
/// `Value::String(Some(_))`; nothing for any other value, NULL included.
pub uninterp spec fn string_of_db(v: sea_query::Value) -> Option<Seq<char>>;

/// Relies on `From<String> for sea_query::Value`: wraps the string as
/// `Value::String(Some(_))`, which reads back as the string.
#[verifier::external_body]
fn string_into_db_value(x: String) -> (r: sea_query::Value)
    ensures
        string_of_db(r) == Some(x@),
{
    sea_query::Value::from(x)
}

/// Relies on `sea_query::ValueType::try_from` for `String`: takes the string out of
/// `Value::String(Some(_))` and fails with `ValueTypeErr` on any other value.
#[verifier::external_body]
fn string_from_db_value(v: sea_query::Value) -> (r: Result<String, sea_query::ValueTypeErr>)
    ensures
        match string_of_db(v) {
            Some(x) => r matches Ok(y) && y@ == x,
            None => r is Err,
        },
{
    <String as sea_query::ValueType>::try_from(v)
}

/// What sea-query reads as `i8` out of a stored value: the integer held in
/// `Value::TinyInt(Some(_))`; nothing for any other value, NULL included.
pub uninterp spec fn i8_of_db(v: sea_query::Value) -> Option<i8>;

/// Relies on `From<i8> for sea_query::Value`: wraps the integer as
/// `Value::TinyInt(Some(_))`, which reads back as the integer.
#[verifier::external_body]
fn i8_into_db_value(x: i8) -> (r: sea_query::Value)
    ensures
        i8_of_db(r) == Some(x),
{
    sea_query::Value::from(x)
}

/// Relies on `sea_query::ValueType::try_from` for `i8`: takes the integer out of
/// `Value::TinyInt(Some(_))` and fails with `ValueTypeErr` on any other value.
#[verifier::external_body]
fn i8_from_db_value(v: sea_query::Value) -> (r: Result<i8, sea_query::ValueTypeErr>)
    ensures
        match i8_of_db(v) {
            Some(x) => r matches Ok(y) && y == x,
            None => r is Err,
        },
{
    <i8 as sea_query::ValueType>::try_from(v)
}

/// What sea-query reads as `i16` out of a stored value: the integer held in
/// `Value::SmallInt(Some(_))`; nothing for any other value, NULL included.
pub uninterp spec fn i16_of_db(v: sea_query::Value) -> Option<i16>;

/// Relies on `From<i16> for sea_query::Value`: wraps the integer as
/// `Value::SmallInt(Some(_))`, which reads back as the integer.
#[verifier::external_body]
fn i16_into_db_value(x: i16) -> (r: sea_query::Value)
    ensures
        i16_of_db(r) == Some(x),
{
    sea_query::Value::from(x)
}

/// Relies on `sea_query::ValueType::try_from` for `i16`: takes the integer out of
/// `Value::SmallInt(Some(_))` and fails with `ValueTypeErr` on any other value.
#[verifier::external_body]
fn i16_from_db_value(v: sea_query::Value) -> (r: Result<i16, sea_query::ValueTypeErr>)
    ensures
        match i16_of_db(v) {
            Some(x) => r matches Ok(y) && y == x,
            None => r is Err,
        },
{
    <i16 as sea_query::ValueType>::try_from(v)
}

/// What sea-query reads as `i32` out of a stored value: the integer held in
/// `Value::Int(Some(_))`; nothing for any other value, NULL included.
pub uninterp spec fn i32_of_db(v: sea_query::Value) -> Option<i32>;

/// Relies on `From<i32> for sea_query::Value`: wraps the integer as
/// `Value::Int(Some(_))`, which reads back as the integer.
#[verifier::external_body]
fn i32_into_db_value(x: i32) -> (r: sea_query::Value)
    ensures
        i32_of_db(r) == Some(x),
{
    sea_query::Value::from(x)
}

/// Relies on `sea_query::ValueType::try_from` for `i32`: takes the integer out of
/// `Value::Int(Some(_))` and fails with `ValueTypeErr` on any other value.
#[verifier::external_body]
fn i32_from_db_value(v: sea_query::Value) -> (r: Result<i32, sea_query::ValueTypeErr>)
    ensures
        match i32_of_db(v) {
            Some(x) => r matches Ok(y) && y == x,
            None => r is Err,
        },
{
    <i32 as sea_query::ValueType>::try_from(v)
}

/// What sea-query reads as `i64` out of a stored value: the integer held in
/// `Value::BigInt(Some(_))`; nothing for any other value, NULL included.
pub uninterp spec fn i64_of_db(v: sea_query::Value) -> Option<i64>;

/// Relies on `From<i64> for sea_query::Value`: wraps the integer as
/// `Value::BigInt(Some(_))`, which reads back as the integer.
#[verifier::external_body]
fn i64_into_db_value(x: i64) -> (r: sea_query::Value)
    ensures
        i64_of_db(r) == Some(x),
{
    sea_query::Value::from(x)
}

/// Relies on `sea_query::ValueType::try_from` for `i64`: takes the integer out of
/// `Value::BigInt(Some(_))` and fails with `ValueTypeErr` on any other value.
#[verifier::external_body]
fn i64_from_db_value(v: sea_query::Value) -> (r: Result<i64, sea_query::ValueTypeErr>)
    ensures
        match i64_of_db(v) {
            Some(x) => r matches Ok(y) && y == x,
            None => r is Err,
        },
{
    <i64 as sea_query::ValueType>::try_from(v)
}

/// What sea-query reads as `u8` out of a stored value: the integer held in
/// `Value::TinyUnsigned(Some(_))`; nothing for any other value, NULL included.
pub uninterp spec fn u8_of_db(v: sea_query::Value) -> Option<u8>;

/// Relies on `From<u8> for sea_query::Value`: wraps the integer as
/// `Value::TinyUnsigned(Some(_))`, which reads back as the integer.
#[verifier::external_body]
fn u8_into_db_value(x: u8) -> (r: sea_query::Value)
    ensures
        u8_of_db(r) == Some(x),
{
    sea_query::Value::from(x)
}

/// Relies on `sea_query::ValueType::try_from` for `u8`: takes the integer out of
/// `Value::TinyUnsigned(Some(_))` and fails with `ValueTypeErr` on any other value.
#[verifier::external_body]
fn u8_from_db_value(v: sea_query::Value) -> (r: Result<u8, sea_query::ValueTypeErr>)
    ensures
        match u8_of_db(v) {
            Some(x) => r matches Ok(y) && y == x,
            None => r is Err,
        },
{
    <u8 as sea_query::ValueType>::try_from(v)
}

/// What sea-query reads as `u16` out of a stored value: the integer held in
/// `Value::SmallUnsigned(Some(_))`; nothing for any other value, NULL included.
pub uninterp spec fn u16_of_db(v: sea_query::Value) -> Option<u16>;

/// Relies on `From<u16> for sea_query::Value`: wraps the integer as
/// `Value::SmallUnsigned(Some(_))`, which reads back as the integer.
#[verifier::external_body]
fn u16_into_db_value(x: u16) -> (r: sea_query::Value)
    ensures
        u16_of_db(r) == Some(x),
{
    sea_query::Value::from(x)
}

/// Relies on `sea_query::ValueType::try_from` for `u16`: takes the integer out of
/// `Value::SmallUnsigned(Some(_))` and fails with `ValueTypeErr` on any other value.
#[verifier::external_body]
fn u16_from_db_value(v: sea_query::Value) -> (r: Result<u16, sea_query::ValueTypeErr>)
    ensures
        match u16_of_db(v) {
            Some(x) => r matches Ok(y) && y == x,
            None => r is Err,
        },
{
    <u16 as sea_query::ValueType>::try_from(v)
}

/// What sea-query reads as `u32` out of a stored value: the integer held in
/// `Value::Unsigned(Some(_))`; nothing for any other value, NULL included.
pub uninterp spec fn u32_of_db(v: sea_query::Value) -> Option<u32>;

/// Relies on `From<u32> for sea_query::Value`: wraps the integer as
/// `Value::Unsigned(Some(_))`, which reads back as the integer.
#[verifier::external_body]
fn u32_into_db_value(x: u32) -> (r: sea_query::Value)
    ensures
        u32_of_db(r) == Some(x),
{
    sea_query::Value::from(x)
}

/// Relies on `sea_query::ValueType::try_from` for `u32`: takes the integer out of
/// `Value::Unsigned(Some(_))` and fails with `ValueTypeErr` on any other value.
#[verifier::external_body]
fn u32_from_db_value(v: sea_query::Value) -> (r: Result<u32, sea_query::ValueTypeErr>)
    ensures
        match u32_of_db(v) {
            Some(x) => r matches Ok(y) && y == x,
            None => r is Err,
        },
{
    <u32 as sea_query::ValueType>::try_from(v)
}

/// What sea-query reads as `u64` out of a stored value: the integer held in
/// `Value::BigUnsigned(Some(_))`; nothing for any other value, NULL included.
pub uninterp spec fn u64_of_db(v: sea_query::Value) -> Option<u64>;

/// Relies on `From<u64> for sea_query::Value`: wraps the integer as
/// `Value::BigUnsigned(Some(_))`, which reads back as the integer.
#[verifier::external_body]
fn u64_into_db_value(x: u64) -> (r: sea_query::Value)
    ensures
        u64_of_db(r) == Some(x),
{
    sea_query::Value::from(x)
}

/// Relies on `sea_query::ValueType::try_from` for `u64`: takes the integer out of
/// `Value::BigUnsigned(Some(_))` and fails with `ValueTypeErr` on any other value.
#[verifier::external_body]
fn u64_from_db_value(v: sea_query::Value) -> (r: Result<u64, sea_query::ValueTypeErr>)
    ensures
        match u64_of_db(v) {
            Some(x) => r matches Ok(y) && y == x,
            None => r is Err,
        },
{
    <u64 as sea_query::ValueType>::try_from(v)
}

/// A Rust type that can hold the persisted form of an enum variant.
pub trait ScalarValue: Sized {
    /// What the value means.
    spec fn model(&self) -> Scalar;

    /// What a stored value holds when read as this type, if it holds one.
    spec fn db_model(v: sea_query::Value) -> Option<Scalar>;

    /// Equality of the values.
    fn same_as(&self, other: &Self) -> (r: bool)
        ensures
            r == (self.model() == other.model()),
    ;

    /// The value as shown in messages.
    fn render(&self) -> (r: String)
        ensures
            r@ == self.model().rendered(),
    ;

    /// The value in the storage layer's generic representation.
    fn into_db_value(self) -> (r: sea_query::Value)
        ensures
            Self::db_model(r) == Some(self.model()),
    ;

    /// Reads a value of this type out of the storage layer's representation;
    /// fails when the stored value does not hold one.
    fn from_db_value(v: sea_query::Value) -> (r: Result<Self, sea_query::ValueTypeErr>)
        ensures
            match Self::db_model(v) {
                Some(s) => r matches Ok(y) && y.model() == s,
                None => r is Err,
            },
    ;
}

impl ScalarValue for String {
    open spec fn model(&self) -> Scalar {
        Scalar::Text(self@)
    }

    open spec fn db_model(v: sea_query::Value) -> Option<Scalar> {
        match string_of_db(v) {
            Some(x) => Some(Scalar::Text(x)),
            None => None,
        }
    }

    fn same_as(&self, other: &Self) -> (r: bool) {
        *self == *other
    }

    fn render(&self) -> (r: String) {
        self.clone()
    }

    fn into_db_value(self) -> (r: sea_query::Value) {
        string_into_db_value(self)
    }

    fn from_db_value(v: sea_query::Value) -> (r: Result<Self, sea_query::ValueTypeErr>) {
        string_from_db_value(v)
    }
}

impl ScalarValue for i8 {
    open spec fn model(&self) -> Scalar {
        Scalar::Int(*self as int)
    }

    open spec fn db_model(v: sea_query::Value) -> Option<Scalar> {
        match i8_of_db(v) {
            Some(x) => Some(Scalar::Int(x as int)),
            None => None,
        }
    }

    fn same_as(&self, other: &Self) -> (r: bool) {
        *self == *other
    }

    fn render(&self) -> (r: String) {
        render_signed(*self as i64)
    }

    fn into_db_value(self) -> (r: sea_query::Value) {
        i8_into_db_value(self)
    }

    fn from_db_value(v: sea_query::Value) -> (r: Result<Self, sea_query::ValueTypeErr>) {
        i8_from_db_value(v)
    }
}

impl ScalarValue for i16 {
    open spec fn model(&self) -> Scalar {
        Scalar::Int(*self as int)
    }

    open spec fn db_model(v: sea_query::Value) -> Option<Scalar> {
        match i16_of_db(v) {
            Some(x) => Some(Scalar::Int(x as int)),
            None => None,
        }
    }

    fn same_as(&self, other: &Self) -> (r: bool) {
        *self == *other
    }

    fn render(&self) -> (r: String) {
        render_signed(*self as i64)
    }

    fn into_db_value(self) -> (r: sea_query::Value) {
        i16_into_db_value(self)
    }

    fn from_db_value(v: sea_query::Value) -> (r: Result<Self, sea_query::ValueTypeErr>) {
        i16_from_db_value(v)
    }
}

impl ScalarValue for i32 {
    open spec fn model(&self) -> Scalar {
        Scalar::Int(*self as int)
    }

    open spec fn db_model(v: sea_query::Value) -> Option<Scalar> {
        match i32_of_db(v) {
            Some(x) => Some(Scalar::Int(x as int)),
            None => None,
        }
    }

    fn same_as(&self, other: &Self) -> (r: bool) {
        *self == *other
    }

    fn render(&self) -> (r: String) {
        render_signed(*self as i64)
    }

    fn into_db_value(self) -> (r: sea_query::Value) {
        i32_into_db_value(self)
    }

    fn from_db_value(v: sea_query::Value) -> (r: Result<Self, sea_query::ValueTypeErr>) {
        i32_from_db_value(v)
    }
}

impl ScalarValue for i64 {
    open spec fn model(&self) -> Scalar {
        Scalar::Int(*self as int)
    }

    open spec fn db_model(v: sea_query::Value) -> Option<Scalar> {
        match i64_of_db(v) {
            Some(x) => Some(Scalar::Int(x as int)),
            None => None,
        }
    }

    fn same_as(&self, other: &Self) -> (r: bool) {
        *self == *other
    }

    fn render(&self) -> (r: String) {
        render_signed(*self as i64)
    }

    fn into_db_value(self) -> (r: sea_query::Value) {
        i64_into_db_value(self)
    }

    fn from_db_value(v: sea_query::Value) -> (r: Result<Self, sea_query::ValueTypeErr>) {
        i64_from_db_value(v)
    }
}

impl ScalarValue for u8 {
    open spec fn model(&self) -> Scalar {
        Scalar::Int(*self as int)
    }

    open spec fn db_model(v: sea_query::Value) -> Option<Scalar> {
        match u8_of_db(v) {
            Some(x) => Some(Scalar::Int(x as int)),
            None => None,
        }
    }

    fn same_as(&self, other: &Self) -> (r: bool) {
        *self == *other
    }

    fn render(&self) -> (r: String) {
        render_unsigned(*self as u64)
    }

    fn into_db_value(self) -> (r: sea_query::Value) {
        u8_into_db_value(self)
    }

    fn from_db_value(v: sea_query::Value) -> (r: Result<Self, sea_query::ValueTypeErr>) {
        u8_from_db_value(v)
    }
}

impl ScalarValue for u16 {
    open spec fn model(&self) -> Scalar {
        Scalar::Int(*self as int)
    }

    open spec fn db_model(v: sea_query::Value) -> Option<Scalar> {
        match u16_of_db(v) {
            Some(x) => Some(Scalar::Int(x as int)),
            None => None,
        }
    }

    fn same_as(&self, other: &Self) -> (r: bool) {
        *self == *other
    }

    fn render(&self) -> (r: String) {
        render_unsigned(*self as u64)
    }

    fn into_db_value(self) -> (r: sea_query::Value) {
        u16_into_db_value(self)
    }

    fn from_db_value(v: sea_query::Value) -> (r: Result<Self, sea_query::ValueTypeErr>) {
        u16_from_db_value(v)
    }
}

impl ScalarValue for u32 {
    open spec fn model(&self) -> Scalar {
        Scalar::Int(*self as int)
    }

    open spec fn db_model(v: sea_query::Value) -> Option<Scalar> {
        match u32_of_db(v) {
            Some(x) => Some(Scalar::Int(x as int)),
            None => None,
        }
    }

    fn same_as(&self, other: &Self) -> (r: bool) {
        *self == *other
    }

    fn render(&self) -> (r: String) {
        render_unsigned(*self as u64)
    }

    fn into_db_value(self) -> (r: sea_query::Value) {
        u32_into_db_value(self)
    }

    fn from_db_value(v: sea_query::Value) -> (r: Result<Self, sea_query::ValueTypeErr>) {
        u32_from_db_value(v)
    }
}

impl ScalarValue for u64 {
    open spec fn model(&self) -> Scalar {
        Scalar::Int(*self as int)
    }

    open spec fn db_model(v: sea_query::Value) -> Option<Scalar> {
        match u64_of_db(v) {
            Some(x) => Some(Scalar::Int(x as int)),
            None => None,
        }
    }

    fn same_as(&self, other: &Self) -> (r: bool) {
        *self == *other
    }

    fn render(&self) -> (r: String) {
        render_unsigned(*self as u64)
    }

    fn into_db_value(self) -> (r: sea_query::Value) {
        u64_into_db_value(self)
    }

    fn from_db_value(v: sea_query::Value) -> (r: Result<Self, sea_query::ValueTypeErr>) {
        u64_from_db_value(v)
    }
}

} // verus!
