//! What a driver hands over for one row: for each column its name, the type
//! name the engine reported, and the value as far as the engine's decoder
//! could read it as each of the target types.

use vstd::prelude::*;

verus! {

/// A JSON document as `serde_json` holds it; opaque to the verifier.
#[verifier::external_type_specification]
#[verifier::external_body]
pub struct ExJsonValue(serde_json::Value);

/// A calendar date, by its components.
#[derive(Clone, Copy, Debug, PartialEq, Eq, Structural)]
pub struct WireDate {
    pub year: i32,
    pub month: u32,
    pub day: u32,
}

/// A time of day, by its components. A leap second is written as second 59
/// with a nanosecond count of one billion or more.
#[derive(Clone, Copy, Debug, PartialEq, Eq, Structural)]
pub struct WireTime {
    pub hour: u32,
    pub minute: u32,
    pub second: u32,
    pub nanosecond: u32,
}

/// A date with a time of day.
#[derive(Clone, Copy, Debug, PartialEq, Eq, Structural)]
pub struct WireDateTime {
    pub date: WireDate,
    pub time: WireTime,
}

/// One column value as it came off the wire.
///
/// `null_flag` is `None` when the raw value could not be read at all. Each
/// `as_*` field is `Some` when the engine's decoder accepted the value as
/// that type. The two float fields hold the bit pattern of the decoded
/// number as a 64-bit float.
#[derive(Clone, Debug)]
pub struct WireValue {
    pub null_flag: Option<bool>,
    pub as_bool: Option<bool>,
    pub as_i8: Option<i8>,
    pub as_u8: Option<u8>,
    pub as_i16: Option<i16>,
    pub as_u16: Option<u16>,
    pub as_i32: Option<i32>,
    pub as_u32: Option<u32>,
    pub as_i64: Option<i64>,
    pub as_u64: Option<u64>,
    pub as_f32: Option<u64>,
    pub as_f64: Option<u64>,
    pub as_text: Option<String>,
    pub as_datetime: Option<WireDateTime>,
    pub as_utc_datetime: Option<WireDateTime>,
    pub as_date: Option<WireDate>,
    pub as_time: Option<WireTime>,
    pub as_json: Option<serde_json::Value>,
    pub as_bytes: Option<Vec<u8>>,
}

/// The mathematical value of a [`WireValue`].
pub struct WireValueModel {
    pub null_flag: Option<bool>,
    pub as_bool: Option<bool>,
    pub as_i8: Option<i8>,
    pub as_u8: Option<u8>,
    pub as_i16: Option<i16>,
    pub as_u16: Option<u16>,
    pub as_i32: Option<i32>,
    pub as_u32: Option<u32>,
    pub as_i64: Option<i64>,
    pub as_u64: Option<u64>,
    pub as_f32: Option<u64>,
    pub as_f64: Option<u64>,
    pub as_text: Option<Seq<char>>,
    pub as_datetime: Option<WireDateTime>,
    pub as_utc_datetime: Option<WireDateTime>,
    pub as_date: Option<WireDate>,
    pub as_time: Option<WireTime>,
    pub as_json: Option<serde_json::Value>,
    pub as_bytes: Option<Seq<u8>>,
}

impl WireValueModel {
    /// Whether the value counts as SQL NULL: it says so, or it could not be read.
    pub open spec fn is_null(self) -> bool {
        match self.null_flag {
            Some(flag) => flag,
            None => true,
        }
    }
}

impl View for WireValue {
    type V = WireValueModel;

    open spec fn view(&self) -> WireValueModel {
        WireValueModel {
            null_flag: self.null_flag,
            as_bool: self.as_bool,
            as_i8: self.as_i8,
            as_u8: self.as_u8,
            as_i16: self.as_i16,
            as_u16: self.as_u16,
            as_i32: self.as_i32,
            as_u32: self.as_u32,
            as_i64: self.as_i64,
            as_u64: self.as_u64,
            as_f32: self.as_f32,
            as_f64: self.as_f64,
            as_text: match self.as_text {
                Some(s) => Some(s@),
                None => None,
            },
            as_datetime: self.as_datetime,
            as_utc_datetime: self.as_utc_datetime,
            as_date: self.as_date,
            as_time: self.as_time,
            as_json: self.as_json,
            as_bytes: match self.as_bytes {
                Some(b) => Some(b@),
                None => None,
            },
        }
    }
}

impl WireValue {
    /// A value that is not NULL and that no decoder has read yet.
    pub fn undecoded() -> (value: WireValue)
        ensures
            value@ == WireValue::undecoded_model(),
    {
        WireValue {
            null_flag: Some(false),
            as_bool: None,
            as_i8: None,
            as_u8: None,
            as_i16: None,
            as_u16: None,
            as_i32: None,
            as_u32: None,
            as_i64: None,
            as_u64: None,
            as_f32: None,
            as_f64: None,
            as_text: None,
            as_datetime: None,
            as_utc_datetime: None,
            as_date: None,
            as_time: None,
            as_json: None,
            as_bytes: None,
        }
    }

    /// The SQL NULL.
    pub fn null() -> (value: WireValue)
        ensures
            value@.is_null(),
            value@ == (WireValueModel { null_flag: Some(true), ..WireValue::undecoded_model() }),
    {
        let mut value = WireValue::undecoded();
        value.null_flag = Some(true);
        value
    }

    /// The model of [`WireValue::undecoded`].
    pub open spec fn undecoded_model() -> WireValueModel {
        WireValueModel {
            null_flag: Some(false),
            as_bool: None,
            as_i8: None,
            as_u8: None,
            as_i16: None,
            as_u16: None,
            as_i32: None,
            as_u32: None,
            as_i64: None,
            as_u64: None,
            as_f32: None,
            as_f64: None,
            as_text: None,
            as_datetime: None,
            as_utc_datetime: None,
            as_date: None,
            as_time: None,
            as_json: None,
            as_bytes: None,
        }
    }

    /// Whether the value counts as SQL NULL.
    pub fn is_null(&self) -> (null: bool)
        ensures
            null == self@.is_null(),
    {
        match self.null_flag {
            Some(flag) => flag,
            None => true,
        }
    }
}

/// One column of one row.
#[derive(Clone, Debug)]
pub struct WireColumn {
    pub name: String,
    pub declared_type: String,
    pub value: WireValue,
}

/// One row, column by column.
#[derive(Clone, Debug)]
pub struct WireRow {
    pub columns: Vec<WireColumn>,
}

} // verus!
