//! The value normalizer: from a column's declared type name and its wire
//! value to one canonical cell.
//!
//! For each engine a table gives, by upper-case type name, the ordered list
//! of coercions that belong to the type. After them comes the fallback
//! chain, the same for every name: text, then integer, then float, then
//! boolean. The first coercion that the wire value admits gives the cell; a
//! NULL, or a value that admits none of them, gives `Null`. No input makes
//! the normalizer fail.

use crate::db::temporal::{
    format_date, format_datetime, format_time, format_utc_datetime, rendered_date,
    rendered_datetime, rendered_time, rendered_utc_datetime, DATETIME_LAYOUT, DATE_LAYOUT,
    TIME_LAYOUT, UTC_DATETIME_LAYOUT,
};
use crate::db::wire::{WireColumn, WireRow, WireValue, WireValueModel};
use crate::models::connection::DatabaseType;
use crate::models::query::{cell_option_view, CellModel, CellValue, ColumnDef, QueryResponse};
use crate::text::{str_eq, to_uppercase, uppercase};
use vstd::prelude::*;

verus! {

/// One way of reading a wire value as a cell.
#[derive(Clone, Copy, Debug, PartialEq, Eq, Structural)]
pub enum Coercion {
    /// A boolean, as `Bool`.
    Bool,
    /// A signed 8-bit integer, as `Bool`: true when it is not zero.
    BoolFromI8,
    /// A signed 8-bit integer, as `Int`.
    I8,
    /// An unsigned 8-bit integer, as `Int`.
    U8,
    /// A signed 16-bit integer, as `Int`.
    I16,
    /// An unsigned 16-bit integer, as `Int`.
    U16,
    /// A signed 32-bit integer, as `Int`.
    I32,
    /// An unsigned 32-bit integer, as `Int`.
    U32,
    /// A signed 64-bit integer, as `Int`.
    I64,
    /// An unsigned 64-bit integer that the signed range holds, as `Int`. A
    /// greater one is not admitted.
    U64,
    /// A single-precision float, as `Float`.
    F32,
    /// A double-precision float, as `Float`.
    F64,
    /// A character string, as `Text`.
    Text,
    /// A date and time without zone, as `Timestamp` in the form `2024-01-31 23:59:59`.
    DateTime,
    /// A date and time in UTC, as `Timestamp` in the form `2024-01-31 23:59:59 UTC`.
    UtcDateTime,
    /// A date, as `Timestamp` in the form `2024-01-31`.
    Date,
    /// A time of day, as `Timestamp` in the form `23:59:59`.
    Time,
    /// A character string, as `Timestamp` unchanged.
    TimestampText,
    /// A JSON document, as `Json` in compact form.
    Json,
    /// A character string, as `Json` unchanged.
    JsonText,
    /// A byte string, as `Binary`.
    Bytes,
}

/// The compact text of a JSON document, as `serde_json` prints it.
pub uninterp spec fn json_document(document: serde_json::Value) -> Seq<char>;

/// Calls `serde_json::Value`'s `to_string`.
///
/// Trusted: the result is the compact text that `serde_json` prints for the
/// document, a function of the document alone.
#[verifier::external_body]
pub(crate) fn json_to_text(document: &serde_json::Value) -> (text: String)
    ensures
        text@ == json_document(*document),
{
    document.to_string()
}

/// The cell that one coercion reads from a wire value, if the value admits it.
pub open spec fn coerced(value: WireValueModel, coercion: Coercion) -> Option<CellModel> {
    match coercion {
        Coercion::Bool => match value.as_bool {
            Some(v) => Some(CellModel::Bool(v)),
            None => None,
        },
        Coercion::BoolFromI8 => match value.as_i8 {
            Some(v) => Some(CellModel::Bool(v != 0)),
            None => None,
        },
        Coercion::I8 => match value.as_i8 {
            Some(v) => Some(CellModel::Int(v as i64)),
            None => None,
        },
        Coercion::U8 => match value.as_u8 {
            Some(v) => Some(CellModel::Int(v as i64)),
            None => None,
        },
        Coercion::I16 => match value.as_i16 {
            Some(v) => Some(CellModel::Int(v as i64)),
            None => None,
        },
        Coercion::U16 => match value.as_u16 {
            Some(v) => Some(CellModel::Int(v as i64)),
            None => None,
        },
        Coercion::I32 => match value.as_i32 {
            Some(v) => Some(CellModel::Int(v as i64)),
            None => None,
        },
        Coercion::U32 => match value.as_u32 {
            Some(v) => Some(CellModel::Int(v as i64)),
            None => None,
        },
        Coercion::I64 => match value.as_i64 {
            Some(v) => Some(CellModel::Int(v)),
            None => None,
        },
        Coercion::U64 => match value.as_u64 {
            Some(v) => if v <= i64::MAX {
                Some(CellModel::Int(v as i64))
            } else {
                None
            },
            None => None,
        },
        Coercion::F32 => match value.as_f32 {
            Some(bits) => Some(CellModel::Float(bits)),
            None => None,
        },
        Coercion::F64 => match value.as_f64 {
            Some(bits) => Some(CellModel::Float(bits)),
            None => None,
        },
        Coercion::Text => match value.as_text {
            Some(s) => Some(CellModel::Text(s)),
            None => None,
        },
        Coercion::DateTime => match value.as_datetime {
            Some(moment) => match rendered_datetime(moment, DATETIME_LAYOUT@) {
                Some(s) => Some(CellModel::Timestamp(s)),
                None => None,
            },
            None => None,
        },
        Coercion::UtcDateTime => match value.as_utc_datetime {
            Some(moment) => match rendered_utc_datetime(moment, UTC_DATETIME_LAYOUT@) {
                Some(s) => Some(CellModel::Timestamp(s)),
                None => None,
            },
            None => None,
        },
        Coercion::Date => match value.as_date {
            Some(date) => match rendered_date(date, DATE_LAYOUT@) {
                Some(s) => Some(CellModel::Timestamp(s)),
                None => None,
            },
            None => None,
        },
        Coercion::Time => match value.as_time {
            Some(time) => match rendered_time(time, TIME_LAYOUT@) {
                Some(s) => Some(CellModel::Timestamp(s)),
                None => None,
            },
            None => None,
        },
        Coercion::TimestampText => match value.as_text {
            Some(s) => Some(CellModel::Timestamp(s)),
            None => None,
        },
        Coercion::Json => match value.as_json {
            Some(document) => Some(CellModel::Json(json_document(document))),
            None => None,
        },
        Coercion::JsonText => match value.as_text {
            Some(s) => Some(CellModel::Json(s)),
            None => None,
        },
        Coercion::Bytes => match value.as_bytes {
            Some(b) => Some(CellModel::Binary(b)),
            None => None,
        },
    }
}

/// The cell of the first coercion in the list that the value admits; `Null`
/// when it admits none.
pub open spec fn first_coerced(value: WireValueModel, plan: Seq<Coercion>) -> CellModel
    decreases plan.len(),
{
    if plan.len() == 0 {
        CellModel::Null
    } else {
        match coerced(value, plan[0]) {
            Some(cell) => cell,
            None => first_coerced(value, plan.drop_first()),
        }
    }
}

/// Whether a value admits one of the coercions of a list.
pub open spec fn admits_any(value: WireValueModel, plan: Seq<Coercion>) -> bool {
    exists|i: int| 0 <= i < plan.len() && (#[trigger] coerced(value, plan[i])) is Some
}

/// The chain tried after the coercions of the type, and alone for a type
/// name that the engine's table does not list: text, then integer, then
/// float, then boolean.
pub open spec fn fallback_plan() -> Seq<Coercion> {
    seq![Coercion::Text, Coercion::I64, Coercion::F64, Coercion::Bool]
}

/// The type names that the PostgreSQL table lists.
pub open spec fn pg_known(name: Seq<char>) -> bool {
    ||| name == "BOOL"@
    ||| name == "INT2"@
    ||| name == "SMALLINT"@
    ||| name == "SMALLSERIAL"@
    ||| name == "INT4"@
    ||| name == "INT"@
    ||| name == "INTEGER"@
    ||| name == "SERIAL"@
    ||| name == "INT8"@
    ||| name == "BIGINT"@
    ||| name == "BIGSERIAL"@
    ||| name == "FLOAT4"@
    ||| name == "REAL"@
    ||| name == "FLOAT8"@
    ||| name == "DOUBLE PRECISION"@
    ||| name == "TEXT"@
    ||| name == "VARCHAR"@
    ||| name == "CHAR"@
    ||| name == "NAME"@
    ||| name == "BPCHAR"@
    ||| name == "CHAR(N)"@
    ||| name == "CHARACTER VARYING"@
    ||| name == "CHARACTER"@
    ||| name == "CITEXT"@
    ||| name == "UUID"@
    ||| name == "OID"@
    ||| name == "TIMESTAMP"@
    ||| name == "TIMESTAMP WITHOUT TIME ZONE"@
    ||| name == "TIMESTAMPTZ"@
    ||| name == "TIMESTAMP WITH TIME ZONE"@
    ||| name == "DATE"@
    ||| name == "TIME"@
    ||| name == "TIME WITHOUT TIME ZONE"@
    ||| name == "JSON"@
    ||| name == "JSONB"@
    ||| name == "BYTEA"@
    ||| name == "NUMERIC"@
    ||| name == "DECIMAL"@
    ||| name == "MONEY"@
}

/// The PostgreSQL table: the coercions that belong to an upper-case type
/// name, none for a name that the table does not list.
pub open spec fn pg_listed(name: Seq<char>) -> Seq<Coercion> {
    if name == "BOOL"@ {
        seq![Coercion::Bool]
    } else if name == "INT2"@ || name == "SMALLINT"@ || name == "SMALLSERIAL"@ {
        seq![Coercion::I16]
    } else if name == "INT4"@ || name == "INT"@ || name == "INTEGER"@ || name == "SERIAL"@ {
        seq![Coercion::I32]
    } else if name == "INT8"@ || name == "BIGINT"@ || name == "BIGSERIAL"@ {
        seq![Coercion::I64]
    } else if name == "FLOAT4"@ || name == "REAL"@ {
        seq![Coercion::F32]
    } else if name == "FLOAT8"@ || name == "DOUBLE PRECISION"@ {
        seq![Coercion::F64]
    } else if name == "TEXT"@ || name == "VARCHAR"@ || name == "CHAR"@ || name == "NAME"@ || name
        == "BPCHAR"@ || name == "CHAR(N)"@ || name == "CHARACTER VARYING"@ || name == "CHARACTER"@
        || name == "CITEXT"@ || name == "UUID"@ || name == "OID"@ {
        seq![Coercion::Text]
    } else if name == "TIMESTAMP"@ || name == "TIMESTAMP WITHOUT TIME ZONE"@ {
        seq![Coercion::DateTime, Coercion::TimestampText]
    } else if name == "TIMESTAMPTZ"@ || name == "TIMESTAMP WITH TIME ZONE"@ {
        seq![Coercion::UtcDateTime, Coercion::DateTime, Coercion::TimestampText]
    } else if name == "DATE"@ {
        seq![Coercion::Date, Coercion::TimestampText]
    } else if name == "TIME"@ || name == "TIME WITHOUT TIME ZONE"@ {
        seq![Coercion::Time, Coercion::TimestampText]
    } else if name == "JSON"@ || name == "JSONB"@ {
        seq![Coercion::Json, Coercion::JsonText]
    } else if name == "BYTEA"@ {
        seq![Coercion::Bytes]
    } else if name == "NUMERIC"@ || name == "DECIMAL"@ || name == "MONEY"@ {
        seq![Coercion::Text, Coercion::F64]
    } else {
        Seq::empty()
    }
}

/// The type names that the MySQL table lists.
pub open spec fn mysql_known(name: Seq<char>) -> bool {
    ||| name == "BOOLEAN"@
    ||| name == "TINYINT(1)"@
    ||| name == "BOOL"@
    ||| name == "TINYINT"@
    ||| name == "TINYINT UNSIGNED"@
    ||| name == "SMALLINT"@
    ||| name == "SMALLINT UNSIGNED"@
    ||| name == "INT"@
    ||| name == "INTEGER"@
    ||| name == "INT UNSIGNED"@
    ||| name == "MEDIUMINT"@
    ||| name == "MEDIUMINT UNSIGNED"@
    ||| name == "BIGINT"@
    ||| name == "BIGINT UNSIGNED"@
    ||| name == "FLOAT"@
    ||| name == "DOUBLE"@
    ||| name == "DOUBLE PRECISION"@
    ||| name == "DECIMAL"@
    ||| name == "NUMERIC"@
    ||| name == "DEC"@
    ||| name == "FIXED"@
    ||| name == "VARCHAR"@
    ||| name == "TEXT"@
    ||| name == "CHAR"@
    ||| name == "TINYTEXT"@
    ||| name == "MEDIUMTEXT"@
    ||| name == "LONGTEXT"@
    ||| name == "ENUM"@
    ||| name == "SET"@
    ||| name == "DATETIME"@
    ||| name == "TIMESTAMP"@
    ||| name == "DATE"@
    ||| name == "TIME"@
    ||| name == "BLOB"@
    ||| name == "TINYBLOB"@
    ||| name == "MEDIUMBLOB"@
    ||| name == "LONGBLOB"@
    ||| name == "BINARY"@
    ||| name == "VARBINARY"@
    ||| name == "JSON"@
}

/// The MySQL table: the coercions that belong to an upper-case type name,
/// none for a name that the table does not list.
pub open spec fn mysql_listed(name: Seq<char>) -> Seq<Coercion> {
    if name == "BOOLEAN"@ || name == "TINYINT(1)"@ || name == "BOOL"@ {
        seq![Coercion::Bool, Coercion::BoolFromI8]
    } else if name == "TINYINT"@ || name == "TINYINT UNSIGNED"@ {
        seq![Coercion::I8, Coercion::U8]
    } else if name == "SMALLINT"@ || name == "SMALLINT UNSIGNED"@ {
        seq![Coercion::I16, Coercion::U16]
    } else if name == "INT"@ || name == "INTEGER"@ || name == "INT UNSIGNED"@ || name
        == "MEDIUMINT"@ || name == "MEDIUMINT UNSIGNED"@ {
        seq![Coercion::I32, Coercion::U32]
    } else if name == "BIGINT"@ || name == "BIGINT UNSIGNED"@ {
        seq![Coercion::I64, Coercion::U64]
    } else if name == "FLOAT"@ {
        seq![Coercion::F32]
    } else if name == "DOUBLE"@ || name == "DOUBLE PRECISION"@ {
        seq![Coercion::F64]
    } else if name == "DECIMAL"@ || name == "NUMERIC"@ || name == "DEC"@ || name == "FIXED"@ {
        seq![Coercion::Text, Coercion::F64]
    } else if name == "VARCHAR"@ || name == "TEXT"@ || name == "CHAR"@ || name == "TINYTEXT"@
        || name == "MEDIUMTEXT"@ || name == "LONGTEXT"@ || name == "ENUM"@ || name == "SET"@ {
        seq![Coercion::Text]
    } else if name == "DATETIME"@ || name == "TIMESTAMP"@ {
        seq![Coercion::DateTime, Coercion::TimestampText]
    } else if name == "DATE"@ {
        seq![Coercion::Date, Coercion::TimestampText]
    } else if name == "TIME"@ {
        seq![Coercion::Time, Coercion::TimestampText]
    } else if name == "BLOB"@ || name == "TINYBLOB"@ || name == "MEDIUMBLOB"@ || name
        == "LONGBLOB"@ || name == "BINARY"@ || name == "VARBINARY"@ {
        seq![Coercion::Bytes]
    } else if name == "JSON"@ {
        seq![Coercion::Json, Coercion::JsonText]
    } else {
        Seq::empty()
    }
}

/// Whether an engine's table lists an upper-case type name.
pub open spec fn known_type(engine: DatabaseType, name: Seq<char>) -> bool {
    match engine {
        DatabaseType::PostgreSQL => pg_known(name),
        DatabaseType::MySQL => mysql_known(name),
    }
}

/// The coercions that belong to an upper-case type name in an engine's
/// table.
pub open spec fn listed_plan(engine: DatabaseType, name: Seq<char>) -> Seq<Coercion> {
    match engine {
        DatabaseType::PostgreSQL => pg_listed(name),
        DatabaseType::MySQL => mysql_listed(name),
    }
}

/// The coercions tried for an upper-case type name, in order: those that
/// belong to the type, then the fallback chain.
pub open spec fn plan_for(engine: DatabaseType, name: Seq<char>) -> Seq<Coercion> {
    listed_plan(engine, name) + fallback_plan()
}

/// The canonical cell of a wire value under an upper-case type name.
pub open spec fn normalized(engine: DatabaseType, name: Seq<char>, value: WireValueModel)
    -> CellModel {
    if value.is_null() {
        CellModel::Null
    } else {
        first_coerced(value, plan_for(engine, name))
    }
}

/// The canonical cell of a column: its wire value under the upper-case form
/// of its declared type name.
pub open spec fn column_cell(engine: DatabaseType, column: WireColumn) -> CellModel {
    normalized(engine, uppercase(column.declared_type@), column.value@)
}

/// Reads a wire value by one coercion.
///
/// The result is `Some` exactly when the value admits the coercion.
pub fn coerce(value: &WireValue, coercion: Coercion) -> (cell: Option<CellValue>)
    ensures
        cell_option_view(cell) == coerced(value@, coercion),
{
    match coercion {
        Coercion::Bool => match value.as_bool {
            Some(v) => Some(CellValue::Bool(v)),
            None => None,
        },
        Coercion::BoolFromI8 => match value.as_i8 {
            Some(v) => Some(CellValue::Bool(v != 0)),
            None => None,
        },
        Coercion::I8 => match value.as_i8 {
            Some(v) => Some(CellValue::Int(v as i64)),
            None => None,
        },
        Coercion::U8 => match value.as_u8 {
            Some(v) => Some(CellValue::Int(v as i64)),
            None => None,
        },
        Coercion::I16 => match value.as_i16 {
            Some(v) => Some(CellValue::Int(v as i64)),
            None => None,
        },
        Coercion::U16 => match value.as_u16 {
            Some(v) => Some(CellValue::Int(v as i64)),
            None => None,
        },
        Coercion::I32 => match value.as_i32 {
            Some(v) => Some(CellValue::Int(v as i64)),
            None => None,
        },
        Coercion::U32 => match value.as_u32 {
            Some(v) => Some(CellValue::Int(v as i64)),
            None => None,
        },
        Coercion::I64 => match value.as_i64 {
            Some(v) => Some(CellValue::Int(v)),
            None => None,
        },
        Coercion::U64 => match value.as_u64 {
            Some(v) => if v <= 0x7fff_ffff_ffff_ffff {
                Some(CellValue::Int(v as i64))
            } else {
                None
            },
            None => None,
        },
        Coercion::F32 => match value.as_f32 {
            Some(bits) => Some(CellValue::Float(bits)),
            None => None,
        },
        Coercion::F64 => match value.as_f64 {
            Some(bits) => Some(CellValue::Float(bits)),
            None => None,
        },
        Coercion::Text => match &value.as_text {
            Some(s) => Some(CellValue::Text(s.clone())),
            None => None,
        },
        Coercion::DateTime => match value.as_datetime {
            Some(moment) => timestamp_cell(format_datetime(moment, DATETIME_LAYOUT)),
            None => None,
        },
        Coercion::UtcDateTime => match value.as_utc_datetime {
            Some(moment) => timestamp_cell(format_utc_datetime(moment, UTC_DATETIME_LAYOUT)),
            None => None,
        },
        Coercion::Date => match value.as_date {
            Some(date) => timestamp_cell(format_date(date, DATE_LAYOUT)),
            None => None,
        },
        Coercion::Time => match value.as_time {
            Some(time) => timestamp_cell(format_time(time, TIME_LAYOUT)),
            None => None,
        },
        Coercion::TimestampText => match &value.as_text {
            Some(s) => Some(CellValue::Timestamp(s.clone())),
            None => None,
        },
        Coercion::Json => match &value.as_json {
            Some(document) => Some(CellValue::Json(json_to_text(document))),
            None => None,
        },
        Coercion::JsonText => match &value.as_text {
            Some(s) => Some(CellValue::Json(s.clone())),
            None => None,
        },
        Coercion::Bytes => match &value.as_bytes {
            Some(b) => Some(CellValue::Binary(copy_bytes(b))),
            None => None,
        },
    }
}

/// The `Timestamp` cell of a rendered date or time; none where nothing was
/// rendered.
pub fn timestamp_cell(rendered: Option<String>) -> (cell: Option<CellValue>)
    ensures
        cell_option_view(cell) == (match rendered {
            Some(s) => Some(CellModel::Timestamp(s@)),
            None => None,
        }),
{
    match rendered {
        Some(s) => Some(CellValue::Timestamp(s)),
        None => None,
    }
}

/// Copies a byte string.
fn copy_bytes(bytes: &Vec<u8>) -> (copy: Vec<u8>)
    ensures
        copy@ == bytes@,
{
    let mut copy: Vec<u8> = Vec::with_capacity(bytes.len());
    let mut i: usize = 0;
    while i < bytes.len()
        invariant
            0 <= i <= bytes@.len(),
            copy@ == bytes@.take(i as int),
        decreases bytes@.len() - i,
    {
        copy.push(bytes[i]);
        proof {
            assert(bytes@.take(i as int).push(bytes@[i as int]) =~= bytes@.take(i as int + 1));
        }
        i += 1;
    }
    proof {
        assert(bytes@.take(bytes@.len() as int) =~= bytes@);
    }
    copy
}

/// Tries the coercions of a plan in order and gives the first cell found,
/// `Null` when the value admits none of them.
pub fn apply_plan(value: &WireValue, plan: &Vec<Coercion>) -> (cell: CellValue)
    ensures
        cell@ == first_coerced(value@, plan@),
{
    let mut i: usize = 0;
    proof {
        assert(plan@.skip(0) =~= plan@);
    }
    while i < plan.len()
        invariant
            0 <= i <= plan@.len(),
            first_coerced(value@, plan@) == first_coerced(value@, plan@.skip(i as int)),
        decreases plan@.len() - i,
    {
        proof {
            assert(plan@.skip(i as int).drop_first() =~= plan@.skip(i as int + 1));
            assert(plan@.skip(i as int)[0] == plan@[i as int]);
        }
        match coerce(value, plan[i]) {
            Some(cell) => {
                return cell;
            },
            None => {},
        }
        i += 1;
    }
    CellValue::Null
}

/// The fallback chain.
pub fn fallback_strategy() -> (plan: Vec<Coercion>)
    ensures
        plan@ == fallback_plan(),
{
    let plan = vec![Coercion::Text, Coercion::I64, Coercion::F64, Coercion::Bool];
    proof {
        assert(plan@ =~= fallback_plan());
    }
    plan
}

/// Puts the fallback chain after the coercions of a type.
fn with_fallback(listed: Vec<Coercion>) -> (plan: Vec<Coercion>)
    ensures
        plan@ == listed@ + fallback_plan(),
{
    let mut plan = listed;
    plan.push(Coercion::Text);
    plan.push(Coercion::I64);
    plan.push(Coercion::F64);
    plan.push(Coercion::Bool);
    proof {
        assert(plan@ =~= listed@ + fallback_plan());
    }
    plan
}

/// The coercions that belong to an upper-case type name in the PostgreSQL
/// table.
pub fn pg_strategy(name: &str) -> (plan: Vec<Coercion>)
    ensures
        plan@ == pg_listed(name@),
{
    let plan = if str_eq(name, "BOOL") {
        vec![Coercion::Bool]
    } else if str_eq(name, "INT2") || str_eq(name, "SMALLINT") || str_eq(name, "SMALLSERIAL") {
        vec![Coercion::I16]
    } else if str_eq(name, "INT4") || str_eq(name, "INT") || str_eq(name, "INTEGER") || str_eq(
        name,
        "SERIAL",
    ) {
        vec![Coercion::I32]
    } else if str_eq(name, "INT8") || str_eq(name, "BIGINT") || str_eq(name, "BIGSERIAL") {
        vec![Coercion::I64]
    } else if str_eq(name, "FLOAT4") || str_eq(name, "REAL") {
        vec![Coercion::F32]
    } else if str_eq(name, "FLOAT8") || str_eq(name, "DOUBLE PRECISION") {
        vec![Coercion::F64]
    } else if str_eq(name, "TEXT") || str_eq(name, "VARCHAR") || str_eq(name, "CHAR") || str_eq(
        name,
        "NAME",
    ) || str_eq(name, "BPCHAR") || str_eq(name, "CHAR(N)") || str_eq(name, "CHARACTER VARYING")
        || str_eq(name, "CHARACTER") || str_eq(name, "CITEXT") || str_eq(name, "UUID") || str_eq(
        name,
        "OID",
    ) {
        vec![Coercion::Text]
    } else if str_eq(name, "TIMESTAMP") || str_eq(name, "TIMESTAMP WITHOUT TIME ZONE") {
        vec![Coercion::DateTime, Coercion::TimestampText]
    } else if str_eq(name, "TIMESTAMPTZ") || str_eq(name, "TIMESTAMP WITH TIME ZONE") {
        vec![Coercion::UtcDateTime, Coercion::DateTime, Coercion::TimestampText]
    } else if str_eq(name, "DATE") {
        vec![Coercion::Date, Coercion::TimestampText]
    } else if str_eq(name, "TIME") || str_eq(name, "TIME WITHOUT TIME ZONE") {
        vec![Coercion::Time, Coercion::TimestampText]
    } else if str_eq(name, "JSON") || str_eq(name, "JSONB") {
        vec![Coercion::Json, Coercion::JsonText]
    } else if str_eq(name, "BYTEA") {
        vec![Coercion::Bytes]
    } else if str_eq(name, "NUMERIC") || str_eq(name, "DECIMAL") || str_eq(name, "MONEY") {
        vec![Coercion::Text, Coercion::F64]
    } else {
        Vec::new()
    };
    proof {
        assert(plan@ =~= pg_listed(name@));
    }
    plan
}

/// The coercions that belong to an upper-case type name in the MySQL table.
pub fn mysql_strategy(name: &str) -> (plan: Vec<Coercion>)
    ensures
        plan@ == mysql_listed(name@),
{
    let plan = if str_eq(name, "BOOLEAN") || str_eq(name, "TINYINT(1)") || str_eq(name, "BOOL") {
        vec![Coercion::Bool, Coercion::BoolFromI8]
    } else if str_eq(name, "TINYINT") || str_eq(name, "TINYINT UNSIGNED") {
        vec![Coercion::I8, Coercion::U8]
    } else if str_eq(name, "SMALLINT") || str_eq(name, "SMALLINT UNSIGNED") {
        vec![Coercion::I16, Coercion::U16]
    } else if str_eq(name, "INT") || str_eq(name, "INTEGER") || str_eq(name, "INT UNSIGNED")
        || str_eq(name, "MEDIUMINT") || str_eq(name, "MEDIUMINT UNSIGNED") {
        vec![Coercion::I32, Coercion::U32]
    } else if str_eq(name, "BIGINT") || str_eq(name, "BIGINT UNSIGNED") {
        vec![Coercion::I64, Coercion::U64]
    } else if str_eq(name, "FLOAT") {
        vec![Coercion::F32]
    } else if str_eq(name, "DOUBLE") || str_eq(name, "DOUBLE PRECISION") {
        vec![Coercion::F64]
    } else if str_eq(name, "DECIMAL") || str_eq(name, "NUMERIC") || str_eq(name, "DEC") || str_eq(
        name,
        "FIXED",
    ) {
        vec![Coercion::Text, Coercion::F64]
    } else if str_eq(name, "VARCHAR") || str_eq(name, "TEXT") || str_eq(name, "CHAR") || str_eq(
        name,
        "TINYTEXT",
    ) || str_eq(name, "MEDIUMTEXT") || str_eq(name, "LONGTEXT") || str_eq(name, "ENUM") || str_eq(
        name,
        "SET",
    ) {
        vec![Coercion::Text]
    } else if str_eq(name, "DATETIME") || str_eq(name, "TIMESTAMP") {
        vec![Coercion::DateTime, Coercion::TimestampText]
    } else if str_eq(name, "DATE") {
        vec![Coercion::Date, Coercion::TimestampText]
    } else if str_eq(name, "TIME") {
        vec![Coercion::Time, Coercion::TimestampText]
    } else if str_eq(name, "BLOB") || str_eq(name, "TINYBLOB") || str_eq(name, "MEDIUMBLOB")
        || str_eq(name, "LONGBLOB") || str_eq(name, "BINARY") || str_eq(name, "VARBINARY") {
        vec![Coercion::Bytes]
    } else if str_eq(name, "JSON") {
        vec![Coercion::Json, Coercion::JsonText]
    } else {
        Vec::new()
    };
    proof {
        assert(plan@ =~= mysql_listed(name@));
    }
    plan
}

/// The coercions tried for an upper-case type name, in order: those that
/// belong to the type in the engine's table, then the fallback chain.
pub fn strategy(engine: DatabaseType, name: &str) -> (plan: Vec<Coercion>)
    ensures
        plan@ == plan_for(engine, name@),
{
    match engine {
        DatabaseType::PostgreSQL => with_fallback(pg_strategy(name)),
        DatabaseType::MySQL => with_fallback(mysql_strategy(name)),
    }
}

/// The coercions that a driver has to attempt for a column of the given
/// declared type name, in the order in which they are tried.
pub fn plan_column(engine: DatabaseType, declared_type: &str) -> (plan: Vec<Coercion>)
    ensures
        plan@ == plan_for(engine, uppercase(declared_type@)),
{
    let upper = to_uppercase(declared_type);
    strategy(engine, upper.as_str())
}

/// Normalizes a wire value whose type name is already in upper case.
///
/// A NULL gives `Null` whatever the type name. Any other value gives the
/// cell of the first coercion that it admits among those of its type and,
/// after them, the fallback chain; it gives `Null` when it admits none.
pub fn normalize(engine: DatabaseType, name: &str, value: &WireValue) -> (cell: CellValue)
    ensures
        cell@ == normalized(engine, name@, value@),
        value@.is_null() ==> cell@ == CellModel::Null,
{
    if value.is_null() {
        CellValue::Null
    } else {
        let plan = strategy(engine, name);
        apply_plan(value, &plan)
    }
}

/// Normalizes one column: puts its declared type name in upper case and
/// normalizes its value under that name.
pub fn normalize_column(engine: DatabaseType, column: &WireColumn) -> (cell: CellValue)
    ensures
        cell@ == column_cell(engine, *column),
        column.value@.is_null() ==> cell@ == CellModel::Null,
{
    let upper = to_uppercase(column.declared_type.as_str());
    normalize(engine, upper.as_str(), &column.value)
}

/// Normalizes every column of a row, in order.
pub fn row_to_cells(engine: DatabaseType, row: &WireRow) -> (cells: Vec<CellValue>)
    ensures
        cells@.len() == row.columns@.len(),
        forall|i: int|
            0 <= i < cells@.len() ==> (#[trigger] cells@[i])@ == column_cell(
                engine,
                row.columns@[i],
            ),
{
    let mut cells: Vec<CellValue> = Vec::with_capacity(row.columns.len());
    let mut i: usize = 0;
    while i < row.columns.len()
        invariant
            0 <= i <= row.columns@.len(),
            cells@.len() == i,
            forall|k: int|
                0 <= k < i ==> (#[trigger] cells@[k])@ == column_cell(engine, row.columns@[k]),
        decreases row.columns@.len() - i,
    {
        let cell = normalize_column(engine, &row.columns[i]);
        cells.push(cell);
        i += 1;
    }
    cells
}

/// The canonical cells of a PostgreSQL row, one per column, in column order.
pub fn pg_row_to_cells(row: &WireRow) -> (cells: Vec<CellValue>)
    ensures
        cells@.len() == row.columns@.len(),
        forall|i: int|
            0 <= i < cells@.len() ==> (#[trigger] cells@[i])@ == column_cell(
                DatabaseType::PostgreSQL,
                row.columns@[i],
            ),
{
    row_to_cells(DatabaseType::PostgreSQL, row)
}

/// The canonical cells of a MySQL row, one per column, in column order.
pub fn mysql_row_to_cells(row: &WireRow) -> (cells: Vec<CellValue>)
    ensures
        cells@.len() == row.columns@.len(),
        forall|i: int|
            0 <= i < cells@.len() ==> (#[trigger] cells@[i])@ == column_cell(
                DatabaseType::MySQL,
                row.columns@[i],
            ),
{
    row_to_cells(DatabaseType::MySQL, row)
}

/// The column descriptors of a row: each column's name and declared type
/// name as the engine reported them, in column order.
pub fn columns_to_defs(row: &WireRow) -> (defs: Vec<ColumnDef>)
    ensures
        defs@.len() == row.columns@.len(),
        forall|i: int|
            0 <= i < defs@.len() ==> (#[trigger] defs@[i])@ == (
                row.columns@[i].name@,
                row.columns@[i].declared_type@,
            ),
{
    let mut defs: Vec<ColumnDef> = Vec::with_capacity(row.columns.len());
    let mut i: usize = 0;
    while i < row.columns.len()
        invariant
            0 <= i <= row.columns@.len(),
            defs@.len() == i,
            forall|k: int|
                0 <= k < i ==> (#[trigger] defs@[k])@ == (
                    row.columns@[k].name@,
                    row.columns@[k].declared_type@,
                ),
        decreases row.columns@.len() - i,
    {
        let column = &row.columns[i];
        defs.push(ColumnDef { name: column.name.clone(), data_type: column.declared_type.clone() });
        i += 1;
    }
    defs
}

/// The column descriptors of a PostgreSQL row.
pub fn pg_columns_to_defs(row: &WireRow) -> (defs: Vec<ColumnDef>)
    ensures
        defs@.len() == row.columns@.len(),
        forall|i: int|
            0 <= i < defs@.len() ==> (#[trigger] defs@[i])@ == (
                row.columns@[i].name@,
                row.columns@[i].declared_type@,
            ),
{
    columns_to_defs(row)
}

/// The column descriptors of a MySQL row.
pub fn mysql_columns_to_defs(row: &WireRow) -> (defs: Vec<ColumnDef>)
    ensures
        defs@.len() == row.columns@.len(),
        forall|i: int|
            0 <= i < defs@.len() ==> (#[trigger] defs@[i])@ == (
                row.columns@[i].name@,
                row.columns@[i].declared_type@,
            ),
{
    columns_to_defs(row)
}

/// Whether a row set is the normalized form of wire rows: one row of cells
/// per wire row, each cell the canonical cell of its column, and the
/// column descriptors those of the first wire row, none where there is no
/// row.
pub open spec fn response_of(
    engine: DatabaseType,
    rows: Seq<WireRow>,
    elapsed_ms: u64,
    response: QueryResponse,
) -> bool {
    &&& response.execution_time_ms == elapsed_ms
    &&& response.row_count == rows.len()
    &&& response.rows@.len() == rows.len()
    &&& forall|i: int|
        0 <= i < rows.len() ==> (#[trigger] response.rows@[i])@.len() == rows[i].columns@.len()
    &&& forall|i: int, j: int|
        0 <= i < rows.len() && 0 <= j < rows[i].columns@.len() ==> (#[trigger] response.rows@[i]@[j])@
            == column_cell(engine, rows[i].columns@[j])
    &&& if rows.len() == 0 {
        response.columns@.len() == 0
    } else {
        &&& response.columns@.len() == rows[0].columns@.len()
        &&& forall|j: int|
            0 <= j < rows[0].columns@.len() ==> (#[trigger] response.columns@[j])@ == (
                rows[0].columns@[j].name@,
                rows[0].columns@[j].declared_type@,
            )
    }
}

/// Builds the row set of an engine's wire rows and the time the execution
/// took.
pub fn rows_to_response(engine: DatabaseType, rows: &Vec<WireRow>, elapsed_ms: u64) -> (response:
    QueryResponse)
    ensures
        response_of(engine, rows@, elapsed_ms, response),
        response.counted(),
{
    let columns = if rows.len() == 0 {
        Vec::new()
    } else {
        columns_to_defs(&rows[0])
    };
    let mut data: Vec<Vec<CellValue>> = Vec::with_capacity(rows.len());
    let mut i: usize = 0;
    while i < rows.len()
        invariant
            0 <= i <= rows@.len(),
            data@.len() == i,
            forall|k: int| 0 <= k < i ==> (#[trigger] data@[k])@.len() == rows@[k].columns@.len(),
            forall|k: int, j: int|
                0 <= k < i && 0 <= j < rows@[k].columns@.len() ==> (#[trigger] data@[k]@[j])@
                    == column_cell(engine, rows@[k].columns@[j]),
        decreases rows@.len() - i,
    {
        let cells = row_to_cells(engine, &rows[i]);
        data.push(cells);
        i += 1;
    }
    QueryResponse { columns, rows: data, row_count: rows.len(), execution_time_ms: elapsed_ms }
}

/// A row set built from wire rows that all have as many columns as the
/// first has one cell per column descriptor in every row.
pub proof fn uniform_rows_give_aligned_response(
    engine: DatabaseType,
    rows: Seq<WireRow>,
    elapsed_ms: u64,
    response: QueryResponse,
)
    requires
        response_of(engine, rows, elapsed_ms, response),
        forall|i: int|
            0 <= i < rows.len() ==> (#[trigger] rows[i]).columns@.len() == rows[0].columns@.len(),
    ensures
        response.aligned(),
{
    assert forall|i: int| 0 <= i < response.rows@.len() implies (#[trigger] response.rows@[i])@.len()
        == response.columns@.len() by {
        assert(rows[i].columns@.len() == rows[0].columns@.len());
    }
}

/// A NULL normalizes to `Null` under every engine and every type name,
/// listed or not, whatever the decoders made of the value.
pub proof fn null_normalizes_to_null(engine: DatabaseType, name: Seq<char>, value: WireValueModel)
    requires
        value.is_null(),
    ensures
        normalized(engine, name, value) == CellModel::Null,
{
}

/// What the fallback chain makes of a value: its text if it reads as text,
/// else its integer, else its float, else its boolean, else `Null`.
pub open spec fn fallen_back(value: WireValueModel) -> CellModel {
    match value.as_text {
        Some(s) => CellModel::Text(s),
        None => match value.as_i64 {
            Some(v) => CellModel::Int(v),
            None => match value.as_f64 {
                Some(bits) => CellModel::Float(bits),
                None => match value.as_bool {
                    Some(b) => CellModel::Bool(b),
                    None => CellModel::Null,
                },
            },
        },
    }
}

/// The fallback chain gives the text, else the integer, else the float,
/// else the boolean, else `Null`.
pub proof fn fallback_chain_order(value: WireValueModel)
    ensures
        first_coerced(value, fallback_plan()) == fallen_back(value),
{
    let plan = fallback_plan();
    reveal_with_fuel(first_coerced, 5);
    assert(plan.drop_first() =~= seq![Coercion::I64, Coercion::F64, Coercion::Bool]);
    assert(plan.drop_first().drop_first() =~= seq![Coercion::F64, Coercion::Bool]);
    assert(plan.drop_first().drop_first().drop_first() =~= seq![Coercion::Bool]);
    assert(plan.drop_first().drop_first().drop_first().drop_first() =~= Seq::<Coercion>::empty());
}

/// Trying one list of coercions and then another gives what the first list
/// gives where the value admits one of its coercions, and what the second
/// gives where it admits none of the first.
pub proof fn first_list_wins(value: WireValueModel, first: Seq<Coercion>, second: Seq<Coercion>)
    ensures
        first_coerced(value, first + second) == (if admits_any(value, first) {
            first_coerced(value, first)
        } else {
            first_coerced(value, second)
        }),
    decreases first.len(),
{
    if first.len() == 0 {
        assert(first + second =~= second);
    } else {
        let rest = first.drop_first();
        assert((first + second).drop_first() =~= rest + second);
        assert((first + second)[0] == first[0]);
        first_list_wins(value, rest, second);
        if coerced(value, first[0]) is Some {
            assert(admits_any(value, first));
        } else {
            if admits_any(value, first) {
                let i = choose|i: int|
                    0 <= i < first.len() && (#[trigger] coerced(value, first[i])) is Some;
                assert(rest[i - 1] == first[i]);
                assert(admits_any(value, rest));
            }
            if admits_any(value, rest) {
                let i = choose|i: int|
                    0 <= i < rest.len() && (#[trigger] coerced(value, rest[i])) is Some;
                assert(first[i + 1] == rest[i]);
                assert(admits_any(value, first));
            }
        }
    }
}

/// Under a type name that the engine's table does not list, a value that is
/// not NULL goes through the fallback chain: its text if it reads as text,
/// else its integer, else its float, else its boolean, else `Null`.
pub proof fn unknown_type_falls_back(engine: DatabaseType, name: Seq<char>, value: WireValueModel)
    requires
        !known_type(engine, name),
        !value.is_null(),
    ensures
        normalized(engine, name, value) == fallen_back(value),
{
    assert(listed_plan(engine, name) =~= Seq::<Coercion>::empty());
    assert(plan_for(engine, name) =~= fallback_plan());
    fallback_chain_order(value);
}

/// Under a listed type name, a value that is not NULL and that admits none
/// of the coercions of its type is a mismatch, and goes through the
/// fallback chain like a value of an unlisted type: `Null` comes only when
/// it reads neither as text nor as integer, float or boolean.
pub proof fn mismatched_type_falls_back(
    engine: DatabaseType,
    name: Seq<char>,
    value: WireValueModel,
)
    requires
        !value.is_null(),
        !admits_any(value, listed_plan(engine, name)),
    ensures
        normalized(engine, name, value) == fallen_back(value),
{
    first_list_wins(value, listed_plan(engine, name), fallback_plan());
    fallback_chain_order(value);
}

/// A value that is not NULL and that admits one of the coercions of its
/// type gives the cell of the first such coercion; the fallback chain is
/// not reached.
pub proof fn matching_type_wins(engine: DatabaseType, name: Seq<char>, value: WireValueModel)
    requires
        !value.is_null(),
        admits_any(value, listed_plan(engine, name)),
    ensures
        normalized(engine, name, value) == first_coerced(value, listed_plan(engine, name)),
{
    first_list_wins(value, listed_plan(engine, name), fallback_plan());
}

/// A value that is not NULL and that admits the first coercion of its type
/// gives the cell of that coercion.
pub proof fn first_listed_reading_wins(
    engine: DatabaseType,
    name: Seq<char>,
    value: WireValueModel,
    cell: CellModel,
)
    requires
        !value.is_null(),
        listed_plan(engine, name).len() > 0,
        coerced(value, listed_plan(engine, name)[0]) == Some(cell),
    ensures
        normalized(engine, name, value) == cell,
{
    let listed = listed_plan(engine, name);
    assert((listed + fallback_plan())[0] == listed[0]);
}

/// The types under which the engines report an integer literal: `INT4` in
/// PostgreSQL reads as a 32-bit integer, `BIGINT` in MySQL as a signed and
/// then as an unsigned 64-bit integer.
pub proof fn integer_literal_types()
    ensures
        pg_listed("INT4"@) == seq![Coercion::I32],
        mysql_listed("BIGINT"@) == seq![Coercion::I64, Coercion::U64],
{
    reveal_strlit("INT4");
    reveal_strlit("BOOL");
    reveal_strlit("INT2");
    reveal_strlit("SMALLINT");
    reveal_strlit("SMALLSERIAL");
    assert("INT4"@[3] == '4' && "INT2"@[3] == '2');
    assert("INT4"@[0] == 'I' && "BOOL"@[0] == 'B');
    assert("INT4"@.len() == 4 && "SMALLINT"@.len() == 8 && "SMALLSERIAL"@.len() == 11);
    reveal_strlit("BIGINT");
    reveal_strlit("BOOLEAN");
    reveal_strlit("TINYINT(1)");
    reveal_strlit("TINYINT");
    reveal_strlit("TINYINT UNSIGNED");
    reveal_strlit("SMALLINT UNSIGNED");
    reveal_strlit("INT");
    reveal_strlit("INTEGER");
    reveal_strlit("INT UNSIGNED");
    reveal_strlit("MEDIUMINT");
    reveal_strlit("MEDIUMINT UNSIGNED");
    assert("BIGINT"@.len() == 6);
    assert("BOOLEAN"@.len() == 7 && "TINYINT(1)"@.len() == 10 && "BOOL"@.len() == 4);
    assert("TINYINT"@.len() == 7 && "TINYINT UNSIGNED"@.len() == 16);
    assert("SMALLINT UNSIGNED"@.len() == 17);
    assert("INT"@.len() == 3 && "INTEGER"@.len() == 7 && "INT UNSIGNED"@.len() == 12);
    assert("MEDIUMINT"@.len() == 9 && "MEDIUMINT UNSIGNED"@.len() == 18);
}

/// An unsigned 64-bit reading gives the `Int` of the same number where the
/// signed range holds it, and no cell where it does not: no number turns
/// into another.
pub proof fn unsigned_reading_keeps_its_number(value: WireValueModel)
    ensures
        match (value.as_u64, coerced(value, Coercion::U64)) {
            (Some(v), Some(cell)) => v <= i64::MAX && cell == CellModel::Int(v as i64) && (v as i64)
                as int == v as int,
            (Some(v), None) => v > i64::MAX,
            (None, Some(_)) => false,
            (None, None) => true,
        },
{
}

/// A value that reads as text normalizes to a `Text` cell holding that text
/// under every type name that the engine's table does not list.
pub proof fn unknown_type_with_text_is_text(
    engine: DatabaseType,
    name: Seq<char>,
    value: WireValueModel,
    text: Seq<char>,
)
    requires
        !known_type(engine, name),
        !value.is_null(),
        value.as_text == Some(text),
    ensures
        normalized(engine, name, value) == CellModel::Text(text),
{
    unknown_type_falls_back(engine, name, value);
}

} // verus!
