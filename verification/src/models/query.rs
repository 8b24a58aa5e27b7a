//! The canonical result of a read: typed cells, column descriptors, rows.

use vstd::prelude::*;

verus! {

/// One table cell in the engine-agnostic representation.
///
/// `Float` carries the IEEE-754 bit pattern of a 64-bit float, so that the
/// value can be compared and stored without floating-point arithmetic.
#[derive(Clone, Debug, PartialEq, Eq)]
pub enum CellValue {
    Null,
    Bool(bool),
    Int(i64),
    Float(u64),
    Text(String),
    Timestamp(String),
    Json(String),
    Binary(Vec<u8>),
}

/// The mathematical value of a [`CellValue`].
pub enum CellModel {
    Null,
    Bool(bool),
    Int(i64),
    Float(u64),
    Text(Seq<char>),
    Timestamp(Seq<char>),
    Json(Seq<char>),
    Binary(Seq<u8>),
}

impl View for CellValue {
    type V = CellModel;

    open spec fn view(&self) -> CellModel {
        match *self {
            CellValue::Null => CellModel::Null,
            CellValue::Bool(b) => CellModel::Bool(b),
            CellValue::Int(v) => CellModel::Int(v),
            CellValue::Float(bits) => CellModel::Float(bits),
            CellValue::Text(s) => CellModel::Text(s@),
            CellValue::Timestamp(s) => CellModel::Timestamp(s@),
            CellValue::Json(s) => CellModel::Json(s@),
            CellValue::Binary(b) => CellModel::Binary(b@),
        }
    }
}

/// The view of an optional cell.
pub open spec fn cell_option_view(cell: Option<CellValue>) -> Option<CellModel> {
    match cell {
        Some(c) => Some(c@),
        None => None,
    }
}

/// A column descriptor: the column's name and the type name the engine reported.
#[derive(Clone, Debug, PartialEq, Eq)]
pub struct ColumnDef {
    pub name: String,
    pub data_type: String,
}

impl View for ColumnDef {
    type V = (Seq<char>, Seq<char>);

    open spec fn view(&self) -> (Seq<char>, Seq<char>) {
        (self.name@, self.data_type@)
    }
}

/// The normalized result of a read: the column descriptors, the rows with
/// their cells in column order, the number of rows and the time the
/// execution took.
#[derive(Clone, Debug, PartialEq, Eq)]
pub struct QueryResponse {
    pub columns: Vec<ColumnDef>,
    pub rows: Vec<Vec<CellValue>>,
    pub row_count: usize,
    pub execution_time_ms: u64,
}

impl QueryResponse {
    /// Whether the row count is the number of rows.
    pub open spec fn counted(&self) -> bool {
        self.row_count == self.rows@.len()
    }

    /// Whether every row has one cell for each column descriptor.
    pub open spec fn aligned(&self) -> bool {
        forall|i: int|
            0 <= i < self.rows@.len() ==> (#[trigger] self.rows@[i])@.len() == self.columns@.len()
    }
}

} // verus!
