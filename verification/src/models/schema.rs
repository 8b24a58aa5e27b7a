//! Descriptors of schema objects. They are read-only projections, computed
//! anew on every request.

use vstd::prelude::*;

verus! {

/// A container of items: a schema, a database, a keyspace.
#[derive(Clone, Debug)]
pub struct ContainerInfo {
    pub name: String,
}

/// An item of a container: a table, a view, a collection.
#[derive(Clone, Debug)]
pub struct ItemInfo {
    pub name: String,
    pub container: String,
    pub item_type: String,
    pub item_count: Option<i64>,
}

/// A field of an item.
#[derive(Clone, Debug)]
pub struct FieldInfo {
    pub name: String,
    pub data_type: String,
    pub is_nullable: bool,
    pub is_key: bool,
}

/// A schema.
#[derive(Clone, Debug)]
pub struct SchemaInfo {
    pub name: String,
}

/// A table or view of a schema.
#[derive(Clone, Debug)]
pub struct TableInfo {
    pub name: String,
    pub schema: String,
    pub table_type: String,
    pub row_count: Option<i64>,
}

/// A column of a table.
#[derive(Clone, Debug)]
pub struct ColumnInfo {
    pub name: String,
    pub data_type: String,
    pub is_nullable: bool,
    pub column_default: Option<String>,
    pub is_primary_key: bool,
    pub ordinal_position: i32,
}

/// An index of a table, with the names of the columns it covers.
#[derive(Clone, Debug)]
pub struct IndexInfo {
    pub name: String,
    pub columns: Vec<String>,
    pub is_unique: bool,
    pub is_primary: bool,
    pub index_type: String,
}

/// A foreign key of a table, with the columns on both sides.
#[derive(Clone, Debug)]
pub struct ForeignKeyInfo {
    pub name: String,
    pub columns: Vec<String>,
    pub referenced_table: String,
    pub referenced_schema: String,
    pub referenced_columns: Vec<String>,
    pub on_update: String,
    pub on_delete: String,
}

} // verus!
