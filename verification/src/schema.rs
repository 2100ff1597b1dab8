//! The description of a table's columns that is handed to the engine.

use vstd::prelude::*;

verus! {

/// The types of the columns of the system catalog table.
#[derive(Debug, Copy, Clone, PartialEq, Eq, Structural)]
pub enum ConcreteDataType {
    /// An unsigned integer of eight bits.
    UInt8,
    /// A byte string of any length.
    Binary,
    /// A point in time, in milliseconds.
    TimestampMillis,
}

/// One column: its name, its type, and whether it may be left empty.
#[derive(Debug, PartialEq, Eq)]
pub struct ColumnSchema {
    pub name: String,
    pub data_type: ConcreteDataType,
    pub is_nullable: bool,
}

/// A [`ColumnSchema`] with its name as a sequence of characters.
pub struct ColumnSchemaView {
    pub name: Seq<char>,
    pub data_type: ConcreteDataType,
    pub is_nullable: bool,
}

impl View for ColumnSchema {
    type V = ColumnSchemaView;

    open spec fn view(&self) -> ColumnSchemaView {
        ColumnSchemaView {
            name: self.name@,
            data_type: self.data_type,
            is_nullable: self.is_nullable,
        }
    }
}

impl ColumnSchema {
    /// A column of the given name and type.
    pub fn new(name: String, data_type: ConcreteDataType, is_nullable: bool) -> (column: Self)
        ensures
            column@ == (ColumnSchemaView { name: name@, data_type, is_nullable }),
    {
        ColumnSchema { name, data_type, is_nullable }
    }
}

/// The columns of a table in their order, and which of them is the time
/// index.
#[derive(Debug, PartialEq, Eq)]
pub struct Schema {
    pub column_schemas: Vec<ColumnSchema>,
    pub timestamp_index: Option<usize>,
}

/// A [`Schema`] with its columns as a sequence.
pub struct SchemaView {
    pub column_schemas: Seq<ColumnSchemaView>,
    pub timestamp_index: Option<usize>,
}

impl View for Schema {
    type V = SchemaView;

    open spec fn view(&self) -> SchemaView {
        SchemaView {
            column_schemas: self.column_schemas@.map_values(|column: ColumnSchema| column@),
            timestamp_index: self.timestamp_index,
        }
    }
}

impl SchemaView {
    /// No two columns share a name.
    pub open spec fn names_differ(self) -> bool {
        forall|i: int, j: int|
            0 <= i < j < self.column_schemas.len() ==> self.column_schemas[i].name
                != self.column_schemas[j].name
    }

    /// The time index, where there is one, is a column of the schema and
    /// holds points in time.
    pub open spec fn time_index_fits(self) -> bool {
        match self.timestamp_index {
            Some(index) => index < self.column_schemas.len()
                && self.column_schemas[index as int].data_type == ConcreteDataType::TimestampMillis,
            None => true,
        }
    }

    /// The schema does not contradict itself: an engine has no reason to
    /// refuse it.
    pub open spec fn consistent(self) -> bool {
        self.names_differ() && self.time_index_fits()
    }
}

} // verus!
