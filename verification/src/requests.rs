//! What the catalog table asks of the engine that stores it.

use crate::entry::TableId;
use crate::schema::{Schema, SchemaView};
use vstd::prelude::*;

verus! {

/// One row of the catalog table, column by column.
#[derive(Debug, PartialEq, Eq)]
pub struct Row {
    /// The kind of the row, a code of `EntryType`.
    pub entry_type: u8,
    /// The names of what the row records.
    pub key: Vec<u8>,
    /// The time index, in milliseconds.
    pub timestamp: i64,
    /// What else the row records, as JSON.
    pub value: Vec<u8>,
    /// When the row was first written, in milliseconds since the epoch.
    pub gmt_created: i64,
    /// When the row was last written, in milliseconds since the epoch.
    pub gmt_modified: i64,
}

/// A [`Row`] with its byte strings as sequences.
pub struct RowView {
    pub entry_type: u8,
    pub key: Seq<u8>,
    pub timestamp: i64,
    pub value: Seq<u8>,
    pub gmt_created: i64,
    pub gmt_modified: i64,
}

impl View for Row {
    type V = RowView;

    open spec fn view(&self) -> RowView {
        RowView {
            entry_type: self.entry_type,
            key: self.key@,
            timestamp: self.timestamp,
            value: self.value@,
            gmt_created: self.gmt_created,
            gmt_modified: self.gmt_modified,
        }
    }
}

/// The request to insert one row into a table.
#[derive(Debug, PartialEq, Eq)]
pub struct InsertRequest {
    pub table_name: String,
    pub row: Row,
}

/// An [`InsertRequest`] in the terms of contracts.
pub struct InsertRequestView {
    pub table_name: Seq<char>,
    pub row: RowView,
}

impl View for InsertRequest {
    type V = InsertRequestView;

    open spec fn view(&self) -> InsertRequestView {
        InsertRequestView { table_name: self.table_name@, row: self.row@ }
    }
}

/// The request to open a table that exists.
#[derive(Debug, PartialEq, Eq)]
pub struct OpenTableRequest {
    pub catalog_name: String,
    pub schema_name: String,
    pub table_name: String,
    pub table_id: TableId,
}

/// An [`OpenTableRequest`] in the terms of contracts.
pub struct OpenTableRequestView {
    pub catalog_name: Seq<char>,
    pub schema_name: Seq<char>,
    pub table_name: Seq<char>,
    pub table_id: TableId,
}

impl View for OpenTableRequest {
    type V = OpenTableRequestView;

    open spec fn view(&self) -> OpenTableRequestView {
        OpenTableRequestView {
            catalog_name: self.catalog_name@,
            schema_name: self.schema_name@,
            table_name: self.table_name@,
            table_id: self.table_id,
        }
    }
}

/// The request to create a table.
#[derive(Debug, PartialEq, Eq)]
pub struct CreateTableRequest {
    pub id: TableId,
    pub catalog_name: Option<String>,
    pub schema_name: Option<String>,
    pub table_name: String,
    pub desc: Option<String>,
    pub schema: Schema,
    /// The columns that together identify a row, by their places in the
    /// schema.
    pub primary_key_indices: Vec<usize>,
    /// Whether a table that exists already is an answer rather than a
    /// failure.
    pub create_if_not_exists: bool,
    /// Options for the engine, each a name and a value.
    pub table_options: Vec<(String, String)>,
}

/// A [`CreateTableRequest`] in the terms of contracts.
pub struct CreateTableRequestView {
    pub id: TableId,
    pub catalog_name: Option<Seq<char>>,
    pub schema_name: Option<Seq<char>>,
    pub table_name: Seq<char>,
    pub desc: Option<Seq<char>>,
    pub schema: SchemaView,
    pub primary_key_indices: Seq<usize>,
    pub create_if_not_exists: bool,
    pub table_options: Seq<(Seq<char>, Seq<char>)>,
}

/// The text of a string that may be absent.
pub open spec fn text_of(text: Option<String>) -> Option<Seq<char>> {
    match text {
        Some(text) => Some(text@),
        None => None,
    }
}

impl View for CreateTableRequest {
    type V = CreateTableRequestView;

    open spec fn view(&self) -> CreateTableRequestView {
        CreateTableRequestView {
            id: self.id,
            catalog_name: text_of(self.catalog_name),
            schema_name: text_of(self.schema_name),
            table_name: self.table_name@,
            desc: text_of(self.desc),
            schema: self.schema@,
            primary_key_indices: self.primary_key_indices@,
            create_if_not_exists: self.create_if_not_exists,
            table_options: self.table_options@.map_values(
                |option: (String, String)| (option.0@, option.1@),
            ),
        }
    }
}

/// The request to read rows of a table: which columns, how many filters
/// narrow the rows, and how many rows at most.
#[derive(Debug, PartialEq, Eq)]
pub struct ScanRequest {
    /// The places of the columns to read, `None` for all of them.
    pub projection: Option<Vec<usize>>,
    /// The number of filters that a row has to pass.
    pub filters: usize,
    /// The number of rows to stop after, `None` for no limit.
    pub limit: Option<usize>,
}

impl ScanRequest {
    /// The request reads every column of every row.
    pub open spec fn is_full(&self) -> bool {
        self.projection is None && self.filters == 0 && self.limit is None
    }
}

} // verus!
