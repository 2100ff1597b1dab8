//! Rows of the system catalog table, read and written.

use crate::consts::{
    INFORMATION_SCHEMA_NAME, SYSTEM_CATALOG_NAME, SYSTEM_CATALOG_TABLE_ID,
    SYSTEM_CATALOG_TABLE_NAME,
};
use crate::entry::{
    CatalogEntry, CatalogEntryView, Entry, EntryType, EntryView, SchemaEntry, SchemaEntryView,
    TableEntry, TableEntryValue, TableEntryView, TableId,
};
use crate::error::{CatalogError, ErrorView};
use crate::key::{dot_free, dot_parts, join_dotted, lemma_dot_parts_of_join, split_key, texts};
use crate::requests::{
    CreateTableRequest, CreateTableRequestView, InsertRequest, InsertRequestView,
    OpenTableRequest, OpenTableRequestView, Row, RowView, ScanRequest,
};
use crate::schema::{ColumnSchema, ColumnSchemaView, ConcreteDataType, Schema, SchemaView};
use crate::text::{lossy_text, read_lossy};
use vstd::prelude::*;
use vstd::string::StrSliceExecFns;
use vstd::utf8::{encode_utf8, encode_utf8_decode_utf8, encode_utf8_valid_utf8};

verus! {

/// The place of the kind among the columns of the catalog table.
pub const ENTRY_TYPE_INDEX: usize = 0;

/// The place of the key among the columns.
pub const KEY_INDEX: usize = 1;

/// The place of the timestamp among the columns.
pub const TIMESTAMP_INDEX: usize = 2;

/// The place of the value among the columns.
pub const VALUE_INDEX: usize = 3;

/// The schema of the system catalog table. Its six columns, none of which
/// may be left empty, are
/// - `entry_type`: the kind of the row, the code of an [`EntryType`];
/// - `key`: the names of what the row records, by the row's kind;
/// - `timestamp`: the time index, not used so far;
/// - `value`: what else is recorded, as JSON;
/// - `gmt_created`: when the row was first written;
/// - `gmt_modified`: when the row was last written.
pub open spec fn system_catalog_schema() -> SchemaView {
    SchemaView {
        column_schemas: seq![
            ColumnSchemaView {
                name: "entry_type"@,
                data_type: ConcreteDataType::UInt8,
                is_nullable: false,
            },
            ColumnSchemaView {
                name: "key"@,
                data_type: ConcreteDataType::Binary,
                is_nullable: false,
            },
            ColumnSchemaView {
                name: "timestamp"@,
                data_type: ConcreteDataType::TimestampMillis,
                is_nullable: false,
            },
            ColumnSchemaView {
                name: "value"@,
                data_type: ConcreteDataType::Binary,
                is_nullable: false,
            },
            ColumnSchemaView {
                name: "gmt_created"@,
                data_type: ConcreteDataType::TimestampMillis,
                is_nullable: false,
            },
            ColumnSchemaView {
                name: "gmt_modified"@,
                data_type: ConcreteDataType::TimestampMillis,
                is_nullable: false,
            },
        ],
        timestamp_index: Some(TIMESTAMP_INDEX),
    }
}

/// The schema of the catalog table does not contradict itself, so that
/// building it cannot fail.
pub proof fn lemma_system_catalog_schema_consistent()
    ensures
        system_catalog_schema().consistent(),
        system_catalog_schema().column_schemas.len() == 6,
        forall|i: int|
            0 <= i < 6 ==> !(#[trigger] system_catalog_schema().column_schemas[i]).is_nullable,
{
    reveal_strlit("entry_type");
    reveal_strlit("key");
    reveal_strlit("timestamp");
    reveal_strlit("value");
    reveal_strlit("gmt_created");
    reveal_strlit("gmt_modified");
    let columns = system_catalog_schema().column_schemas;
    assert(columns[0].name.len() == 10);
    assert(columns[1].name.len() == 3);
    assert(columns[2].name.len() == 9);
    assert(columns[3].name.len() == 5);
    assert(columns[4].name.len() == 11);
    assert(columns[5].name.len() == 12);
}

/// Builds the schema of the system catalog table.
pub fn build_system_catalog_schema() -> (schema: Schema)
    ensures
        schema@ == system_catalog_schema(),
        schema@.consistent(),
{
    let mut cols: Vec<ColumnSchema> = Vec::new();
    cols.push(ColumnSchema::new("entry_type".to_owned(), ConcreteDataType::UInt8, false));
    cols.push(ColumnSchema::new("key".to_owned(), ConcreteDataType::Binary, false));
    cols.push(
        ColumnSchema::new("timestamp".to_owned(), ConcreteDataType::TimestampMillis, false),
    );
    cols.push(ColumnSchema::new("value".to_owned(), ConcreteDataType::Binary, false));
    cols.push(
        ColumnSchema::new("gmt_created".to_owned(), ConcreteDataType::TimestampMillis, false),
    );
    cols.push(
        ColumnSchema::new("gmt_modified".to_owned(), ConcreteDataType::TimestampMillis, false),
    );
    let schema = Schema { column_schemas: cols, timestamp_index: Some(TIMESTAMP_INDEX) };
    proof {
        assert(schema@.column_schemas =~= system_catalog_schema().column_schemas);
        lemma_system_catalog_schema_consistent();
    }
    schema
}

/// The request that records a table in the catalog: one row of kind
/// table, keyed by the table's full name, with the table id as its value.
/// The time index is left at zero, and the row counts as created and as
/// modified at the one instant `now`.
pub open spec fn table_insert_request(full_table_name: Seq<char>, table_id: TableId, now: i64)
    -> InsertRequestView {
    InsertRequestView {
        table_name: SYSTEM_CATALOG_TABLE_NAME@,
        row: RowView {
            entry_type: EntryType::Table.spec_code(),
            key: encode_utf8(full_table_name),
            timestamp: 0,
            value: (TableEntryValue { table_id }).spec_json(),
            gmt_created: now,
            gmt_modified: now,
        },
    }
}

/// Builds the request that records a table under its full name,
/// `catalog.schema.table`; `now` is the time of writing, in milliseconds
/// since the epoch.
pub fn build_table_insert_request(full_table_name: String, table_id: TableId, now: i64) -> (request:
    InsertRequest)
    ensures
        request@ == table_insert_request(full_table_name@, table_id, now),
{
    let value = TableEntryValue { table_id };
    InsertRequest {
        table_name: SYSTEM_CATALOG_TABLE_NAME.to_owned(),
        row: Row {
            entry_type: EntryType::Table.code(),
            key: full_table_name.as_str().as_bytes_vec(),
            // The time index is not used so far.
            timestamp: 0,
            value: value.to_json(),
            gmt_created: now,
            gmt_modified: now,
        },
    }
}

/// The request by which the catalog table is opened: its reserved names
/// and id.
pub open spec fn system_catalog_open_request() -> OpenTableRequestView {
    OpenTableRequestView {
        catalog_name: SYSTEM_CATALOG_NAME@,
        schema_name: INFORMATION_SCHEMA_NAME@,
        table_name: SYSTEM_CATALOG_TABLE_NAME@,
        table_id: SYSTEM_CATALOG_TABLE_ID,
    }
}

/// The request by which the catalog table is created: under its reserved
/// names and id, with its schema, keyed by kind, key and timestamp, and
/// content with a table that exists already.
pub open spec fn system_catalog_create_request() -> CreateTableRequestView {
    CreateTableRequestView {
        id: SYSTEM_CATALOG_TABLE_ID,
        catalog_name: Some(SYSTEM_CATALOG_NAME@),
        schema_name: Some(INFORMATION_SCHEMA_NAME@),
        table_name: SYSTEM_CATALOG_TABLE_NAME@,
        desc: Some("System catalog table"@),
        schema: system_catalog_schema(),
        primary_key_indices: seq![ENTRY_TYPE_INDEX, KEY_INDEX, TIMESTAMP_INDEX],
        create_if_not_exists: true,
        table_options: Seq::empty(),
    }
}

/// The system catalog table: an opened table of the engine, of whatever
/// type `T` the engine hands out, together with the catalog's schema.
#[derive(Debug)]
pub struct SystemCatalogTable<T> {
    schema: Schema,
    table: T,
}

/// How far opening the catalog table has come once the engine has
/// answered the request to open it.
#[derive(Debug)]
pub enum Bootstrap<T> {
    /// The table was there.
    Ready(SystemCatalogTable<T>),
    /// The table is not there yet: the engine is to create it.
    Create(CreateTableRequest),
    /// The engine failed, and with it the start of the database.
    Failed(CatalogError),
}

impl<T> SystemCatalogTable<T> {
    #[verifier::type_invariant]
    spec fn holds_catalog_schema(&self) -> bool {
        self.schema@ == system_catalog_schema()
    }

    /// The engine's table behind this one.
    pub closed spec fn spec_table(&self) -> T {
        self.table
    }

    /// The catalog table over an opened table of the engine. That table's
    /// own schema is trusted to be the catalog's.
    pub fn new(table: T) -> (catalog: Self)
        ensures
            catalog.spec_table() == table,
    {
        SystemCatalogTable { schema: build_system_catalog_schema(), table }
    }

    /// The engine's table, to which inserts and scans are handed on.
    pub fn table(&self) -> (table: &T)
        ensures
            *table == self.spec_table(),
    {
        &self.table
    }

    /// The schema of the catalog table.
    pub fn schema(&self) -> (schema: &Schema)
        ensures
            schema@ == system_catalog_schema(),
    {
        proof {
            use_type_invariant(self);
        }
        &self.schema
    }

    /// The one scan that the catalog table supports reads all of it: no
    /// choice of columns, no filter, no limit.
    pub open spec fn spec_supports_scan<F>(
        projection: &Option<Vec<usize>>,
        filters: &[F],
        limit: Option<usize>,
    ) -> bool {
        projection is None && filters@.len() == 0 && limit is None
    }

    /// Whether the catalog table supports a scan.
    #[verifier::when_used_as_spec(spec_supports_scan)]
    pub fn supports_scan<F>(projection: &Option<Vec<usize>>, filters: &[F], limit: Option<usize>)
        -> (supported: bool)
        ensures
            supported == Self::spec_supports_scan(projection, filters, limit),
    {
        projection.is_none() && filters.len() == 0 && limit.is_none()
    }

    /// The request to hand to the engine's table for a scan. To ask for
    /// anything but all of the table is a mistake of the caller.
    pub fn scan<F>(&self, projection: &Option<Vec<usize>>, filters: &[F], limit: Option<usize>)
        -> (request: ScanRequest)
        requires
            Self::spec_supports_scan(projection, filters, limit),
        ensures
            request.is_full(),
    {
        self.records()
    }

    /// The request that streams every entry of the catalog out of the
    /// engine's table.
    pub fn records(&self) -> (request: ScanRequest)
        ensures
            request.is_full(),
    {
        ScanRequest { projection: None, filters: 0, limit: None }
    }

    /// The request with which opening the catalog table begins.
    pub fn open_request() -> (request: OpenTableRequest)
        ensures
            request@ == system_catalog_open_request(),
    {
        OpenTableRequest {
            catalog_name: SYSTEM_CATALOG_NAME.to_owned(),
            schema_name: INFORMATION_SCHEMA_NAME.to_owned(),
            table_name: SYSTEM_CATALOG_TABLE_NAME.to_owned(),
            table_id: SYSTEM_CATALOG_TABLE_ID,
        }
    }

    /// The request with which the catalog table is created where it is
    /// missing.
    pub fn create_request() -> (request: CreateTableRequest)
        ensures
            request@ == system_catalog_create_request(),
    {
        let mut primary_key_indices: Vec<usize> = Vec::new();
        primary_key_indices.push(ENTRY_TYPE_INDEX);
        primary_key_indices.push(KEY_INDEX);
        primary_key_indices.push(TIMESTAMP_INDEX);
        let request = CreateTableRequest {
            id: SYSTEM_CATALOG_TABLE_ID,
            catalog_name: Some(SYSTEM_CATALOG_NAME.to_owned()),
            schema_name: Some(INFORMATION_SCHEMA_NAME.to_owned()),
            table_name: SYSTEM_CATALOG_TABLE_NAME.to_owned(),
            desc: Some("System catalog table".to_owned()),
            schema: build_system_catalog_schema(),
            primary_key_indices,
            create_if_not_exists: true,
            table_options: Vec::new(),
        };
        proof {
            assert(request@.primary_key_indices =~= seq![
                ENTRY_TYPE_INDEX,
                KEY_INDEX,
                TIMESTAMP_INDEX,
            ]);
            assert(request@.table_options =~= Seq::empty());
        }
        request
    }

    /// What follows the engine's answer to the request to open the table:
    /// a table that was found is the catalog table, a missing one is to be
    /// created, and a failure of the engine, told in `Err`, ends the
    /// attempt.
    pub fn opened(reply: Result<Option<T>, String>) -> (next: Bootstrap<T>)
        ensures
            match reply {
                Ok(Some(table)) => next matches Bootstrap::Ready(catalog) && catalog.spec_table()
                    == table,
                Ok(None) => next matches Bootstrap::Create(request) && request@
                    == system_catalog_create_request(),
                Err(source) => next matches Bootstrap::Failed(error) && error@
                    == (ErrorView::OpenSystemCatalog { source: source@ }),
            },
    {
        match reply {
            Ok(Some(table)) => Bootstrap::Ready(Self::new(table)),
            Ok(None) => Bootstrap::Create(Self::create_request()),
            Err(source) => Bootstrap::Failed(CatalogError::OpenSystemCatalog { source }),
        }
    }

    /// What follows the engine's answer to the request to create the
    /// table: the created table is the catalog table, and a failure of the
    /// engine, told in `Err`, ends the attempt.
    pub fn created(reply: Result<T, String>) -> (r: Result<Self, CatalogError>)
        ensures
            match reply {
                Ok(table) => r matches Ok(catalog) && catalog.spec_table() == table,
                Err(source) => r matches Err(error) && error@
                    == (ErrorView::CreateSystemCatalog { source: source@ }),
            },
    {
        match reply {
            Ok(table) => Ok(Self::new(table)),
            Err(source) => Err(CatalogError::CreateSystemCatalog { source }),
        }
    }
}

/// What reading a row's value column gave, in the terms of contracts.
pub open spec fn value_read(value: Option<Seq<u8>>) -> Option<Result<TableEntryValue, ErrorView>> {
    match value {
        None => None,
        Some(bytes) => Some(
            match TableEntryValue::spec_from_json(bytes) {
                Some(read) => Ok(read),
                None => Err(ErrorView::ValueDeserialize),
            },
        ),
    }
}

/// The entry that a row of a known kind stands for.
///
/// A catalog's key is its name. A schema's key has exactly two parts, the
/// catalog and the schema. A table's key has at least three parts, of
/// which the first three are read as catalog, schema and table: what
/// follows a third dot is not part of the table's name. A table row also
/// needs its value, from which the table id comes.
pub open spec fn entry_of(
    kind: EntryType,
    key: Seq<char>,
    value: Option<Result<TableEntryValue, ErrorView>>,
) -> Result<EntryView, ErrorView> {
    let parts = dot_parts(key);
    match kind {
        EntryType::Catalog => Ok(EntryView::Catalog(CatalogEntryView { catalog_name: key })),
        EntryType::Schema => if parts.len() == 2 {
            Ok(EntryView::Schema(SchemaEntryView { catalog_name: parts[0], schema_name: parts[1] }))
        } else {
            Err(ErrorView::InvalidKey { key: Some(key) })
        },
        EntryType::Table => if parts.len() < 3 {
            Err(ErrorView::InvalidKey { key: Some(key) })
        } else {
            match value {
                None => Err(ErrorView::EmptyValue),
                Some(Err(unread)) => Err(unread),
                Some(Ok(read)) => Ok(
                    EntryView::Table(
                        TableEntryView {
                            catalog_name: parts[0],
                            schema_name: parts[1],
                            table_name: parts[2],
                            table_id: read.table_id,
                        },
                    ),
                ),
            }
        },
    }
}

/// The entry that the three columns of a row stand for.
///
/// A row without a kind or without a key is refused before anything else
/// is looked at, then one of an unknown kind. The key is read as text, and
/// the value is only read for a table row.
pub open spec fn decoded(entry_type: Option<u8>, key: Option<Seq<u8>>, value: Option<Seq<u8>>) -> Result<
    EntryView,
    ErrorView,
> {
    match (entry_type, key) {
        (Some(code), Some(key)) => match EntryType::spec_from_code(code) {
            Some(kind) => entry_of(kind, lossy_text(key), value_read(value)),
            None => Err(ErrorView::InvalidEntryType { entry_type: Some(code) }),
        },
        _ => Err(ErrorView::InvalidKey { key: None }),
    }
}

/// The bytes behind an optional slice.
pub open spec fn bytes_of(column: Option<&[u8]>) -> Option<Seq<u8>> {
    match column {
        Some(bytes) => Some(bytes@),
        None => None,
    }
}

/// A decoding result with its texts as sequences of characters.
pub open spec fn outcome(r: Result<Entry, CatalogError>) -> Result<EntryView, ErrorView> {
    match r {
        Ok(entry) => Ok(entry@),
        Err(error) => Err(error@),
    }
}

/// What was read from a value column, with the texts of a failure as
/// sequences of characters.
pub open spec fn read_outcome(value: Option<Result<TableEntryValue, CatalogError>>) -> Option<
    Result<TableEntryValue, ErrorView>,
> {
    match value {
        None => None,
        Some(Ok(read)) => Some(Ok(read)),
        Some(Err(error)) => Some(Err(error@)),
    }
}

/// Decodes a row of a known kind from its key, read as text, and from what
/// reading its value gave: `None` for a row without a value.
pub fn decode_entry(
    kind: EntryType,
    key: String,
    value: Option<Result<TableEntryValue, CatalogError>>,
) -> (r: Result<Entry, CatalogError>)
    ensures
        outcome(r) == entry_of(kind, key@, read_outcome(value)),
{
    match kind {
        EntryType::Catalog => Ok(Entry::Catalog(CatalogEntry { catalog_name: key })),
        EntryType::Schema => {
            let parts = split_key(key.as_str());
            if parts.len() != 2 {
                return Err(CatalogError::InvalidKey { key: Some(key) });
            }
            Ok(
                Entry::Schema(
                    SchemaEntry { catalog_name: parts[0].clone(), schema_name: parts[1].clone() },
                ),
            )
        },
        EntryType::Table => {
            let parts = split_key(key.as_str());
            if parts.len() < 3 {
                return Err(CatalogError::InvalidKey { key: Some(key) });
            }
            assert(texts(parts@)[0] == parts@[0]@ && texts(parts@)[1] == parts@[1]@ && texts(
                parts@,
            )[2] == parts@[2]@);
            match value {
                None => Err(CatalogError::EmptyValue),
                Some(Err(unread)) => Err(unread),
                Some(Ok(read)) => Ok(
                    Entry::Table(
                        TableEntry {
                            catalog_name: parts[0].clone(),
                            schema_name: parts[1].clone(),
                            table_name: parts[2].clone(),
                            table_id: read.table_id,
                        },
                    ),
                ),
            }
        },
    }
}

/// Decodes one row of the catalog table from its kind, key and value
/// columns, each of which may be absent.
pub fn decode_system_catalog(entry_type: Option<u8>, key: Option<&[u8]>, value: Option<&[u8]>) -> (r:
    Result<Entry, CatalogError>)
    ensures
        outcome(r) == decoded(entry_type, bytes_of(key), bytes_of(value)),
        entry_type is None || key is None ==> outcome(r) == Err::<EntryView, ErrorView>(
            ErrorView::InvalidKey { key: None },
        ),
        entry_type is Some && key is Some && !(1 <= entry_type.unwrap() <= 3) ==> outcome(r)
            == Err::<EntryView, ErrorView>(ErrorView::InvalidEntryType { entry_type }),
        entry_type == Some(2u8) && key is Some && dot_parts(lossy_text(key.unwrap()@)).len() != 2
            ==> outcome(r) == Err::<EntryView, ErrorView>(
            ErrorView::InvalidKey { key: Some(lossy_text(key.unwrap()@)) },
        ),
        entry_type == Some(3u8) && key is Some && dot_parts(lossy_text(key.unwrap()@)).len() < 3
            ==> outcome(r) == Err::<EntryView, ErrorView>(
            ErrorView::InvalidKey { key: Some(lossy_text(key.unwrap()@)) },
        ),
        entry_type == Some(3u8) && key is Some && dot_parts(lossy_text(key.unwrap()@)).len() >= 3
            && value is None ==> outcome(r) == Err::<EntryView, ErrorView>(ErrorView::EmptyValue),
{
    let code = match entry_type {
        Some(code) => code,
        None => {
            return Err(CatalogError::InvalidKey { key: None });
        },
    };
    let key = match key {
        Some(bytes) => read_lossy(bytes),
        None => {
            return Err(CatalogError::InvalidKey { key: None });
        },
    };
    let kind = match EntryType::try_from(code) {
        Ok(kind) => kind,
        Err(unknown) => {
            return Err(unknown);
        },
    };
    let value = match (kind, value) {
        (EntryType::Table, Some(bytes)) => Some(TableEntryValue::from_json(bytes)),
        _ => None,
    };
    decode_entry(kind, key, value)
}

/// The bytes that encode a text are read as that text.
pub proof fn lemma_text_is_read_back(text: Seq<char>)
    ensures
        lossy_text(encode_utf8(text)) == text,
{
    encode_utf8_valid_utf8(text);
    encode_utf8_decode_utf8(text);
}

/// A catalog row decodes to the catalog that its key names, whatever the
/// name and whatever the row's value.
pub proof fn lemma_catalog_row_decodes(catalog_name: Seq<char>, value: Option<Seq<u8>>)
    ensures
        decoded(Some(EntryType::Catalog.spec_code()), Some(encode_utf8(catalog_name)), value)
            == Ok::<EntryView, ErrorView>(EntryView::Catalog(CatalogEntryView { catalog_name })),
{
    lemma_text_is_read_back(catalog_name);
}

/// A schema row whose key is two names without dots, joined by a dot,
/// decodes to the schema of these names, whatever the row's value.
pub proof fn lemma_schema_row_decodes(
    catalog_name: Seq<char>,
    schema_name: Seq<char>,
    value: Option<Seq<u8>>,
)
    requires
        dot_free(catalog_name),
        dot_free(schema_name),
    ensures
        decoded(
            Some(EntryType::Schema.spec_code()),
            Some(encode_utf8(join_dotted(seq![catalog_name, schema_name]))),
            value,
        ) == Ok::<EntryView, ErrorView>(
            EntryView::Schema(SchemaEntryView { catalog_name, schema_name }),
        ),
{
    let names = seq![catalog_name, schema_name];
    lemma_text_is_read_back(join_dotted(names));
    lemma_dot_parts_of_join(names);
}

/// A table row whose key is three or more names without dots, joined by
/// dots, and whose value spells a table id, decodes to the table of the
/// first three names and that id.
pub proof fn lemma_table_row_decodes(names: Seq<Seq<char>>, value: Seq<u8>, table_id: TableId)
    requires
        names.len() >= 3,
        forall|i: int| 0 <= i < names.len() ==> dot_free(#[trigger] names[i]),
    ensures
        TableEntryValue::spec_from_json(value) == Some(TableEntryValue { table_id }) ==> decoded(
            Some(EntryType::Table.spec_code()),
            Some(encode_utf8(join_dotted(names))),
            Some(value),
        ) == Ok::<EntryView, ErrorView>(
            EntryView::Table(
                TableEntryView {
                    catalog_name: names[0],
                    schema_name: names[1],
                    table_name: names[2],
                    table_id,
                },
            ),
        ),
        TableEntryValue::spec_from_json(value) is None ==> decoded(
            Some(EntryType::Table.spec_code()),
            Some(encode_utf8(join_dotted(names))),
            Some(value),
        ) == Err::<EntryView, ErrorView>(ErrorView::ValueDeserialize),
{
    lemma_text_is_read_back(join_dotted(names));
    lemma_dot_parts_of_join(names);
}

/// The row that records a table under `catalog.schema.table` is a table
/// row keyed by these three names: once its value is read back as it was
/// written, the row decodes to the table that was recorded.
pub proof fn lemma_inserted_row_decodes(
    catalog_name: Seq<char>,
    schema_name: Seq<char>,
    table_name: Seq<char>,
    table_id: TableId,
    now: i64,
)
    requires
        dot_free(catalog_name),
        dot_free(schema_name),
        dot_free(table_name),
    ensures
        ({
            let full_table_name = join_dotted(seq![catalog_name, schema_name, table_name]);
            let row = table_insert_request(full_table_name, table_id, now).row;
            TableEntryValue::spec_from_json(row.value) == Some(TableEntryValue { table_id })
                ==> decoded(Some(row.entry_type), Some(row.key), Some(row.value)) == Ok::<
                EntryView,
                ErrorView,
            >(
                EntryView::Table(
                    TableEntryView { catalog_name, schema_name, table_name, table_id },
                ),
            )
        }),
{
    let names = seq![catalog_name, schema_name, table_name];
    let row = table_insert_request(join_dotted(names), table_id, now).row;
    lemma_table_row_decodes(names, row.value, table_id);
}

/// The catalog table is created with a key made of its first three
/// columns, the kind, the key and the timestamp, each a column of its
/// schema and the last of them the time index.
pub proof fn lemma_create_request_is_keyed()
    ensures
        system_catalog_create_request().schema.consistent(),
        system_catalog_create_request().primary_key_indices == seq![0usize, 1usize, 2usize],
        forall|i: int|
            0 <= i < 3 ==> (#[trigger] system_catalog_create_request().primary_key_indices[i])
                < system_catalog_create_request().schema.column_schemas.len(),
        system_catalog_create_request().schema.timestamp_index == Some(
            system_catalog_create_request().primary_key_indices[2],
        ),
{
    lemma_system_catalog_schema_consistent();
}

} // verus!
