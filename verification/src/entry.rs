//! The entries of the catalog: their kinds, their stable wire codes and
//! the value that a table row carries.

use crate::error::CatalogError;
use crate::json::{decimal_digits, json_document, member, member_of, parse, push_decimal};
use vstd::prelude::*;
use vstd::std_specs::convert::{TryFromSpec, TryFromSpecImpl};
use vstd::string::{StrSliceExecFns, StringSliceAdditionalSpecFns};

verus! {

/// The kind of a row of the system catalog table.
///
/// The codes are part of the stored format and never change meaning:
/// 1 is a catalog, 2 a schema, 3 a table.
#[derive(Debug, Copy, Clone, PartialEq, Eq, Structural)]
pub enum EntryType {
    Catalog,
    Schema,
    Table,
}

impl EntryType {
    /// The wire code of each kind.
    pub open spec fn spec_code(self) -> u8 {
        match self {
            EntryType::Catalog => 1,
            EntryType::Schema => 2,
            EntryType::Table => 3,
        }
    }

    /// The kind that a wire code stands for, if any.
    pub open spec fn spec_from_code(code: u8) -> Option<EntryType> {
        if code == 1 {
            Some(EntryType::Catalog)
        } else if code == 2 {
            Some(EntryType::Schema)
        } else if code == 3 {
            Some(EntryType::Table)
        } else {
            None
        }
    }

    /// The wire code under which this kind is stored.
    #[verifier::when_used_as_spec(spec_code)]
    pub fn code(self) -> (code: u8)
        ensures
            code == self.spec_code(),
    {
        match self {
            EntryType::Catalog => 1,
            EntryType::Schema => 2,
            EntryType::Table => 3,
        }
    }
}

impl TryFrom<u8> for EntryType {
    type Error = CatalogError;

    /// Reads a wire code: 1, 2 and 3 are the three kinds, every other byte
    /// is refused and handed back in the error.
    fn try_from(value: u8) -> (r: Result<Self, CatalogError>) {
        if value == 1 {
            Ok(EntryType::Catalog)
        } else if value == 2 {
            Ok(EntryType::Schema)
        } else if value == 3 {
            Ok(EntryType::Table)
        } else {
            Err(CatalogError::InvalidEntryType { entry_type: Some(value) })
        }
    }
}

impl TryFromSpecImpl<u8> for EntryType {
    open spec fn obeys_try_from_spec() -> bool {
        true
    }

    open spec fn try_from_spec(value: u8) -> Result<Self, CatalogError> {
        match EntryType::spec_from_code(value) {
            Some(t) => Ok(t),
            None => Err(CatalogError::InvalidEntryType { entry_type: Some(value) }),
        }
    }
}

/// Every kind is read back from its own code.
pub proof fn lemma_kind_round_trip(kind: EntryType)
    ensures
        1 <= kind.spec_code() <= 3,
        EntryType::spec_from_code(kind.spec_code()) == Some(kind),
        <EntryType as TryFromSpec<u8>>::try_from_spec(kind.spec_code()) == Ok::<
            EntryType,
            CatalogError,
        >(kind),
{
}

/// The bytes that are read as a kind are 1, 2 and 3, each the code of the
/// kind it is read as; every other byte is refused, and named in the
/// refusal.
pub proof fn lemma_code_round_trip(code: u8)
    ensures
        EntryType::spec_from_code(code) is Some <==> 1 <= code <= 3,
        EntryType::spec_from_code(code) matches Some(kind) ==> kind.spec_code() == code,
        <EntryType as TryFromSpec<u8>>::try_from_spec(code) is Ok <==> 1 <= code <= 3,
        !(1 <= code <= 3) ==> <EntryType as TryFromSpec<u8>>::try_from_spec(code) == Err::<
            EntryType,
            CatalogError,
        >(CatalogError::InvalidEntryType { entry_type: Some(code) }),
{
}

/// The number by which the engine knows a table.
pub type TableId = u32;

/// One record of the catalog.
#[derive(Debug, PartialEq, Eq)]
pub enum Entry {
    Catalog(CatalogEntry),
    Schema(SchemaEntry),
    Table(TableEntry),
}

/// A catalog, the outermost namespace.
#[derive(Debug, PartialEq, Eq)]
pub struct CatalogEntry {
    pub catalog_name: String,
}

/// A schema within a catalog.
#[derive(Debug, PartialEq, Eq)]
pub struct SchemaEntry {
    pub catalog_name: String,
    pub schema_name: String,
}

/// A table within a schema, with the id under which the engine opens it.
#[derive(Debug, PartialEq, Eq)]
pub struct TableEntry {
    pub catalog_name: String,
    pub schema_name: String,
    pub table_name: String,
    pub table_id: TableId,
}

/// What the value of a table row holds.
#[derive(Debug, Copy, Clone, PartialEq, Eq, Structural)]
pub struct TableEntryValue {
    pub table_id: TableId,
}

/// A [`CatalogEntry`] with its name as a sequence of characters.
pub struct CatalogEntryView {
    pub catalog_name: Seq<char>,
}

/// A [`SchemaEntry`] with its names as sequences of characters.
pub struct SchemaEntryView {
    pub catalog_name: Seq<char>,
    pub schema_name: Seq<char>,
}

/// A [`TableEntry`] with its names as sequences of characters.
pub struct TableEntryView {
    pub catalog_name: Seq<char>,
    pub schema_name: Seq<char>,
    pub table_name: Seq<char>,
    pub table_id: TableId,
}

/// An [`Entry`] with its names as sequences of characters.
pub enum EntryView {
    Catalog(CatalogEntryView),
    Schema(SchemaEntryView),
    Table(TableEntryView),
}

impl View for CatalogEntry {
    type V = CatalogEntryView;

    open spec fn view(&self) -> CatalogEntryView {
        CatalogEntryView { catalog_name: self.catalog_name@ }
    }
}

impl View for SchemaEntry {
    type V = SchemaEntryView;

    open spec fn view(&self) -> SchemaEntryView {
        SchemaEntryView { catalog_name: self.catalog_name@, schema_name: self.schema_name@ }
    }
}

impl View for TableEntry {
    type V = TableEntryView;

    open spec fn view(&self) -> TableEntryView {
        TableEntryView {
            catalog_name: self.catalog_name@,
            schema_name: self.schema_name@,
            table_name: self.table_name@,
            table_id: self.table_id,
        }
    }
}

impl View for Entry {
    type V = EntryView;

    open spec fn view(&self) -> EntryView {
        match self {
            Entry::Catalog(entry) => EntryView::Catalog(entry@),
            Entry::Schema(entry) => EntryView::Schema(entry@),
            Entry::Table(entry) => EntryView::Table(entry@),
        }
    }
}

/// The name of the one member of a table row's value.
pub const TABLE_ID_MEMBER: &'static str = "table_id";

impl TableEntryValue {
    /// The value that a member of a JSON document makes: the member has to
    /// be there and hold an unsigned integer that is a table id.
    pub open spec fn spec_from_member(found: Option<Option<u64>>) -> Option<TableEntryValue> {
        match found {
            Some(Some(n)) => if n <= u32::MAX {
                Some(TableEntryValue { table_id: n as u32 })
            } else {
                None
            },
            _ => None,
        }
    }

    /// The value that the bytes of a row's value column spell: they have
    /// to be a JSON document with a table id under `table_id`.
    pub open spec fn spec_from_json(bytes: Seq<u8>) -> Option<TableEntryValue> {
        match json_document(bytes) {
            Some(members) => Self::spec_from_member(member_of(members, TABLE_ID_MEMBER@)),
            None => None,
        }
    }

    /// The JSON text of a value: an object of one member, the id in
    /// decimal digits under `table_id`, without any space.
    pub open spec fn spec_json(self) -> Seq<u8> {
        "{\"".spec_bytes() + TABLE_ID_MEMBER.spec_bytes() + "\":".spec_bytes() + decimal_digits(
            self.table_id as nat,
        ) + "}".spec_bytes()
    }

    /// Makes the value from what a JSON document holds under `table_id`.
    pub fn from_member(found: Option<Option<u64>>) -> (r: Result<TableEntryValue, CatalogError>)
        ensures
            r == (match Self::spec_from_member(found) {
                Some(value) => Ok::<TableEntryValue, CatalogError>(value),
                None => Err::<TableEntryValue, CatalogError>(CatalogError::ValueDeserialize),
            }),
    {
        match found {
            Some(Some(n)) => {
                if n <= 0xffff_ffff {
                    Ok(TableEntryValue { table_id: n as u32 })
                } else {
                    Err(CatalogError::ValueDeserialize)
                }
            },
            _ => Err(CatalogError::ValueDeserialize),
        }
    }

    /// Reads the value column of a table row.
    pub fn from_json(bytes: &[u8]) -> (r: Result<TableEntryValue, CatalogError>)
        ensures
            r == (match Self::spec_from_json(bytes@) {
                Some(value) => Ok::<TableEntryValue, CatalogError>(value),
                None => Err::<TableEntryValue, CatalogError>(CatalogError::ValueDeserialize),
            }),
    {
        match parse(bytes) {
            Ok(document) => Self::from_member(member(&document, TABLE_ID_MEMBER)),
            Err(_) => Err(CatalogError::ValueDeserialize),
        }
    }

    /// Writes the value column of a table row.
    pub fn to_json(&self) -> (bytes: Vec<u8>)
        ensures
            bytes@ == self.spec_json(),
    {
        let mut bytes = "{\"".as_bytes_vec();
        let mut name = TABLE_ID_MEMBER.as_bytes_vec();
        bytes.append(&mut name);
        let mut colon = "\":".as_bytes_vec();
        bytes.append(&mut colon);
        push_decimal(&mut bytes, self.table_id);
        let mut close = "}".as_bytes_vec();
        bytes.append(&mut close);
        bytes
    }
}

} // verus!
