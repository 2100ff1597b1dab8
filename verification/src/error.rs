//! The failures of the system catalog table.

use vstd::prelude::*;

verus! {

/// What can go wrong while the catalog table is opened or one of its rows
/// is read.
#[derive(Debug, PartialEq, Eq)]
pub enum CatalogError {
    /// The engine failed while opening the catalog table; `source` is the
    /// engine's own account of it.
    OpenSystemCatalog { source: String },
    /// The engine failed while creating the catalog table.
    CreateSystemCatalog { source: String },
    /// The key of a row is absent (`None`) or does not have the form that
    /// the row's kind asks for (the offending key).
    InvalidKey { key: Option<String> },
    /// The kind of a row is not one of the known codes.
    InvalidEntryType { entry_type: Option<u8> },
    /// A table row carries no value.
    EmptyValue,
    /// The value of a table row is not a JSON object with a table id.
    ValueDeserialize,
}

/// A [`CatalogError`] with its texts as sequences of characters.
pub enum ErrorView {
    OpenSystemCatalog { source: Seq<char> },
    CreateSystemCatalog { source: Seq<char> },
    InvalidKey { key: Option<Seq<char>> },
    InvalidEntryType { entry_type: Option<u8> },
    EmptyValue,
    ValueDeserialize,
}

impl View for CatalogError {
    type V = ErrorView;

    open spec fn view(&self) -> ErrorView {
        match self {
            CatalogError::OpenSystemCatalog { source } => ErrorView::OpenSystemCatalog { source: source@ },
            CatalogError::CreateSystemCatalog { source } => ErrorView::CreateSystemCatalog {
                source: source@,
            },
            CatalogError::InvalidKey { key } => ErrorView::InvalidKey {
                key: match key {
                    Some(k) => Some(k@),
                    None => None,
                },
            },
            CatalogError::InvalidEntryType { entry_type } => ErrorView::InvalidEntryType {
                entry_type: *entry_type,
            },
            CatalogError::EmptyValue => ErrorView::EmptyValue,
            CatalogError::ValueDeserialize => ErrorView::ValueDeserialize,
        }
    }
}

} // verus!
