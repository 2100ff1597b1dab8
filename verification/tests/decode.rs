use catalog::entry::{CatalogEntry, Entry, EntryType, SchemaEntry, TableEntry, TableEntryValue};
use catalog::error::CatalogError;
use catalog::system::{decode_entry, decode_system_catalog};

fn invalid_key(key: &str) -> CatalogError {
    CatalogError::InvalidKey {
        key: Some(key.to_string()),
    }
}

#[test]
pub fn test_decode_catalog_enrty() {
    let entry = decode_system_catalog(
        Some(EntryType::Catalog.code()),
        Some("some_catalog".as_bytes()),
        None,
    )
    .unwrap();
    if let Entry::Catalog(e) = entry {
        assert_eq!("some_catalog", e.catalog_name);
    } else {
        panic!("Unexpected type: {:?}", entry);
    }
}

#[test]
pub fn test_decode_schema_entry() {
    let entry = decode_system_catalog(
        Some(EntryType::Schema.code()),
        Some("some_catalog.some_schema".as_bytes()),
        None,
    )
    .unwrap();

    if let Entry::Schema(e) = entry {
        assert_eq!("some_catalog", e.catalog_name);
        assert_eq!("some_schema", e.schema_name);
    } else {
        panic!("Unexpected type: {:?}", entry);
    }
}

#[test]
pub fn test_decode_table() {
    let entry = decode_system_catalog(
        Some(EntryType::Table.code()),
        Some("some_catalog.some_schema.some_table".as_bytes()),
        Some("{\"table_id\":42}".as_bytes()),
    )
    .unwrap();

    if let Entry::Table(e) = entry {
        assert_eq!("some_catalog", e.catalog_name);
        assert_eq!("some_schema", e.schema_name);
        assert_eq!("some_table", e.table_name);
        assert_eq!(42, e.table_id);
    } else {
        panic!("Unexpected type: {:?}", entry);
    }
}

#[test]
#[should_panic]
pub fn test_decode_mismatch() {
    decode_system_catalog(
        Some(EntryType::Table.code()),
        Some("some_catalog.some_schema.some_table".as_bytes()),
        None,
    )
    .unwrap();
}

#[test]
fn table_row_without_value_is_an_empty_value() {
    assert_eq!(
        Err(CatalogError::EmptyValue),
        decode_system_catalog(
            Some(3),
            Some("some_catalog.some_schema.some_table".as_bytes()),
            None
        )
    );
}

#[test]
fn row_without_kind_or_key_is_an_invalid_key() {
    let absent = Err(CatalogError::InvalidKey { key: None });
    assert_eq!(absent, decode_system_catalog(None, Some(b"a"), None));
    assert_eq!(absent, decode_system_catalog(Some(1), None, None));
    assert_eq!(absent, decode_system_catalog(None, None, None));
    assert_eq!(absent, decode_system_catalog(None, None, Some(b"{}")));
    // The absent key is found before the unknown kind.
    assert_eq!(absent, decode_system_catalog(Some(4), None, None));
}

#[test]
fn unknown_kind_is_an_invalid_entry_type() {
    for code in [0u8, 4, 5, 255] {
        assert_eq!(
            Err(CatalogError::InvalidEntryType {
                entry_type: Some(code)
            }),
            decode_system_catalog(Some(code), Some(b"a.b.c"), Some(b"{\"table_id\":1}"))
        );
    }
}

#[test]
fn catalog_key_is_taken_as_it_is() {
    for key in ["", "a", "a.b", "a.b.c", ".", "with space"] {
        assert_eq!(
            Ok(Entry::Catalog(CatalogEntry {
                catalog_name: key.to_string()
            })),
            decode_system_catalog(Some(1), Some(key.as_bytes()), None)
        );
    }
}

#[test]
fn catalog_and_schema_rows_ignore_the_value() {
    assert_eq!(
        Ok(Entry::Catalog(CatalogEntry {
            catalog_name: "c".to_string()
        })),
        decode_system_catalog(Some(1), Some(b"c"), Some(b"not json"))
    );
    assert_eq!(
        Ok(Entry::Schema(SchemaEntry {
            catalog_name: "c".to_string(),
            schema_name: "s".to_string()
        })),
        decode_system_catalog(Some(2), Some(b"c.s"), Some(b"not json"))
    );
}

#[test]
fn schema_key_needs_exactly_two_parts() {
    for key in ["a.b.c", "a", "", "a.b.c.d"] {
        assert_eq!(
            Err(invalid_key(key)),
            decode_system_catalog(Some(2), Some(key.as_bytes()), None)
        );
    }
}

#[test]
fn schema_key_parts_may_be_empty() {
    assert_eq!(
        Ok(Entry::Schema(SchemaEntry {
            catalog_name: "".to_string(),
            schema_name: "".to_string()
        })),
        decode_system_catalog(Some(2), Some(b"."), None)
    );
    assert_eq!(
        Ok(Entry::Schema(SchemaEntry {
            catalog_name: "a".to_string(),
            schema_name: "".to_string()
        })),
        decode_system_catalog(Some(2), Some(b"a."), None)
    );
}

#[test]
fn table_key_needs_at_least_three_parts() {
    for key in ["a.b", "a", ""] {
        assert_eq!(
            Err(invalid_key(key)),
            decode_system_catalog(Some(3), Some(key.as_bytes()), Some(b"{\"table_id\":1}"))
        );
        // The key is looked at before the value.
        assert_eq!(
            Err(invalid_key(key)),
            decode_system_catalog(Some(3), Some(key.as_bytes()), None)
        );
        assert_eq!(
            Err(invalid_key(key)),
            decode_system_catalog(Some(3), Some(key.as_bytes()), Some(b"not json"))
        );
    }
}

#[test]
fn table_name_ends_at_the_third_dot() {
    assert_eq!(
        Ok(Entry::Table(TableEntry {
            catalog_name: "cat".to_string(),
            schema_name: "sch".to_string(),
            table_name: "my".to_string(),
            table_id: 9
        })),
        decode_system_catalog(Some(3), Some(b"cat.sch.my.table"), Some(b"{\"table_id\":9}"))
    );
}

#[test]
fn table_value_that_is_no_table_id_fails_to_deserialize() {
    let values: [&[u8]; 12] = [
        b"",
        b"not json",
        b"{",
        b"{}",
        b"{\"table_id\":-1}",
        b"{\"table_id\":1.5}",
        b"{\"table_id\":\"42\"}",
        b"{\"table_id\":null}",
        b"{\"table_id\":4294967296}",
        b"{\"id\":42}",
        b"42",
        b"{\"table_id\":42} trailing",
    ];
    for value in values {
        assert_eq!(
            Err(CatalogError::ValueDeserialize),
            decode_system_catalog(Some(3), Some(b"a.b.c"), Some(value))
        );
    }
}

#[test]
fn table_value_is_read_as_json() {
    let values: [(&[u8], u32); 5] = [
        (b"{\"table_id\":0}", 0),
        (b"{\"table_id\":4294967295}", 4294967295),
        (b" { \"table_id\" : 1024 } ", 1024),
        (b"{\"table_id\":7,\"comment\":\"kept for later\"}", 7),
        (b"{\"other\":[1,2],\"table_id\":8}", 8),
    ];
    for (value, table_id) in values {
        assert_eq!(
            Ok(Entry::Table(TableEntry {
                catalog_name: "a".to_string(),
                schema_name: "b".to_string(),
                table_name: "c".to_string(),
                table_id
            })),
            decode_system_catalog(Some(3), Some(b"a.b.c"), Some(value))
        );
    }
}

#[test]
fn key_that_is_not_utf8_is_repaired() {
    assert_eq!(
        Ok(Entry::Catalog(CatalogEntry {
            catalog_name: "cat\u{fffd}alog".to_string()
        })),
        decode_system_catalog(Some(1), Some(b"cat\xffalog"), None)
    );
    assert_eq!(
        Ok(Entry::Schema(SchemaEntry {
            catalog_name: "\u{fffd}".to_string(),
            schema_name: "s".to_string()
        })),
        decode_system_catalog(Some(2), Some(b"\xe2\x82.s"), None)
    );
    assert_eq!(
        Err(invalid_key("\u{fffd}")),
        decode_system_catalog(Some(2), Some(b"\xc0"), None)
    );
}

#[test]
fn key_of_other_scripts_is_kept() {
    assert_eq!(
        Ok(Entry::Schema(SchemaEntry {
            catalog_name: "каталог".to_string(),
            schema_name: "схема€".to_string()
        })),
        decode_system_catalog(Some(2), Some("каталог.схема€".as_bytes()), None)
    );
}

#[test]
fn entry_is_decoded_from_what_was_read() {
    assert_eq!(
        Ok(Entry::Table(TableEntry {
            catalog_name: "a".to_string(),
            schema_name: "b".to_string(),
            table_name: "c".to_string(),
            table_id: 42
        })),
        decode_entry(
            EntryType::Table,
            "a.b.c".to_string(),
            Some(Ok(TableEntryValue { table_id: 42 }))
        )
    );
    assert_eq!(
        Err(CatalogError::ValueDeserialize),
        decode_entry(
            EntryType::Table,
            "a.b.c".to_string(),
            Some(Err(CatalogError::ValueDeserialize))
        )
    );
    assert_eq!(
        Err(CatalogError::EmptyValue),
        decode_entry(EntryType::Table, "a.b.c".to_string(), None)
    );
    assert_eq!(
        Err(invalid_key("a.b")),
        decode_entry(
            EntryType::Table,
            "a.b".to_string(),
            Some(Ok(TableEntryValue { table_id: 42 }))
        )
    );
    assert_eq!(
        Ok(Entry::Schema(SchemaEntry {
            catalog_name: "a".to_string(),
            schema_name: "b".to_string()
        })),
        decode_entry(EntryType::Schema, "a.b".to_string(), None)
    );
}
