use catalog::entry::{Entry, TableEntry, TableEntryValue};
use catalog::error::CatalogError;
use catalog::json::push_decimal;
use catalog::system::{build_table_insert_request, decode_system_catalog};

#[test]
fn insert_request_records_a_table() {
    let request = build_table_insert_request("cat.sch.tbl".to_string(), 7, 1_660_000_000_123);
    assert_eq!("system_catalog", request.table_name);
    assert_eq!(3, request.row.entry_type);
    assert_eq!(b"cat.sch.tbl".to_vec(), request.row.key);
    assert_eq!(0, request.row.timestamp);
    assert_eq!(b"{\"table_id\":7}".to_vec(), request.row.value);
    assert_eq!(1_660_000_000_123, request.row.gmt_created);
    assert_eq!(request.row.gmt_created, request.row.gmt_modified);
}

#[test]
fn inserted_row_decodes_to_the_table() {
    for (name, table_id) in [("cat.sch.tbl", 7u32), ("a.b.c", 0), ("x.y.z", u32::MAX)] {
        let request = build_table_insert_request(name.to_string(), table_id, -5);
        let names: Vec<&str> = name.split('.').collect();
        assert_eq!(
            Ok(Entry::Table(TableEntry {
                catalog_name: names[0].to_string(),
                schema_name: names[1].to_string(),
                table_name: names[2].to_string(),
                table_id
            })),
            decode_system_catalog(
                Some(request.row.entry_type),
                Some(&request.row.key),
                Some(&request.row.value)
            )
        );
    }
}

#[test]
fn table_value_is_written_as_json() {
    assert_eq!(
        b"{\"table_id\":0}".to_vec(),
        TableEntryValue { table_id: 0 }.to_json()
    );
    assert_eq!(
        b"{\"table_id\":42}".to_vec(),
        TableEntryValue { table_id: 42 }.to_json()
    );
    assert_eq!(
        b"{\"table_id\":1024}".to_vec(),
        TableEntryValue { table_id: 1024 }.to_json()
    );
    assert_eq!(
        b"{\"table_id\":4294967295}".to_vec(),
        TableEntryValue {
            table_id: u32::MAX
        }
        .to_json()
    );
}

#[test]
fn table_value_is_written_as_serde_json_writes_it() {
    for table_id in [0u32, 1, 9, 10, 99, 100, 65535, 65536, u32::MAX] {
        let mut object = serde_json::Map::new();
        object.insert("table_id".to_string(), serde_json::Value::from(table_id));
        assert_eq!(
            serde_json::to_vec(&serde_json::Value::Object(object)).unwrap(),
            TableEntryValue { table_id }.to_json()
        );
    }
}

#[test]
fn table_value_is_read_back() {
    for table_id in [0u32, 1, 9, 10, 11, 99, 100, 101, 4096, 1_000_000, u32::MAX - 1, u32::MAX] {
        let value = TableEntryValue { table_id };
        assert_eq!(Ok(value), TableEntryValue::from_json(&value.to_json()));
    }
}

#[test]
fn table_value_is_made_from_a_member() {
    assert_eq!(
        Ok(TableEntryValue { table_id: 42 }),
        TableEntryValue::from_member(Some(Some(42)))
    );
    assert_eq!(
        Ok(TableEntryValue {
            table_id: u32::MAX
        }),
        TableEntryValue::from_member(Some(Some(4294967295)))
    );
    assert_eq!(
        Err(CatalogError::ValueDeserialize),
        TableEntryValue::from_member(Some(Some(4294967296)))
    );
    assert_eq!(
        Err(CatalogError::ValueDeserialize),
        TableEntryValue::from_member(Some(None))
    );
    assert_eq!(
        Err(CatalogError::ValueDeserialize),
        TableEntryValue::from_member(None)
    );
}

#[test]
fn numbers_are_written_in_decimal() {
    for (n, digits) in [
        (0u32, "0"),
        (7, "7"),
        (10, "10"),
        (409, "409"),
        (1000, "1000"),
        (u32::MAX, "4294967295"),
    ] {
        let mut out = b"n=".to_vec();
        push_decimal(&mut out, n);
        assert_eq!(format!("n={}", digits).into_bytes(), out);
    }
}
