use node_identifier::host::HostId;
use node_identifier::mapping::{AssetIdMapping, Direction, ResolvedAssetId};
use node_identifier::memory::MemoryStore;
use node_identifier::store::{
    decode_reply, lookup, number_attribute, put_request, MappingQuery, MappingStore, PutRequest, Row, Step,
    StoreError,
};

#[test]
fn pseudo_key_is_kind_then_value() {
    assert_eq!(
        HostId::Hostname("fakehostname".to_owned()).pseudo_key(),
        Some("hostnamefakehostname".to_owned())
    );
    assert_eq!(HostId::Ip("1.2.3.4".to_owned()).pseudo_key(), Some("ip1.2.3.4".to_owned()));
    assert_eq!(HostId::Hostname(String::new()).pseudo_key(), Some("hostname".to_owned()));
    assert_eq!(HostId::AssetId("a".to_owned()).pseudo_key(), None);
}

#[test]
fn host_id_prefers_asset_id_then_hostname_then_ip() {
    let a = || Some("a".to_owned());
    let h = || Some("h".to_owned());
    let i = || Some("i".to_owned());
    assert_eq!(HostId::from_fields(a(), h(), i()), Some(HostId::AssetId("a".to_owned())));
    assert_eq!(HostId::from_fields(a(), None, None), Some(HostId::AssetId("a".to_owned())));
    assert_eq!(HostId::from_fields(None, h(), i()), Some(HostId::Hostname("h".to_owned())));
    assert_eq!(HostId::from_fields(None, None, i()), Some(HostId::Ip("i".to_owned())));
    assert_eq!(HostId::from_fields(None, None, None), None);
}

#[test]
fn first_after_query_shape() {
    let q = lookup(&HostId::Hostname("web".to_owned()), 42, Direction::FirstAfter);
    assert_eq!(
        q,
        Step::Ask(MappingQuery {
            table_name: "asset_id_mappings".to_owned(),
            key_condition_expression: "pseudo_key = :pkey_val AND c_timestamp >= :c_timestamp"
                .to_owned(),
            key_placeholder: ":pkey_val".to_owned(),
            pseudo_key: "hostnameweb".to_owned(),
            timestamp_placeholder: ":c_timestamp".to_owned(),
            c_timestamp: 42,
            timestamp_number: "42".to_owned(),
            consistent_read: true,
            limit: 1,
            scan_index_forward: None,
            direction: Direction::FirstAfter,
        })
    );
}

#[test]
fn last_before_query_shape() {
    let q = lookup(&HostId::Ip("10.0.0.1".to_owned()), 7, Direction::LastBefore);
    assert_eq!(
        q,
        Step::Ask(MappingQuery {
            table_name: "asset_id_mappings".to_owned(),
            key_condition_expression: "pseudo_key = :pseudo_key AND c_timestamp <= :c_timestamp"
                .to_owned(),
            key_placeholder: ":pseudo_key".to_owned(),
            pseudo_key: "ip10.0.0.1".to_owned(),
            timestamp_placeholder: ":c_timestamp".to_owned(),
            c_timestamp: 7,
            timestamp_number: "7".to_owned(),
            consistent_read: true,
            limit: 1,
            scan_index_forward: Some(false),
            direction: Direction::LastBefore,
        })
    );
}

#[test]
fn lookup_of_an_asset_id_asks_nothing() {
    let id = HostId::AssetId("asset-9".to_owned());
    assert_eq!(lookup(&id, 1, Direction::FirstAfter), Step::Done(Ok(Some("asset-9".to_owned()))));
    assert_eq!(lookup(&id, 1, Direction::LastBefore), Step::Done(Ok(Some("asset-9".to_owned()))));
}

#[test]
fn put_request_shape() {
    assert_eq!(
        put_request(&HostId::Hostname("fakehostname".to_owned()), "asset_id_a".to_owned(), 1500),
        Some(PutRequest {
            table_name: "asset_id_mappings".to_owned(),
            item: AssetIdMapping {
                pseudo_key: "hostnamefakehostname".to_owned(),
                asset_id: "asset_id_a".to_owned(),
                c_timestamp: 1500,
            },
        })
    );
    assert_eq!(put_request(&HostId::AssetId("x".to_owned()), "y".to_owned(), 1), None);
}

fn decoded(s: &str) -> Row {
    Row::Decoded(ResolvedAssetId { asset_id: s.to_owned() })
}

#[test]
fn decode_reply_cases() {
    assert_eq!(decode_reply(None), Ok(None));
    assert_eq!(decode_reply(Some(vec![])), Ok(None));
    assert_eq!(decode_reply(Some(vec![decoded("a")])), Ok(Some("a".to_owned())));
    assert_eq!(
        decode_reply(Some(vec![Row::Malformed("missing field".to_owned())])),
        Err(StoreError::Malformed("missing field".to_owned()))
    );
    assert_eq!(
        decode_reply(Some(vec![decoded("a"), decoded("b")])),
        Err(StoreError::UnexpectedItemCount)
    );
    assert_eq!(
        decode_reply(Some(vec![Row::Malformed("x".to_owned()), decoded("b"), decoded("c")])),
        Err(StoreError::UnexpectedItemCount)
    );
}

#[test]
fn store_error_messages() {
    assert_eq!(StoreError::UnexpectedItemCount.message(), "Unexpected number of items returned");
    assert_eq!(StoreError::Transport("timed out".to_owned()).message(), "timed out");
    assert_eq!(StoreError::Malformed("missing field".to_owned()).message(), "missing field");
}

fn ask(key: &str, ts: u64, dir: Direction, limit: u64) -> MappingQuery {
    MappingQuery {
        table_name: "asset_id_mappings".to_owned(),
        key_condition_expression: String::new(),
        key_placeholder: String::new(),
        pseudo_key: key.to_owned(),
        timestamp_placeholder: String::new(),
        c_timestamp: ts,
        timestamp_number: number_attribute(ts),
        consistent_read: true,
        limit,
        scan_index_forward: None,
        direction: dir,
    }
}

fn put(store: &mut MemoryStore, key: &str, asset: &str, ts: u64) {
    store
        .put_item(PutRequest {
            table_name: "asset_id_mappings".to_owned(),
            item: AssetIdMapping {
                pseudo_key: key.to_owned(),
                asset_id: asset.to_owned(),
                c_timestamp: ts,
            },
        })
        .unwrap();
}

#[test]
fn memory_store_answers_with_the_nearest_mapping() {
    let mut store = MemoryStore::new();
    assert_eq!(store.query(&ask("k", 5, Direction::LastBefore, 1)), Ok(Some(vec![])));
    put(&mut store, "k", "a", 10);
    put(&mut store, "k", "b", 30);
    put(&mut store, "other", "c", 20);
    assert_eq!(store.len(), 3);
    assert_eq!(store.nearest(&"k".to_owned(), 20, Direction::LastBefore), Some(0));
    assert_eq!(store.nearest(&"k".to_owned(), 20, Direction::FirstAfter), Some(1));
    assert_eq!(store.nearest(&"k".to_owned(), 31, Direction::FirstAfter), None);
    assert_eq!(
        store.query(&ask("k", 20, Direction::LastBefore, 1)),
        Ok(Some(vec![decoded("a")]))
    );
    assert_eq!(
        store.query(&ask("k", 20, Direction::FirstAfter, 1)),
        Ok(Some(vec![decoded("b")]))
    );
    assert_eq!(
        store.query(&ask("other", 20, Direction::FirstAfter, 1)),
        Ok(Some(vec![decoded("c")]))
    );
    assert_eq!(store.query(&ask("k", 9, Direction::LastBefore, 1)), Ok(Some(vec![])));
    assert_eq!(store.query(&ask("k", 20, Direction::FirstAfter, 0)), Ok(Some(vec![])));
}

#[test]
fn number_attribute_is_decimal() {
    assert_eq!(number_attribute(0), "0");
    assert_eq!(number_attribute(9), "9");
    assert_eq!(number_attribute(10), "10");
    assert_eq!(number_attribute(1500), "1500");
    assert_eq!(number_attribute(1234567890), "1234567890");
    assert_eq!(number_attribute(u64::MAX), "18446744073709551615");
    assert_eq!(number_attribute(u64::MAX), u64::MAX.to_string());
}

#[test]
fn memory_store_prefers_the_first_written_among_equal_timestamps() {
    let mut store = MemoryStore::new();
    put(&mut store, "k", "first", 10);
    put(&mut store, "k", "second", 10);
    put(&mut store, "k", "far", 3);
    assert_eq!(store.nearest(&"k".to_owned(), 10, Direction::LastBefore), Some(0));
    assert_eq!(store.nearest(&"k".to_owned(), 10, Direction::FirstAfter), Some(0));
    assert_eq!(store.nearest(&"k".to_owned(), 4, Direction::LastBefore), Some(2));
    assert_eq!(
        store.query(&ask("k", 12, Direction::LastBefore, 1)),
        Ok(Some(vec![decoded("first")]))
    );
}
