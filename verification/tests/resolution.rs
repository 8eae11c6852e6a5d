use node_identifier::db::AssetIdDb;
use node_identifier::host::HostId;
use node_identifier::memory::MemoryStore;

fn hostname(s: &str) -> HostId {
    HostId::Hostname(s.to_owned())
}

fn ip(s: &str) -> HostId {
    HostId::Ip(s.to_owned())
}

// Given a hostname 'H' to asset id 'A' mapping at c_timestamp 'X'
// When attributing 'H' at c_timestamp 'Y', where 'Y' > 'X'
// Then we should retrieve asset id 'A'
#[test]
fn map_hostname_to_asset_id() {
    let mut asset_id_db = AssetIdDb::new(MemoryStore::new());

    asset_id_db
        .create_mapping(
            &HostId::Hostname("fakehostname".to_owned()),
            "asset_id_a".into(),
            1500,
        )
        .expect("Mapping creation failed");

    let mapping = asset_id_db
        .resolve_asset_id(&HostId::Hostname("fakehostname".to_owned()), 1510)
        .expect("Failed to resolve asset id mapping")
        .expect("Failed to resolve asset id mapping");

    assert_eq!(mapping, "asset_id_a");
}

#[test]
fn prior_mapping_resolves_for_ip() {
    let mut db = AssetIdDb::new(MemoryStore::new());
    db.create_mapping(&ip("10.0.0.7"), "asset-7".to_owned(), 100).unwrap();
    assert_eq!(db.resolve_asset_id(&ip("10.0.0.7"), 101).unwrap(), Some("asset-7".to_owned()));
    assert_eq!(
        db.resolve_asset_id(&ip("10.0.0.7"), u64::MAX).unwrap(),
        Some("asset-7".to_owned())
    );
}

#[test]
fn resolves_at_the_mapping_timestamp_itself() {
    let mut db = AssetIdDb::new(MemoryStore::new());
    db.create_mapping(&hostname("h"), "a".to_owned(), 0).unwrap();
    assert_eq!(db.resolve_asset_id(&hostname("h"), 0).unwrap(), Some("a".to_owned()));
}

#[test]
fn falls_forward_when_nothing_is_on_record_before() {
    let mut db = AssetIdDb::new(MemoryStore::new());
    db.create_mapping(&hostname("h"), "late".to_owned(), 900).unwrap();
    db.create_mapping(&hostname("h"), "first".to_owned(), 500).unwrap();
    assert_eq!(db.find_last_mapping_before(&hostname("h"), 100).unwrap(), None);
    assert_eq!(
        db.find_first_mapping_after(&hostname("h"), 100).unwrap(),
        Some("first".to_owned())
    );
    assert_eq!(db.resolve_asset_id(&hostname("h"), 100).unwrap(), Some("first".to_owned()));
}

#[test]
fn prior_mapping_is_preferred_over_a_nearer_later_one() {
    let mut db = AssetIdDb::new(MemoryStore::new());
    db.create_mapping(&hostname("h"), "old".to_owned(), 10).unwrap();
    db.create_mapping(&hostname("h"), "new".to_owned(), 1000).unwrap();
    assert_eq!(db.resolve_asset_id(&hostname("h"), 999).unwrap(), Some("old".to_owned()));
}

#[test]
fn later_mapping_takes_over_at_its_timestamp() {
    let mut db = AssetIdDb::new(MemoryStore::new());
    db.create_mapping(&hostname("h"), "A1".to_owned(), 100).unwrap();
    db.create_mapping(&hostname("h"), "A2".to_owned(), 200).unwrap();
    assert_eq!(db.resolve_asset_id(&hostname("h"), 200).unwrap(), Some("A2".to_owned()));
    assert_eq!(db.resolve_asset_id(&hostname("h"), 100).unwrap(), Some("A1".to_owned()));
    assert_eq!(db.resolve_asset_id(&hostname("h"), 150).unwrap(), Some("A1".to_owned()));
    assert_eq!(db.resolve_asset_id(&hostname("h"), 199).unwrap(), Some("A1".to_owned()));
    assert_eq!(db.resolve_asset_id(&hostname("h"), 201).unwrap(), Some("A2".to_owned()));
}

#[test]
fn find_last_before_takes_the_latest_and_find_first_after_the_earliest() {
    let mut db = AssetIdDb::new(MemoryStore::new());
    db.create_mapping(&hostname("h"), "b".to_owned(), 20).unwrap();
    db.create_mapping(&hostname("h"), "a".to_owned(), 10).unwrap();
    db.create_mapping(&hostname("h"), "c".to_owned(), 30).unwrap();
    assert_eq!(db.find_last_mapping_before(&hostname("h"), 25).unwrap(), Some("b".to_owned()));
    assert_eq!(db.find_last_mapping_before(&hostname("h"), 20).unwrap(), Some("b".to_owned()));
    assert_eq!(db.find_last_mapping_before(&hostname("h"), 9).unwrap(), None);
    assert_eq!(db.find_first_mapping_after(&hostname("h"), 11).unwrap(), Some("b".to_owned()));
    assert_eq!(db.find_first_mapping_after(&hostname("h"), 30).unwrap(), Some("c".to_owned()));
    assert_eq!(db.find_first_mapping_after(&hostname("h"), 31).unwrap(), None);
}

#[test]
fn asset_id_resolves_to_itself_without_any_mapping() {
    let db = AssetIdDb::new(MemoryStore::new());
    let id = HostId::AssetId("asset-1".to_owned());
    assert_eq!(db.resolve_asset_id(&id, 0).unwrap(), Some("asset-1".to_owned()));
    assert_eq!(db.resolve_asset_id(&id, u64::MAX).unwrap(), Some("asset-1".to_owned()));
    assert_eq!(db.find_first_mapping_after(&id, 5).unwrap(), Some("asset-1".to_owned()));
    assert_eq!(db.find_last_mapping_before(&id, 5).unwrap(), Some("asset-1".to_owned()));
}

#[test]
fn create_mapping_for_an_asset_id_writes_nothing() {
    let mut db = AssetIdDb::new(MemoryStore::new());
    let id = HostId::AssetId("asset-1".to_owned());
    assert_eq!(db.create_mapping(&id, "other".to_owned(), 7), Ok(()));
    assert_eq!(db.store().len(), 0);
    db.create_mapping(&hostname("h"), "a".to_owned(), 7).unwrap();
    assert_eq!(db.store().len(), 1);
}

#[test]
fn create_mapping_keeps_duplicates() {
    let mut db = AssetIdDb::new(MemoryStore::new());
    db.create_mapping(&hostname("h"), "a".to_owned(), 7).unwrap();
    db.create_mapping(&hostname("h"), "a".to_owned(), 7).unwrap();
    assert_eq!(db.store().len(), 2);
}

#[test]
fn unknown_host_does_not_resolve() {
    let mut db = AssetIdDb::new(MemoryStore::new());
    db.create_mapping(&hostname("other"), "a".to_owned(), 7).unwrap();
    assert_eq!(db.resolve_asset_id(&hostname("h"), 7).unwrap(), None);
}

#[test]
fn hostname_and_ip_with_one_value_are_kept_apart() {
    let mut db = AssetIdDb::new(MemoryStore::new());
    db.create_mapping(&hostname("10.1.1.1"), "by-name".to_owned(), 5).unwrap();
    db.create_mapping(&ip("10.1.1.1"), "by-ip".to_owned(), 5).unwrap();
    assert_eq!(db.resolve_asset_id(&hostname("10.1.1.1"), 6).unwrap(), Some("by-name".to_owned()));
    assert_eq!(db.resolve_asset_id(&ip("10.1.1.1"), 6).unwrap(), Some("by-ip".to_owned()));
    assert_eq!(db.resolve_asset_id(&ip("name10.1.1.1"), 6).unwrap(), None);
}
