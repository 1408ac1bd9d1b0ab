use tailburrow::dedup::{DedupIndex, Duplicate, IndexEntry};
use tailburrow::model::SourceKind;

fn entry(source: SourceKind, id: &str, hash: &str) -> IndexEntry {
    IndexEntry { source, source_id: id.to_string(), content_hash: Some(hash.to_string()), trashed: false }
}

fn trashed(source: SourceKind, id: &str, hash: &str) -> IndexEntry {
    IndexEntry { source, source_id: id.to_string(), content_hash: Some(hash.to_string()), trashed: true }
}

#[test]
fn items_in_the_trash_do_not_count_as_there() {
    let mut index = DedupIndex::new();
    assert_eq!(index.insert(trashed(SourceKind::E621, "1", "h1")), Ok(()));
    assert_eq!(index.len(), 1);
    assert!(!index.has_identity(SourceKind::E621, "1"));
    assert!(!index.has_hash("h1"));
    assert_eq!(index.insert(entry(SourceKind::E621, "1", "h1")), Ok(()));
    assert!(index.has_identity(SourceKind::E621, "1"));
    assert!(index.has_hash("h1"));
    assert_eq!(index.insert(trashed(SourceKind::E621, "1", "h1")), Ok(()));
    assert_eq!(index.len(), 3);
    assert_eq!(index.insert(entry(SourceKind::E621, "1", "zz")), Err(Duplicate::Identity));
    assert_eq!(index.insert(entry(SourceKind::E621, "2", "h1")), Err(Duplicate::Hash));
}

#[test]
fn empty_index_holds_nothing() {
    let index = DedupIndex::new();
    assert_eq!(index.len(), 0);
    assert!(!index.has_identity(SourceKind::E621, "1"));
    assert!(!index.has_hash("h"));
}

#[test]
fn insert_then_find_by_identity_and_hash() {
    let mut index = DedupIndex::new();
    assert_eq!(index.insert(entry(SourceKind::E621, "1", "h1")), Ok(()));
    assert_eq!(index.insert(entry(SourceKind::FurAffinity, "1", "h2")), Ok(()));
    assert_eq!(index.len(), 2);
    assert!(index.has_identity(SourceKind::E621, "1"));
    assert!(index.has_identity(SourceKind::FurAffinity, "1"));
    assert!(!index.has_identity(SourceKind::E621, "2"));
    assert!(index.has_hash("h1"));
    assert!(index.has_hash("h2"));
    assert!(!index.has_hash("h3"));
}

#[test]
fn insert_refuses_a_shared_identity() {
    let mut index = DedupIndex::new();
    assert_eq!(index.insert(entry(SourceKind::E621, "1", "h1")), Ok(()));
    assert_eq!(index.insert(entry(SourceKind::E621, "1", "other")), Err(Duplicate::Identity));
    assert_eq!(index.insert(entry(SourceKind::E621, "1", "h1")), Err(Duplicate::Identity));
    assert_eq!(index.len(), 1);
    assert!(!index.has_hash("other"));
}

#[test]
fn insert_refuses_a_shared_hash() {
    let mut index = DedupIndex::new();
    assert_eq!(index.insert(entry(SourceKind::E621, "1", "h1")), Ok(()));
    assert_eq!(index.insert(entry(SourceKind::FurAffinity, "7", "h1")), Err(Duplicate::Hash));
    assert_eq!(index.len(), 1);
    assert!(!index.has_identity(SourceKind::FurAffinity, "7"));
}

#[test]
fn items_without_a_recorded_hash_share_none() {
    let mut index = DedupIndex::new();
    let bare = |id: &str| IndexEntry {
        source: SourceKind::E621,
        source_id: id.to_string(),
        content_hash: None,
        trashed: false,
    };
    assert_eq!(index.insert(bare("1")), Ok(()));
    assert_eq!(index.insert(bare("2")), Ok(()));
    assert_eq!(index.insert(bare("1")), Err(Duplicate::Identity));
    assert_eq!(index.len(), 2);
    assert!(index.has_identity(SourceKind::E621, "2"));
    assert!(!index.has_hash(""));
    assert_eq!(index.insert(entry(SourceKind::E621, "3", "h3")), Ok(()));
    assert!(index.has_hash("h3"));
}
