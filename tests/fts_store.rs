use fts_index::collection::Collection;
use fts_index::fts::{FtsDocument, FtsField, FtsFilter, FtsStore};
use roaring::RoaringBitmap;

fn doc(account_id: u32, collection: Collection, document_id: u32, tokens: &[(u8, &str)]) -> FtsDocument {
    FtsDocument {
        account_id,
        collection,
        document_id,
        fields: tokens.iter().map(|(f, t)| FtsField { field: *f, text: t.to_string() }).collect(),
    }
}

fn filters(tokens: &[(u8, &str)]) -> Vec<FtsFilter> {
    tokens.iter().map(|(f, t)| FtsFilter { field: *f, text: t.to_string() }).collect()
}

fn ids(values: &[u32]) -> RoaringBitmap {
    values.iter().copied().collect()
}

#[test]
fn index_then_query_then_remove() {
    let mut store = FtsStore::embedded();
    store.index(doc(1, Collection::Email, 10, &[(0, "hello"), (1, "world")])).unwrap();
    store.index(doc(1, Collection::Email, 11, &[(0, "hello")])).unwrap();
    let found = store.query(1, Collection::Email, filters(&[(0, "hello")])).unwrap();
    assert_eq!(found, ids(&[10, 11]));
    let both = store.query(1, Collection::Email, filters(&[(0, "hello"), (1, "world")])).unwrap();
    assert_eq!(both, ids(&[10]));
    store.remove(1, Collection::Email, &ids(&[10])).unwrap();
    let after = store.query(1, Collection::Email, filters(&[(0, "hello")])).unwrap();
    assert_eq!(after, ids(&[11]));
}

#[test]
fn query_is_scoped_and_empty_filters_find_nothing() {
    let mut store = FtsStore::embedded();
    store.index(doc(1, Collection::Email, 1, &[(0, "x")])).unwrap();
    store.index(doc(2, Collection::Email, 2, &[(0, "x")])).unwrap();
    store.index(doc(1, Collection::CalendarEvent, 3, &[(0, "x")])).unwrap();
    assert_eq!(store.query(1, Collection::Email, filters(&[(0, "x")])).unwrap(), ids(&[1]));
    assert!(store.query(1, Collection::Email, vec![]).unwrap().is_empty());
    assert!(store.query(1, Collection::Email, filters(&[(1, "x")])).unwrap().is_empty());
}

#[test]
fn reindex_replaces_earlier_entry() {
    let mut store = FtsStore::embedded();
    store.index(doc(1, Collection::Email, 5, &[(0, "old")])).unwrap();
    store.index(doc(1, Collection::Email, 5, &[(0, "new")])).unwrap();
    assert!(store.query(1, Collection::Email, filters(&[(0, "old")])).unwrap().is_empty());
    assert_eq!(store.query(1, Collection::Email, filters(&[(0, "new")])).unwrap(), ids(&[5]));
}

#[test]
fn remove_twice_equals_once_and_unknown_ids_are_ignored() {
    let mut store = FtsStore::embedded();
    store.index(doc(1, Collection::Email, 1, &[(0, "t")])).unwrap();
    store.index(doc(1, Collection::Email, 2, &[(0, "t")])).unwrap();
    store.remove(1, Collection::Email, &ids(&[1, 99])).unwrap();
    let once = store.query(1, Collection::Email, filters(&[(0, "t")])).unwrap();
    store.remove(1, Collection::Email, &ids(&[1, 99])).unwrap();
    let twice = store.query(1, Collection::Email, filters(&[(0, "t")])).unwrap();
    assert_eq!(once, ids(&[2]));
    assert_eq!(once, twice);
}

#[test]
fn remove_all_purges_every_collection_of_the_account() {
    let mut store = FtsStore::embedded();
    store.index(doc(7, Collection::Email, 1, &[(0, "t")])).unwrap();
    store.index(doc(7, Collection::CalendarEvent, 2, &[(0, "t")])).unwrap();
    store.index(doc(8, Collection::Email, 3, &[(0, "t")])).unwrap();
    store.remove_all(7).unwrap();
    assert!(store.query(7, Collection::Email, filters(&[(0, "t")])).unwrap().is_empty());
    assert!(store.query(7, Collection::CalendarEvent, filters(&[(0, "t")])).unwrap().is_empty());
    assert_eq!(store.query(8, Collection::Email, filters(&[(0, "t")])).unwrap(), ids(&[3]));
}

#[test]
fn account_is_reusable_after_remove_all() {
    let mut store = FtsStore::embedded();
    store.index(doc(7, Collection::Email, 1, &[(0, "before")])).unwrap();
    store.remove_all(7).unwrap();
    store.index(doc(7, Collection::Email, 1, &[(0, "after")])).unwrap();
    assert_eq!(store.query(7, Collection::Email, filters(&[(0, "after")])).unwrap(), ids(&[1]));
    assert!(store.query(7, Collection::Email, filters(&[(0, "before")])).unwrap().is_empty());
}
