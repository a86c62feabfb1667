use galleria::deletion::{DeleteProgress, DeleteSession};
use galleria::error::GalleryError;
use galleria::store::StoreReply;
use std::collections::BTreeSet;

/// Carries a deletion out against a set of keys. A store that reports missing
/// objects fails the deletion of a key it does not hold.
fn delete(store: &mut BTreeSet<String>, photo_id: &str, reports_missing: bool) -> (Vec<String>, Result<(), GalleryError>) {
    let mut session = DeleteSession::begin(photo_id);
    let mut asked = Vec::new();
    loop {
        let key = session.pending();
        let found = store.remove(&key);
        asked.push(key);
        let reply = if found || !reports_missing { StoreReply::Done } else { StoreReply::Failed };
        match session.advance(reply) {
            DeleteProgress::Continue(next) => session = next,
            DeleteProgress::Deleted => return (asked, Ok(())),
            DeleteProgress::Failed(error) => return (asked, Err(error)),
        }
    }
}

fn store_of(keys: &[&str]) -> BTreeSet<String> {
    keys.iter().map(|key| key.to_string()).collect()
}

#[test]
fn scenario_delete_succeeds_without_the_middle_tiers() {
    let mut store = store_of(&[
        "photos/abc/thumbnail.jpg",
        "photos/abc/original.jpg",
        "metadata/abc.json",
        "photos/other/thumbnail.jpg",
        "metadata/other.json",
    ]);
    let (asked, result) = delete(&mut store, "abc", true);
    assert_eq!(result, Ok(()));
    assert_eq!(
        asked,
        vec![
            "photos/abc/thumbnail.jpg",
            "photos/abc/small.jpg",
            "photos/abc/medium.jpg",
            "photos/abc/large.jpg",
            "photos/abc/original.jpg",
            "metadata/abc.json",
        ]
    );
    assert_eq!(store, store_of(&["photos/other/thumbnail.jpg", "metadata/other.json"]));
}

#[test]
fn a_second_delete_fails_only_for_the_missing_record() {
    let mut store = store_of(&["photos/abc/thumbnail.jpg", "photos/abc/original.jpg", "metadata/abc.json"]);
    assert_eq!(delete(&mut store, "abc", true).1, Ok(()));
    let (asked, second) = delete(&mut store, "abc", true);
    assert_eq!(asked.len(), 6);
    assert_eq!(second, Err(GalleryError::Store { key: "metadata/abc.json".to_string() }));
    assert!(store.is_empty());
}

#[test]
fn a_second_delete_succeeds_where_missing_objects_are_passed_over() {
    let mut store = store_of(&["photos/abc/thumbnail.jpg", "metadata/abc.json"]);
    assert_eq!(delete(&mut store, "abc", false).1, Ok(()));
    assert_eq!(delete(&mut store, "abc", false).1, Ok(()));
    assert!(store.is_empty());
}

#[test]
fn failed_derivative_deletions_are_swallowed() {
    let mut session = DeleteSession::begin("abc");
    for _ in 0..5 {
        session = match session.advance(StoreReply::Failed) {
            DeleteProgress::Continue(next) => next,
            _ => panic!("the metadata record is still to be deleted"),
        };
    }
    assert_eq!(session.pending(), "metadata/abc.json");
    assert!(matches!(session.advance(StoreReply::Done), DeleteProgress::Deleted));
}

#[test]
fn a_failed_metadata_deletion_is_a_store_error() {
    let mut session = DeleteSession::begin("abc");
    for _ in 0..5 {
        session = match session.advance(StoreReply::Done) {
            DeleteProgress::Continue(next) => next,
            _ => panic!("the metadata record is still to be deleted"),
        };
    }
    match session.advance(StoreReply::Failed) {
        DeleteProgress::Failed(error) => {
            assert_eq!(error, GalleryError::Store { key: "metadata/abc.json".to_string() })
        }
        _ => panic!("the deletion must fail"),
    }
}

#[test]
fn a_deletion_begins_with_the_thumbnail() {
    assert_eq!(DeleteSession::begin("abc").pending(), "photos/abc/thumbnail.jpg");
    assert_eq!(DeleteSession::begin("").pending(), "photos//thumbnail.jpg");
}
