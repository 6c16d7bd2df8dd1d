use rivet_head_api::domain::diary_record::{DiaryRecord, Patch};
use rivet_head_api::errors::{ApiError, Failure};
use rivet_head_api::statement::Statement;
use rivet_head_api::store::DiaryStore;

fn text(value: &str) -> String {
    value.to_string()
}

fn sample(id: u128, created_at: i64) -> DiaryRecord {
    DiaryRecord {
        id,
        created_at,
        updated_at: None,
        band: text("Metallica"),
        album: text("RideTheLightning"),
        thoughts: text("Great"),
    }
}

fn store_with(ids: &[u128]) -> DiaryStore {
    let mut store = DiaryStore::new();
    for id in ids {
        store
            .create_with(*id, 1_000, text("Metallica"), text("RideTheLightning"), text("Great"))
            .unwrap();
    }
    store
}

#[test]
fn a_new_store_is_empty() {
    let store = DiaryStore::new();
    assert_eq!(store.len(), 0);
    assert_eq!(store.list_all(), Vec::<DiaryRecord>::new());
    assert!(!store.contains(1));
    assert_eq!(store.get(1), None);
}

#[test]
fn create_returns_the_entry_with_its_stamp_and_no_update() {
    let mut store = DiaryStore::new();
    let record = store
        .create_with(7, 1_700_000_000_000_000, text("Metallica"), text("RideTheLightning"), text("Great"))
        .unwrap();
    assert_eq!(record, sample(7, 1_700_000_000_000_000));
    assert_eq!(record.updated_at, None);
    assert_eq!(store.len(), 1);
    assert!(store.contains(7));
    assert_eq!(store.get(7), Some(sample(7, 1_700_000_000_000_000)));
}

#[test]
fn round_trip_of_one_entry() {
    let mut store = DiaryStore::new();
    let created = store.create(text("Metallica"), text("RideTheLightning"), text("Great")).unwrap();
    let listed = store.list_all();
    assert_eq!(listed.len(), 1);
    assert_eq!(listed[0].band, "Metallica");
    assert_eq!(listed[0].album, "RideTheLightning");
    assert_eq!(listed[0].thoughts, "Great");
    assert_eq!(listed[0].id, created.id);
    assert_ne!(listed[0].id, 0);
    assert!(listed[0].created_at > 0);
    assert_eq!(listed[0].updated_at, None);
}

#[test]
fn created_entries_carry_a_random_uuid() {
    let mut store = DiaryStore::new();
    let record = store.create(text("a"), text("b"), text("c")).unwrap();
    let version = (record.id >> 76) & 0xf;
    let variant = (record.id >> 62) & 0x3;
    assert_eq!(version, 4);
    assert_eq!(variant, 2);
}

#[test]
fn the_clock_of_a_created_entry_is_the_present() {
    let mut store = DiaryStore::new();
    let record = store.create(text("a"), text("b"), text("c")).unwrap();
    // later than 2020-01-01 and earlier than 2200-01-01, in microseconds
    assert!(record.created_at > 1_577_836_800_000_000);
    assert!(record.created_at < 7_258_118_400_000_000);
}

#[test]
fn many_creates_never_share_an_identifier() {
    let mut store = DiaryStore::new();
    for _ in 0..200 {
        store.create(text("a"), text("b"), text("c")).unwrap();
    }
    let listed = store.list_all();
    assert_eq!(listed.len(), 200);
    for i in 0..listed.len() {
        for j in (i + 1)..listed.len() {
            assert_ne!(listed[i].id, listed[j].id);
        }
    }
}

#[test]
fn a_taken_identifier_is_refused_and_nothing_is_written() {
    let mut store = store_with(&[1, 2]);
    let before = store.list_all();
    let outcome = store.create_with(2, 5_000, text("x"), text("y"), text("z"));
    assert_eq!(outcome, Err(ApiError::PersistenceError(Failure::DuplicateId)));
    assert_eq!(store.list_all(), before);
}

#[test]
fn list_all_keeps_the_order_of_creation() {
    let store = store_with(&[3, 1, 2]);
    let ids: Vec<u128> = store.list_all().iter().map(|record| record.id).collect();
    assert_eq!(ids, vec![3, 1, 2]);
}

#[test]
fn update_album_changes_the_album_and_the_stamp_only() {
    let mut store = store_with(&[1, 2, 3]);
    assert_eq!(store.update_field_at(2, Patch::Album(text("MasterOfPuppets")), 2_000), Ok(()));
    let listed = store.list_all();
    assert_eq!(listed[0], sample(1, 1_000));
    assert_eq!(listed[2], sample(3, 1_000));
    assert_eq!(
        listed[1],
        DiaryRecord {
            id: 2,
            created_at: 1_000,
            updated_at: Some(2_000),
            band: text("Metallica"),
            album: text("MasterOfPuppets"),
            thoughts: text("Great"),
        }
    );
}

#[test]
fn update_thoughts_changes_the_thoughts_and_the_stamp_only() {
    let mut store = store_with(&[1]);
    assert_eq!(store.update_field_at(1, Patch::Thoughts(text("Classic")), 1_000), Ok(()));
    assert_eq!(
        store.list_all(),
        vec![DiaryRecord {
            id: 1,
            created_at: 1_000,
            updated_at: Some(1_000),
            band: text("Metallica"),
            album: text("RideTheLightning"),
            thoughts: text("Classic"),
        }]
    );
}

#[test]
fn a_second_update_overwrites_the_stamp() {
    let mut store = store_with(&[1]);
    store.update_field_at(1, Patch::Album(text("A")), 2_000).unwrap();
    store.update_field_at(1, Patch::Thoughts(text("B")), 3_000).unwrap();
    let record = store.get(1).unwrap();
    assert_eq!(record.updated_at, Some(3_000));
    assert_eq!(record.album, "A");
    assert_eq!(record.thoughts, "B");
    assert_eq!(record.created_at, 1_000);
}

#[test]
fn update_of_a_missing_entry_is_not_found_and_changes_nothing() {
    let mut store = store_with(&[1, 2]);
    let before = store.list_all();
    assert_eq!(store.update_field_at(9, Patch::Album(text("A")), 2_000), Err(ApiError::NotFound));
    assert_eq!(store.update_field(9, Patch::Thoughts(text("B"))), Err(ApiError::NotFound));
    assert_eq!(store.list_all(), before);
}

#[test]
fn an_update_stamped_before_the_creation_is_refused() {
    let mut store = store_with(&[1]);
    let before = store.list_all();
    assert_eq!(
        store.update_field_at(1, Patch::Album(text("A")), 999),
        Err(ApiError::PersistenceError(Failure::StaleTimestamp))
    );
    assert_eq!(store.list_all(), before);
}

#[test]
fn an_update_stamped_before_the_last_update_is_refused() {
    let mut store = store_with(&[1]);
    store.update_field_at(1, Patch::Album(text("A")), 5_000).unwrap();
    let before = store.list_all();
    assert_eq!(
        store.update_field_at(1, Patch::Album(text("B")), 4_999),
        Err(ApiError::PersistenceError(Failure::StaleTimestamp))
    );
    assert_eq!(store.list_all(), before);
}

#[test]
fn update_by_the_clock_stamps_the_present() {
    let mut store = DiaryStore::new();
    let created = store.create(text("a"), text("b"), text("c")).unwrap();
    assert_eq!(store.update_field(created.id, Patch::Album(text("d"))), Ok(()));
    let record = store.get(created.id).unwrap();
    assert_eq!(record.album, "d");
    assert_eq!(record.band, "a");
    assert_eq!(record.thoughts, "c");
    assert!(record.updated_at.unwrap() >= record.created_at);
}

#[test]
fn delete_takes_the_entry_out_of_the_listing() {
    let mut store = store_with(&[1, 2, 3]);
    assert!(store.delete(2));
    let ids: Vec<u128> = store.list_all().iter().map(|record| record.id).collect();
    assert_eq!(ids, vec![1, 3]);
    assert!(!store.contains(2));
    assert_eq!(store.get(2), None);
}

#[test]
fn delete_of_a_missing_entry_is_no_error() {
    let mut store = store_with(&[1]);
    let before = store.list_all();
    assert!(!store.delete(9));
    assert_eq!(store.list_all(), before);
}

#[test]
fn delete_twice_is_delete_once() {
    let mut store = store_with(&[1, 2]);
    assert!(store.delete(1));
    let after_first = store.list_all();
    assert!(!store.delete(1));
    assert_eq!(store.list_all(), after_first);
}

#[test]
fn a_deleted_identifier_is_never_given_out_again() {
    let mut store = store_with(&[1]);
    assert!(store.delete(1));
    assert_eq!(
        store.create_with(1, 9_000, text("a"), text("b"), text("c")),
        Err(ApiError::PersistenceError(Failure::DuplicateId))
    );
    assert_eq!(store.len(), 0);
}

#[test]
fn execute_reports_the_rows_it_touched() {
    let mut store = DiaryStore::new();
    let insert = Statement::Insert {
        id: 1,
        created_at: 1_000,
        band: text("Metallica"),
        album: text("RideTheLightning"),
        thoughts: text("Great"),
    };
    assert_eq!(store.execute(insert.clone()), Ok(1));
    assert_eq!(store.execute(insert), Err(Failure::DuplicateId));
    assert_eq!(store.list_all(), vec![sample(1, 1_000)]);

    let update = Statement::Update { id: 1, patch: Patch::Album(text("A")), at: 2_000 };
    assert_eq!(store.execute(update), Ok(1));
    let missing = Statement::Update { id: 2, patch: Patch::Album(text("A")), at: 2_000 };
    assert_eq!(store.execute(missing), Ok(0));
    let stale = Statement::Update { id: 1, patch: Patch::Album(text("B")), at: 1_999 };
    assert_eq!(store.execute(stale), Err(Failure::StaleTimestamp));
    assert_eq!(store.get(1).unwrap().album, "A");

    assert_eq!(store.execute(Statement::Delete { id: 2 }), Ok(0));
    assert_eq!(store.execute(Statement::Delete { id: 1 }), Ok(1));
    assert_eq!(store.execute(Statement::Delete { id: 1 }), Ok(0));
    assert_eq!(store.len(), 0);
}

#[test]
fn a_record_applies_a_patch_to_itself() {
    let mut record = sample(1, 1_000);
    assert_eq!(record.last_stamp(), 1_000);
    record.apply(Patch::Thoughts(text("Loud")), 4_000);
    assert_eq!(record.thoughts, "Loud");
    assert_eq!(record.album, "RideTheLightning");
    assert_eq!(record.updated_at, Some(4_000));
    assert_eq!(record.last_stamp(), 4_000);
}

#[test]
fn the_default_record_is_blank() {
    let record = DiaryRecord::default();
    assert_eq!(
        record,
        DiaryRecord {
            id: 0,
            created_at: 0,
            updated_at: None,
            band: String::new(),
            album: String::new(),
            thoughts: String::new(),
        }
    );
    assert_eq!(DiaryRecord::new(3, 4, text("a"), text("b"), text("c")).clone().id, 3);
}
