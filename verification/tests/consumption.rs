use media_tracker::entities::seen::{
    AssociationOutcome, Model, SeenExtraInformation, SeenPodcastExtraInformation,
    SeenShowExtraInformation,
};
use media_tracker::entities::user_to_metadata;
use media_tracker::store::Database;

fn draft(user_id: i32, metadata_id: i32, progress: i32) -> Model {
    Model {
        id: 0,
        progress,
        started_on: None,
        finished_on: None,
        last_updated_on: 1000,
        user_id,
        metadata_id,
        extra_information: Some(SeenExtraInformation::Podcast(SeenPodcastExtraInformation {
            episode: 3,
        })),
        show_information: None,
        podcast_information: Some(SeenPodcastExtraInformation { episode: 3 }),
        identifier: Some("pod-9".to_string()),
    }
}

/// Records consumption: saves the record, then carries out what follows an insert.
fn record_seen(db: &mut Database, record: Model) -> (Model, Option<AssociationOutcome>) {
    let stored = db.insert_seen(record);
    let outcome = stored.after_save(true).map(|pair| db.associate(pair));
    let saved = stored.after_association(outcome.unwrap_or(AssociationOutcome::Failed)).unwrap();
    (saved, outcome)
}

#[test]
fn two_seen_events_make_one_association() {
    let mut db = Database::new();
    let pair = user_to_metadata::Model { user_id: 7, metadata_id: 42 };
    let (first, outcome) = record_seen(&mut db, draft(7, 42, 10));
    assert_eq!(outcome, Some(AssociationOutcome::Created));
    assert_eq!(first.id, 1);
    let (second, outcome) = record_seen(&mut db, draft(7, 42, 100));
    assert_eq!(outcome, Some(AssociationOutcome::AlreadyExists));
    assert_eq!(second.id, 2);
    assert_eq!(db.count_seen(), 2);
    assert_eq!(db.count_links_of(pair), 1);
}

#[test]
fn other_pairs_get_their_own_association() {
    let mut db = Database::new();
    record_seen(&mut db, draft(7, 42, 10));
    record_seen(&mut db, draft(8, 42, 10));
    record_seen(&mut db, draft(7, 43, 10));
    record_seen(&mut db, draft(7, 42, 20));
    assert_eq!(db.count_seen(), 4);
    assert_eq!(db.count_links_of(user_to_metadata::Model { user_id: 7, metadata_id: 42 }), 1);
    assert_eq!(db.count_links_of(user_to_metadata::Model { user_id: 8, metadata_id: 42 }), 1);
    assert_eq!(db.count_links_of(user_to_metadata::Model { user_id: 7, metadata_id: 43 }), 1);
    assert_eq!(db.count_links_of(user_to_metadata::Model { user_id: 8, metadata_id: 43 }), 0);
}

#[test]
fn the_stored_record_is_the_draft_with_the_next_id() {
    let mut db = Database::new();
    let mut record = draft(7, 42, 55);
    record.id = 999;
    record.extra_information =
        Some(SeenExtraInformation::Show(SeenShowExtraInformation { season: 2, episode: 5 }));
    let stored = db.insert_seen(record.clone());
    let mut expected = record;
    expected.id = 1;
    assert_eq!(stored, expected);
    let again = db.insert_seen(draft(1, 1, 0));
    assert_eq!(again.id, 2);
    assert_eq!(db.count_seen(), 2);
}

#[test]
fn only_an_insert_calls_for_an_association() {
    let record = draft(7, 42, 10);
    assert_eq!(
        record.after_save(true),
        Some(user_to_metadata::Model { user_id: 7, metadata_id: 42 })
    );
    assert_eq!(record.after_save(false), None);
}

#[test]
fn a_failed_association_does_not_fail_the_save() {
    let record = draft(7, 42, 10);
    assert_eq!(record.clone().after_association(AssociationOutcome::Failed), Ok(record.clone()));
    assert_eq!(
        record.clone().after_association(AssociationOutcome::AlreadyExists),
        Ok(record.clone())
    );
    assert_eq!(record.clone().after_association(AssociationOutcome::Created), Ok(record));
}

#[test]
fn associating_directly_is_idempotent() {
    let mut db = Database::new();
    let pair = user_to_metadata::Model { user_id: 1, metadata_id: 2 };
    assert_eq!(db.count_links_of(pair), 0);
    assert_eq!(db.associate(pair), AssociationOutcome::Created);
    assert_eq!(db.associate(pair), AssociationOutcome::AlreadyExists);
    assert_eq!(db.associate(pair), AssociationOutcome::AlreadyExists);
    assert_eq!(db.count_links_of(pair), 1);
    assert_eq!(db.count_seen(), 0);
}
