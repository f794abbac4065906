use media_tracker::books::resolver::{BookSearch, BooksMutation, BooksQuery, BooksService};
use media_tracker::calendar::CalendarDate;
use media_tracker::entities::metadata::Relation;
use media_tracker::entities::{audio_book, book, metadata, ExtensionRow};
use media_tracker::error::MediaError;
use media_tracker::graphql::IdObject;
use media_tracker::media::commit::{
    CommitEvent, CommitStep, MediaService, NewMetadata, WriteOutcome,
};
use media_tracker::media::resolver::{MediaDetails, SearchInput};
use media_tracker::media::{
    AudioBookSpecifics, BookSpecifics, MediaSpecifics, MetadataImage, MetadataImages,
    MovieSpecifics,
};
use media_tracker::migrator::{
    AudioBookSource, BookSource, MetadataImageLot, MetadataLot, MovieSource, PodcastSource,
};
use media_tracker::podcasts::PodcastSpecifics;
use media_tracker::store::Database;

fn book_details(identifier: &str, pages: Option<i32>) -> MediaDetails {
    MediaDetails {
        identifier: identifier.to_string(),
        title: format!("Book {}", identifier),
        description: Some("A book".to_string()),
        lot: MetadataLot::Book,
        creators: vec!["Frank Herbert".to_string()],
        genres: vec!["Science fiction".to_string()],
        poster_images: vec!["https://img.example/cover.png".to_string()],
        backdrop_images: vec!["https://img.example/back.png".to_string()],
        publish_year: Some(1965),
        publish_date: Some(CalendarDate { year: 1965, month: 8, day: 1 }),
        specifics: MediaSpecifics::Book(BookSpecifics { pages, source: BookSource::Openlibrary }),
    }
}

fn podcast_details(identifier: &str) -> MediaDetails {
    MediaDetails {
        identifier: identifier.to_string(),
        title: "Pod".to_string(),
        description: None,
        lot: MetadataLot::Podcast,
        creators: vec![],
        genres: vec![],
        poster_images: vec![],
        backdrop_images: vec![],
        publish_year: None,
        publish_date: None,
        specifics: MediaSpecifics::Podcast(PodcastSpecifics {
            episodes: vec![],
            source: PodcastSource::Listennotes,
            total_episodes: 0,
        }),
    }
}

/// Carries one step out against storage and hands the event to the pipeline.
fn take_step(
    db: &mut Database,
    identifier: &str,
    lot: MetadataLot,
    step: CommitStep,
    fetched: Option<MediaDetails>,
    now: i64,
) -> CommitStep {
    let event = match step {
        CommitStep::Lookup => CommitEvent::Looked(db.find_by_identifier(identifier)),
        CommitStep::Fetch => CommitEvent::Fetched(fetched),
        CommitStep::Write(plan) => CommitEvent::Written(db.write(plan, now)),
        done => return done,
    };
    MediaService::commit(identifier, lot, event)
}

/// Runs one commit to its end; returns the last step and how often the catalog was asked.
fn commit_media(
    db: &mut Database,
    identifier: &str,
    lot: MetadataLot,
    fetched: Option<MediaDetails>,
    now: i64,
) -> (CommitStep, usize) {
    let mut asked = 0;
    let mut step = MediaService::commit(identifier, lot, CommitEvent::Begin);
    loop {
        match step {
            CommitStep::Finished(_) | CommitStep::Failed(_) => return (step, asked),
            CommitStep::Fetch => asked += 1,
            _ => {}
        }
        step = take_step(db, identifier, lot, step, fetched.clone(), now);
    }
}

#[test]
fn commit_twice_returns_the_same_id() {
    let mut db = Database::new();
    let (first, asked) =
        commit_media(&mut db, "OL1", MetadataLot::Book, Some(book_details("OL1", Some(412))), 10);
    assert_eq!(first, CommitStep::Finished(IdObject { id: 1 }));
    assert_eq!(asked, 1);
    let (second, asked) =
        commit_media(&mut db, "OL1", MetadataLot::Book, Some(book_details("OL1", Some(412))), 20);
    assert_eq!(second, CommitStep::Finished(IdObject { id: 1 }));
    assert_eq!(asked, 0);
    assert_eq!(db.count_with_identifier("OL1"), 1);
    assert_eq!(db.count_extensions_of(1), 1);
    assert_eq!(db.find_by_identifier("OL1"), Some(1));
    assert_eq!(db.find_by_id(1).unwrap().created_on, 10);
    assert_eq!(db.find_by_id(1).unwrap().last_updated_on, 10);
}

#[test]
fn a_second_commit_never_asks_the_catalog() {
    let mut db = Database::new();
    commit_media(&mut db, "OL1", MetadataLot::Book, Some(book_details("OL1", None)), 1);
    let (again, asked) = commit_media(&mut db, "OL1", MetadataLot::Book, None, 2);
    assert_eq!(again, CommitStep::Finished(IdObject { id: 1 }));
    assert_eq!(asked, 0);
}

#[test]
fn distinct_identifiers_get_distinct_ids() {
    let mut db = Database::new();
    let (a, _) =
        commit_media(&mut db, "OL1", MetadataLot::Book, Some(book_details("OL1", None)), 1);
    let (b, _) =
        commit_media(&mut db, "pod-9", MetadataLot::Podcast, Some(podcast_details("pod-9")), 2);
    let (c, _) =
        commit_media(&mut db, "OL2", MetadataLot::Book, Some(book_details("OL2", Some(9))), 3);
    assert_eq!(a, CommitStep::Finished(IdObject { id: 1 }));
    assert_eq!(b, CommitStep::Finished(IdObject { id: 2 }));
    assert_eq!(c, CommitStep::Finished(IdObject { id: 3 }));
    assert_eq!(db.find_by_identifier("pod-9"), Some(2));
    assert_eq!(db.find_by_identifier("missing"), None);
    assert_eq!(db.count_with_identifier("missing"), 0);
    assert!(db.find_by_id(0).is_none());
    assert!(db.find_by_id(4).is_none());
    assert!(db.find_by_id(-1).is_none());
    assert!(db.extension_of(4).is_none());
}

#[test]
fn every_committed_row_has_one_extension_of_its_lot() {
    let mut db = Database::new();
    commit_media(&mut db, "OL1", MetadataLot::Book, Some(book_details("OL1", Some(3))), 1);
    commit_media(&mut db, "pod-9", MetadataLot::Podcast, Some(podcast_details("pod-9")), 2);
    commit_media(&mut db, "OL1", MetadataLot::Book, Some(book_details("OL1", Some(3))), 3);
    for id in 1..=2 {
        let row = db.find_by_id(id).unwrap();
        assert_eq!(row.id, id);
        assert_eq!(db.count_extensions_of(id), 1);
        let extension = db.extension_of(id).unwrap();
        assert_eq!(extension.metadata_id, id);
        assert_eq!(extension.specifics.lot(), row.lot);
    }
    assert_eq!(db.count_extensions_of(3), 0);
    assert_eq!(
        db.extension_of(1),
        Some(&ExtensionRow {
            metadata_id: 1,
            specifics: MediaSpecifics::Book(BookSpecifics {
                pages: Some(3),
                source: BookSource::Openlibrary
            }),
        })
    );
}

#[test]
fn concurrent_first_commits_agree() {
    let mut db = Database::new();
    let lot = MetadataLot::Book;
    let callers = 4;
    let mut steps: Vec<CommitStep> = Vec::new();
    for _ in 0..callers {
        steps.push(MediaService::commit("OL7", lot, CommitEvent::Begin));
    }
    // Every caller reads the index before any of them writes.
    for round in 0..3 {
        for k in 0..callers {
            let step = steps.remove(k);
            let next =
                take_step(&mut db, "OL7", lot, step, Some(book_details("OL7", Some(1))), round);
            steps.insert(k, next);
        }
    }
    assert_eq!(steps[0], CommitStep::Finished(IdObject { id: 1 }));
    for k in 1..callers {
        assert_eq!(steps[k], CommitStep::Lookup);
    }
    for k in 0..callers {
        let step = steps.remove(k);
        let next = take_step(&mut db, "OL7", lot, step, None, 9);
        steps.insert(k, next);
    }
    for k in 0..callers {
        assert_eq!(steps[k], CommitStep::Finished(IdObject { id: 1 }));
    }
    assert_eq!(db.count_with_identifier("OL7"), 1);
    assert_eq!(db.count_extensions_of(1), 1);
    assert_eq!(db.count_extensions_of(2), 0);
}

#[test]
fn a_lost_race_is_not_an_error() {
    let mut db = Database::new();
    let lot = MetadataLot::Book;
    let loser = MediaService::commit("OL7", lot, CommitEvent::Looked(None));
    assert_eq!(loser, CommitStep::Fetch);
    let loser = MediaService::commit("OL7", lot, CommitEvent::Fetched(Some(book_details("OL7", None))));
    let (winner, _) = commit_media(&mut db, "OL7", lot, Some(book_details("OL7", None)), 5);
    assert_eq!(winner, CommitStep::Finished(IdObject { id: 1 }));
    let outcome = match loser {
        CommitStep::Write(plan) => db.write(plan, 6),
        other => panic!("expected a write, got {:?}", other),
    };
    assert_eq!(outcome, WriteOutcome::DuplicateKey);
    let retry = MediaService::commit("OL7", lot, CommitEvent::Written(outcome));
    assert_eq!(retry, CommitStep::Lookup);
    let done = take_step(&mut db, "OL7", lot, retry, None, 7);
    assert_eq!(done, CommitStep::Finished(IdObject { id: 1 }));
    assert_eq!(db.count_with_identifier("OL7"), 1);
    assert_eq!(db.find_by_id(1).unwrap().created_on, 5);
}

#[test]
fn the_pipeline_steps_follow_the_events() {
    let lot = MetadataLot::Movie;
    assert_eq!(MediaService::commit("m", lot, CommitEvent::Begin), CommitStep::Lookup);
    assert_eq!(
        MediaService::commit("m", lot, CommitEvent::Looked(Some(42))),
        CommitStep::Finished(IdObject { id: 42 })
    );
    assert_eq!(MediaService::commit("m", lot, CommitEvent::Looked(None)), CommitStep::Fetch);
    assert_eq!(
        MediaService::commit("m", lot, CommitEvent::Written(WriteOutcome::Inserted(8))),
        CommitStep::Finished(IdObject { id: 8 })
    );
    assert_eq!(
        MediaService::commit("m", lot, CommitEvent::Written(WriteOutcome::DuplicateKey)),
        CommitStep::Lookup
    );
}

#[test]
fn provider_unavailable_is_reported() {
    let mut db = Database::new();
    let (step, asked) = commit_media(&mut db, "OL1", MetadataLot::Book, None, 1);
    assert_eq!(
        step,
        CommitStep::Failed(MediaError::ProviderUnavailable {
            identifier: "OL1".to_string(),
            lot: MetadataLot::Book
        })
    );
    assert_eq!(asked, 1);
    assert_eq!(db.count_with_identifier("OL1"), 0);
    assert_eq!(db.find_by_identifier("OL1"), None);
}

#[test]
fn lot_mismatch_is_reported_and_nothing_is_written() {
    let mut db = Database::new();
    let (step, _) =
        commit_media(&mut db, "pod-9", MetadataLot::Book, Some(podcast_details("pod-9")), 1);
    assert_eq!(
        step,
        CommitStep::Failed(MediaError::LotMismatch {
            requested: MetadataLot::Book,
            found: MetadataLot::Podcast
        })
    );
    assert_eq!(db.count_with_identifier("pod-9"), 0);
    assert_eq!(db.count_extensions_of(1), 0);
    assert_eq!(
        MediaService::plan_write(MetadataLot::Podcast, book_details("OL1", None)),
        Err(MediaError::LotMismatch { requested: MetadataLot::Podcast, found: MetadataLot::Book })
    );
}

#[test]
fn the_row_takes_the_lot_asked_for_not_the_lot_claimed() {
    let mut details = book_details("OL1", None);
    details.lot = MetadataLot::Movie;
    let plan = MediaService::plan_write(MetadataLot::Book, details).unwrap();
    assert_eq!(plan.metadata().lot, MetadataLot::Book);
    assert_eq!(plan.specifics().lot(), MetadataLot::Book);
}

#[test]
fn a_plan_holds_the_shared_row_and_the_payload() {
    let plan = MediaService::plan_write(MetadataLot::Book, book_details("OL1", Some(412))).unwrap();
    let expected = NewMetadata {
        identifier: "OL1".to_string(),
        lot: MetadataLot::Book,
        title: "Book OL1".to_string(),
        description: Some("A book".to_string()),
        publish_year: Some(1965),
        publish_date: Some(CalendarDate { year: 1965, month: 8, day: 1 }),
        images: MetadataImages(vec![
            MetadataImage {
                url: "https://img.example/cover.png".to_string(),
                lot: MetadataImageLot::Poster,
            },
            MetadataImage {
                url: "https://img.example/back.png".to_string(),
                lot: MetadataImageLot::Backdrop,
            },
        ]),
        creators: vec!["Frank Herbert".to_string()],
        genres: vec!["Science fiction".to_string()],
    };
    assert_eq!(plan.metadata(), &expected);
    let payload =
        MediaSpecifics::Book(BookSpecifics { pages: Some(412), source: BookSource::Openlibrary });
    assert_eq!(plan.specifics(), &payload);
    assert_eq!(plan.into_parts(), (expected, payload));
}

#[test]
fn the_stored_row_is_the_plan_with_id_and_timestamps() {
    let mut db = Database::new();
    commit_media(&mut db, "pod-9", MetadataLot::Podcast, Some(podcast_details("pod-9")), 1);
    commit_media(&mut db, "OL1", MetadataLot::Book, Some(book_details("OL1", Some(412))), 77);
    assert_eq!(
        db.find_by_id(2),
        Some(&metadata::Model {
            id: 2,
            created_on: 77,
            lot: MetadataLot::Book,
            last_updated_on: 77,
            title: "Book OL1".to_string(),
            identifier: "OL1".to_string(),
            description: Some("A book".to_string()),
            publish_year: Some(1965),
            publish_date: Some(CalendarDate { year: 1965, month: 8, day: 1 }),
            images: MetadataImages(vec![
                MetadataImage {
                    url: "https://img.example/cover.png".to_string(),
                    lot: MetadataImageLot::Poster,
                },
                MetadataImage {
                    url: "https://img.example/back.png".to_string(),
                    lot: MetadataImageLot::Backdrop,
                },
            ]),
        })
    );
}

#[test]
fn commit_book_returns_the_existing_id_or_fetches() {
    let service = BooksService::new();
    let mut db = Database::new();
    assert_eq!(service.commit_book("OL1", db.find_by_id(1)), CommitStep::Fetch);
    commit_media(&mut db, "OL1", MetadataLot::Book, Some(book_details("OL1", None)), 1);
    assert_eq!(
        service.commit_book("OL1", db.find_by_id(1)),
        CommitStep::Finished(IdObject { id: 1 })
    );
}

#[test]
fn save_to_db_plans_the_book_rows_from_the_details() {
    let service = BooksService::new();
    let step = service.save_to_db(book_details("OL1", Some(412)));
    let plan = match step {
        CommitStep::Write(plan) => plan,
        other => panic!("expected a write, got {:?}", other),
    };
    assert_eq!(plan.metadata().identifier, "OL1");
    assert_eq!(plan.metadata().lot, MetadataLot::Book);
    assert_eq!(plan.metadata().publish_year, Some(1965));
    assert_eq!(
        plan.metadata().publish_date,
        Some(CalendarDate { year: 1965, month: 8, day: 1 })
    );
    assert_eq!(plan.metadata().title, "Book OL1");
    assert_eq!(plan.metadata().description, Some("A book".to_string()));
    assert_eq!(plan.metadata().creators, vec!["Frank Herbert".to_string()]);
    assert_eq!(plan.metadata().genres, vec!["Science fiction".to_string()]);
    assert_eq!(plan.metadata().images.0.len(), 2);
    let mut db = Database::new();
    assert_eq!(db.write(plan, 3), WriteOutcome::Inserted(1));
    let extension = db.extension_of(1).unwrap();
    let row = match extension.specifics {
        MediaSpecifics::Book(specifics) => book::Model::from_specifics(1, specifics),
        _ => panic!("not a book"),
    };
    assert_eq!(
        row,
        book::Model { metadata_id: 1, num_pages: Some(412), source: BookSource::Openlibrary }
    );
}

#[test]
fn save_to_db_rejects_details_that_are_no_book() {
    let service = BooksService::new();
    assert_eq!(
        service.save_to_db(podcast_details("pod-9")),
        CommitStep::Failed(MediaError::LotMismatch {
            requested: MetadataLot::Book,
            found: MetadataLot::Podcast
        })
    );
    let mut movie = book_details("tt1", None);
    movie.specifics = MediaSpecifics::Movie(MovieSpecifics { source: MovieSource::Tmdb });
    assert_eq!(
        service.commit("tt1", CommitEvent::Fetched(Some(movie))),
        CommitStep::Failed(MediaError::LotMismatch {
            requested: MetadataLot::Book,
            found: MetadataLot::Movie
        })
    );
}

#[test]
fn the_book_pipeline_runs_to_the_same_end() {
    let service = BooksService::new();
    let mutation = BooksMutation;
    let mut db = Database::new();
    let mut step = mutation.commit_book(&service, "OL1", CommitEvent::Begin);
    let mut turns = 0;
    let id = loop {
        let event = match step {
            CommitStep::Lookup => CommitEvent::Looked(db.find_by_identifier("OL1")),
            CommitStep::Fetch => CommitEvent::Fetched(Some(book_details("OL1", Some(1)))),
            CommitStep::Write(plan) => CommitEvent::Written(db.write(plan, 4)),
            CommitStep::Finished(object) => break object,
            CommitStep::Failed(error) => panic!("{:?}", error),
        };
        step = mutation.commit_book(&service, "OL1", event);
        turns += 1;
    };
    assert_eq!(id, IdObject { id: 1 });
    assert_eq!(turns, 3);
    assert_eq!(
        db.find_by_id(1).unwrap().publish_date,
        Some(CalendarDate { year: 1965, month: 8, day: 1 })
    );
    assert_eq!(
        service.commit("OL1", CommitEvent::Fetched(None)),
        CommitStep::Failed(MediaError::ProviderUnavailable {
            identifier: "OL1".to_string(),
            lot: MetadataLot::Book
        })
    );
}

#[test]
fn details_from_provider_asks_for_the_stored_identifier() {
    let service = BooksService::new();
    let mut db = Database::new();
    commit_media(&mut db, "OL1", MetadataLot::Book, Some(book_details("OL1", None)), 1);
    assert_eq!(service.details_from_provider(1, db.find_by_id(1)), Ok("OL1".to_string()));
}

#[test]
fn details_from_provider_reports_a_missing_row() {
    let service = BooksService::new();
    let db = Database::new();
    assert_eq!(
        service.details_from_provider(5, db.find_by_id(5)),
        Err(MediaError::NotFound { metadata_id: 5 })
    );
}

#[test]
fn books_search_asks_for_the_page_offset() {
    let service = BooksService::new();
    assert_eq!(
        service.books_search("dune", Some(2)),
        BookSearch { query: "dune".to_string(), offset: 20 }
    );
    let input = SearchInput { query: "dune".to_string(), page: Some(5) };
    assert_eq!(
        BooksQuery.books_search(&service, &input),
        BookSearch { query: "dune".to_string(), offset: 80 }
    );
    let first = SearchInput { query: "x".to_string(), page: None };
    assert_eq!(BooksQuery.books_search(&service, &first).offset, 0);
    assert_eq!(service.books_search("x", Some(1)).offset, 0);
}

#[test]
fn extension_rows_are_made_from_the_payload() {
    assert_eq!(
        audio_book::Model::from_specifics(
            3,
            AudioBookSpecifics { runtime: Some(95), source: AudioBookSource::Audible }
        ),
        audio_book::Model { metadata_id: 3, runtime: Some(95), source: AudioBookSource::Audible }
    );
    assert_eq!(
        book::Model::from_specifics(4, BookSpecifics { pages: None, source: BookSource::Openlibrary }),
        book::Model { metadata_id: 4, num_pages: None, source: BookSource::Openlibrary }
    );
}

#[test]
fn every_lot_has_a_one_to_one_extension_relation() {
    assert_eq!(Relation::for_lot(MetadataLot::AudioBook), Relation::AudioBook);
    assert_eq!(Relation::for_lot(MetadataLot::Book), Relation::Book);
    assert_eq!(Relation::for_lot(MetadataLot::Podcast), Relation::Podcast);
    assert_eq!(Relation::for_lot(MetadataLot::Movie), Relation::Movie);
    assert_eq!(Relation::for_lot(MetadataLot::Show), Relation::Show);
    assert_eq!(Relation::for_lot(MetadataLot::VideoGame), Relation::VideoGame);
    assert!(Relation::Book.has_one());
    assert!(Relation::Podcast.has_one());
    assert!(!Relation::Seen.has_one());
    assert!(!Relation::Review.has_one());
    assert!(!Relation::MetadataImage.has_one());
}

#[test]
fn specifics_name_their_lot() {
    assert_eq!(
        MediaSpecifics::AudioBook(AudioBookSpecifics {
            runtime: None,
            source: AudioBookSource::Audible
        })
        .lot(),
        MetadataLot::AudioBook
    );
    assert_eq!(podcast_details("p").specifics.lot(), MetadataLot::Podcast);
    assert_eq!(book_details("b", None).specifics.lot(), MetadataLot::Book);
}
