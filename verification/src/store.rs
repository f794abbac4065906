//! Storage as the pipeline sees it.
//!
//! The pipeline relies on three constraints of storage: no two shared rows
//! have the same identifier, every shared row has exactly one lot-specific
//! row of its own lot, and no association is stored twice. [`DatabaseView`]
//! states the tables and these constraints mathematically; [`Database`]
//! keeps the tables in memory and is held to that statement.

use crate::entities::seen::AssociationOutcome;
use crate::entities::{metadata, seen, user_to_metadata, ExtensionRow, ExtensionRowView};
use crate::media::commit::{
    written_id, NewMetadataView, WriteOutcome, WritePlan, WritePlanView,
};
use crate::podcasts::int_of;
use vstd::prelude::*;

verus! {

/// The tables of storage as sequences of rows, in the order of insertion.
pub struct DatabaseView {
    pub metadata: Seq<metadata::ModelView>,
    pub extensions: Seq<ExtensionRowView>,
    pub seen: Seq<seen::ModelView>,
    pub associations: Seq<(int, int)>,
}

/// Shared rows with a given identifier.
pub open spec fn has_identifier(identifier: Seq<char>) -> spec_fn(metadata::ModelView) -> bool {
    |row: metadata::ModelView| row.identifier == identifier
}

/// Shared rows with a given internal id.
pub open spec fn has_id(id: int) -> spec_fn(metadata::ModelView) -> bool {
    |row: metadata::ModelView| row.id == id
}

/// Lot-specific rows owned by the shared row with a given internal id.
pub open spec fn belongs_to(metadata_id: int) -> spec_fn(ExtensionRowView) -> bool {
    |row: ExtensionRowView| row.metadata_id == metadata_id
}

/// Associations of a given user with a given media item.
pub open spec fn links(pair: (int, int)) -> spec_fn((int, int)) -> bool {
    |row: (int, int)| row == pair
}

/// The shared row that storage keeps for a plan: the plan's fields with the
/// id that storage assigned and both timestamps set to the time of writing.
pub open spec fn stored_row(plan: NewMetadataView, id: int, now: int) -> metadata::ModelView {
    metadata::ModelView {
        id,
        created_on: now,
        lot: plan.lot,
        last_updated_on: now,
        title: plan.title,
        identifier: plan.identifier,
        description: plan.description,
        publish_year: plan.publish_year,
        publish_date: plan.publish_date,
        images: plan.images,
    }
}

/// The consumption record that storage keeps for a draft: the draft with the
/// id that storage assigned.
pub open spec fn stored_seen(draft: seen::ModelView, id: int) -> seen::ModelView {
    seen::ModelView { id, ..draft }
}

impl DatabaseView {
    /// Storage with no rows.
    pub open spec fn empty() -> DatabaseView {
        DatabaseView {
            metadata: Seq::empty(),
            extensions: Seq::empty(),
            seen: Seq::empty(),
            associations: Seq::empty(),
        }
    }

    /// The constraints of storage. Internal ids count up from 1 in the order
    /// of insertion; identifiers are unique; the lot-specific row of a shared
    /// row was written with it, carries its id and belongs to its lot;
    /// associations are unique.
    pub open spec fn wf(self) -> bool {
        &&& forall|i: int| 0 <= i < self.metadata.len() ==> (#[trigger] self.metadata[i]).id == i + 1
        &&& forall|i: int, j: int|
            0 <= i < j < self.metadata.len() ==> (#[trigger] self.metadata[i]).identifier != (
            #[trigger] self.metadata[j]).identifier
        &&& self.extensions.len() == self.metadata.len()
        &&& forall|i: int|
            0 <= i < self.extensions.len() ==> {
                &&& (#[trigger] self.extensions[i]).metadata_id == self.metadata[i].id
                &&& self.extensions[i].specifics.lot() == self.metadata[i].lot
            }
        &&& forall|i: int| 0 <= i < self.seen.len() ==> (#[trigger] self.seen[i]).id == i + 1
        &&& forall|i: int, j: int|
            0 <= i < j < self.associations.len() ==> (#[trigger] self.associations[i]) != (
            #[trigger] self.associations[j])
    }

    /// Whether a shared row with the identifier exists.
    pub open spec fn knows(self, identifier: Seq<char>) -> bool {
        exists|i: int|
            0 <= i < self.metadata.len() && (#[trigger] self.metadata[i]).identifier == identifier
    }

    /// A read of the identifier index: the internal id of the shared row
    /// with the identifier, if there is one.
    pub open spec fn find(self, identifier: Seq<char>) -> Option<int> {
        if self.knows(identifier) {
            let i = choose|i: int|
                0 <= i < self.metadata.len() && (#[trigger] self.metadata[i]).identifier
                    == identifier;
            Some(self.metadata[i].id)
        } else {
            None
        }
    }

    /// The shared row with an internal id, if there is one.
    pub open spec fn row(self, id: int) -> Option<metadata::ModelView> {
        if 1 <= id <= self.metadata.len() {
            Some(self.metadata[id - 1])
        } else {
            None
        }
    }

    /// The number of shared rows with an identifier.
    pub open spec fn rows_with(self, identifier: Seq<char>) -> nat {
        self.metadata.filter(has_identifier(identifier)).len()
    }

    /// The number of lot-specific rows owned by a shared row.
    pub open spec fn extensions_of(self, metadata_id: int) -> nat {
        self.extensions.filter(belongs_to(metadata_id)).len()
    }

    /// The number of stored associations of a user with a media item.
    pub open spec fn links_of(self, pair: (int, int)) -> nat {
        self.associations.filter(links(pair)).len()
    }

    /// Storage after both rows of a plan were added.
    pub open spec fn insert(self, plan: WritePlanView, now: int) -> DatabaseView {
        let id = self.metadata.len() as int + 1;
        DatabaseView {
            metadata: self.metadata.push(stored_row(plan.metadata, id, now)),
            extensions: self.extensions.push(plan.extension(id)),
            ..self
        }
    }

    /// The id that a write transaction reports: the new id where the plan's
    /// identifier was free, `None` where it was taken.
    pub open spec fn write_result(self, plan: WritePlanView) -> Option<int> {
        if self.knows(plan.metadata.identifier) {
            None
        } else {
            Some(self.metadata.len() as int + 1)
        }
    }

    /// Storage after a write transaction: both rows are added where the
    /// plan's identifier was free, and nothing changes where it was taken.
    pub open spec fn write(self, plan: WritePlanView, now: int) -> DatabaseView {
        if self.knows(plan.metadata.identifier) {
            self
        } else {
            self.insert(plan, now)
        }
    }

    /// Storage after a consumption record was added.
    pub open spec fn with_seen(self, draft: seen::ModelView) -> DatabaseView {
        DatabaseView { seen: self.seen.push(stored_seen(draft, self.seen.len() as int + 1)), ..self }
    }

    /// Whether an association is stored.
    pub open spec fn associated(self, pair: (int, int)) -> bool {
        self.associations.contains(pair)
    }

    /// Storage after an attempt to store an association: the pair is added
    /// where it was new, and nothing changes where it was stored before.
    pub open spec fn associate(self, pair: (int, int)) -> DatabaseView {
        if self.associated(pair) {
            self
        } else {
            DatabaseView { associations: self.associations.push(pair), ..self }
        }
    }
}

/// A sequence in which no element meets a condition has none that do.
pub proof fn lemma_filter_none<T>(rows: Seq<T>, wanted: spec_fn(T) -> bool)
    requires
        forall|j: int| 0 <= j < rows.len() ==> !wanted(#[trigger] rows[j]),
    ensures
        rows.filter(wanted) == Seq::<T>::empty(),
    decreases rows.len(),
{
    reveal(Seq::filter);
    if rows.len() > 0 {
        let rest = rows.drop_last();
        assert forall|j: int| 0 <= j < rest.len() implies !wanted(#[trigger] rest[j]) by {
            assert(rest[j] == rows[j]);
        }
        lemma_filter_none(rest, wanted);
        assert(!wanted(rows[rows.len() - 1]));
    }
}

/// A sequence in which exactly the element at `k` meets a condition has
/// exactly that one.
pub proof fn lemma_filter_one<T>(rows: Seq<T>, wanted: spec_fn(T) -> bool, k: int)
    requires
        0 <= k < rows.len(),
        wanted(rows[k]),
        forall|j: int| 0 <= j < rows.len() && j != k ==> !wanted(#[trigger] rows[j]),
    ensures
        rows.filter(wanted) == seq![rows[k]],
    decreases rows.len(),
{
    reveal(Seq::filter);
    let rest = rows.drop_last();
    if k == rows.len() - 1 {
        assert forall|j: int| 0 <= j < rest.len() implies !wanted(#[trigger] rest[j]) by {
            assert(rest[j] == rows[j]);
        }
        lemma_filter_none(rest, wanted);
        assert(rows.filter(wanted) =~= seq![rows[k]]);
    } else {
        assert(!wanted(rows[rows.len() - 1]));
        assert forall|j: int| 0 <= j < rest.len() && j != k implies !wanted(
            #[trigger] rest[j],
        ) by {
            assert(rest[j] == rows[j]);
        }
        assert(rest[k] == rows[k]);
        lemma_filter_one(rest, wanted, k);
    }
}

/// In well-formed storage a read of the identifier index that finds an id
/// finds the one row with the identifier.
pub proof fn lemma_find_is_unique(db: DatabaseView, identifier: Seq<char>, i: int)
    requires
        db.wf(),
        0 <= i < db.metadata.len(),
        db.metadata[i].identifier == identifier,
    ensures
        db.find(identifier) == Some(i + 1),
{
    let chosen = choose|c: int|
        0 <= c < db.metadata.len() && (#[trigger] db.metadata[c]).identifier == identifier;
    if chosen < i {
        assert(db.metadata[chosen].identifier != db.metadata[i].identifier);
    } else if i < chosen {
        assert(db.metadata[i].identifier != db.metadata[chosen].identifier);
    }
}

/// In well-formed storage an id that the identifier index holds is the id
/// of a row with that identifier.
pub proof fn lemma_find_is_row(db: DatabaseView, identifier: Seq<char>)
    requires
        db.wf(),
        db.find(identifier) is Some,
    ensures
        1 <= db.find(identifier).unwrap() <= db.metadata.len(),
        db.row(db.find(identifier).unwrap()) is Some,
        db.row(db.find(identifier).unwrap()).unwrap().identifier == identifier,
        db.row(db.find(identifier).unwrap()).unwrap().id == db.find(identifier).unwrap(),
{
}

/// A write transaction keeps storage well formed, skips identifiers that
/// are taken, and disturbs no row that was there before: every identifier
/// that the index held keeps its id, and the plan's identifier has an id
/// afterwards.
pub proof fn lemma_write(db: DatabaseView, plan: WritePlanView, now: int, identifier: Seq<char>)
    requires
        db.wf(),
        plan.consistent(),
    ensures
        db.write(plan, now).wf(),
        db.find(identifier) is Some ==> db.write(plan, now).find(identifier) == db.find(
            identifier,
        ),
        db.write(plan, now).find(plan.metadata.identifier) is Some,
        db.write_result(plan) is Some ==> db.write(plan, now).find(plan.metadata.identifier)
            == db.write_result(plan),
        identifier != plan.metadata.identifier ==> db.write(plan, now).find(identifier)
            == db.find(identifier),
        db.write(plan, now).seen == db.seen,
        db.write(plan, now).associations == db.associations,
{
    let after = db.write(plan, now);
    if db.knows(plan.metadata.identifier) {
    } else {
        let n = db.metadata.len() as int;
        assert forall|i: int, j: int| 0 <= i < j < after.metadata.len() implies (
        #[trigger] after.metadata[i]).identifier != (#[trigger] after.metadata[j]).identifier by {
            if j < n {
                assert(db.metadata[i].identifier != db.metadata[j].identifier);
            } else {
                assert(db.metadata[i].identifier != plan.metadata.identifier);
            }
        }
        assert(after.wf());
        assert(after.metadata[n].identifier == plan.metadata.identifier);
        lemma_find_is_unique(after, plan.metadata.identifier, n);
        if db.find(identifier) is Some {
            lemma_find_is_row(db, identifier);
            let at = db.find(identifier).unwrap() - 1;
            assert(after.metadata[at] == db.metadata[at]);
            lemma_find_is_unique(after, identifier, at);
        }
        if identifier != plan.metadata.identifier && after.knows(identifier) {
            let c = choose|c: int|
                0 <= c < after.metadata.len() && (#[trigger] after.metadata[c]).identifier
                    == identifier;
            assert(c < n);
            assert(db.metadata[c].identifier == identifier);
        }
    }
}

/// In well-formed storage no identifier has more than one shared row: it
/// has one where the identifier index holds it, and none where it does not.
pub proof fn lemma_rows_with(db: DatabaseView, identifier: Seq<char>)
    requires
        db.wf(),
    ensures
        db.rows_with(identifier) == if db.find(identifier) is Some {
            1nat
        } else {
            0nat
        },
{
    if db.find(identifier) is Some {
        lemma_find_is_row(db, identifier);
        lemma_one_extension_per_row(db, db.find(identifier).unwrap());
    } else {
        lemma_filter_none(db.metadata, has_identifier(identifier));
    }
}

/// In well-formed storage every shared row is the only one with its id and
/// the only one with its identifier, and it has exactly one lot-specific
/// row, which belongs to the row's lot.
pub proof fn lemma_one_extension_per_row(db: DatabaseView, id: int)
    requires
        db.wf(),
        1 <= id <= db.metadata.len(),
    ensures
        db.metadata.filter(has_id(id)) == seq![db.metadata[id - 1]],
        db.rows_with(db.metadata[id - 1].identifier) == 1,
        db.extensions.filter(belongs_to(id)) == seq![db.extensions[id - 1]],
        db.extensions_of(id) == 1,
        db.extensions[id - 1].specifics.lot() == db.metadata[id - 1].lot,
        db.find(db.metadata[id - 1].identifier) == Some(id),
{
    let k = id - 1;
    lemma_filter_one(db.metadata, has_id(id), k);
    assert forall|j: int| 0 <= j < db.metadata.len() && j != k implies !has_identifier(
        db.metadata[k].identifier,
    )(#[trigger] db.metadata[j]) by {
        if j < k {
            assert(db.metadata[j].identifier != db.metadata[k].identifier);
        } else {
            assert(db.metadata[k].identifier != db.metadata[j].identifier);
        }
    }
    lemma_filter_one(db.metadata, has_identifier(db.metadata[k].identifier), k);
    assert forall|j: int| 0 <= j < db.extensions.len() && j != k implies !belongs_to(id)(
        #[trigger] db.extensions[j],
    ) by {
        assert(db.extensions[j].metadata_id == db.metadata[j].id);
    }
    assert(db.extensions[k].metadata_id == db.metadata[k].id);
    lemma_filter_one(db.extensions, belongs_to(id), k);
    lemma_find_is_unique(db, db.metadata[k].identifier, k);
}

/// An attempt to store an association keeps storage well formed and leaves
/// the pair stored exactly once, whether or not it was stored before.
pub proof fn lemma_associate(db: DatabaseView, pair: (int, int))
    requires
        db.wf(),
    ensures
        db.associate(pair).wf(),
        db.associate(pair).associated(pair),
        db.associate(pair).links_of(pair) == 1,
        db.associate(pair).metadata == db.metadata,
        db.associate(pair).extensions == db.extensions,
        db.associate(pair).seen == db.seen,
{
    let after = db.associate(pair);
    if db.associated(pair) {
    } else {
        let n = db.associations.len() as int;
        assert forall|i: int, j: int| 0 <= i < j < after.associations.len() implies (
        #[trigger] after.associations[i]) != (#[trigger] after.associations[j]) by {
            if j < n {
                assert(db.associations[i] != db.associations[j]);
            } else {
                assert(db.associations.contains(db.associations[i]));
            }
        }
        assert(after.associations[n] == pair);
    }
    let k = choose|k: int| 0 <= k < after.associations.len() && after.associations[k] == pair;
    assert forall|j: int| 0 <= j < after.associations.len() && j != k implies !links(pair)(
        #[trigger] after.associations[j],
    ) by {
        if j < k {
            assert(after.associations[j] != after.associations[k]);
        } else {
            assert(after.associations[k] != after.associations[j]);
        }
    }
    lemma_filter_one(after.associations, links(pair), k);
}

/// Adding a consumption record keeps storage well formed and touches no
/// other table. The new record gets the next id.
pub proof fn lemma_with_seen(db: DatabaseView, draft: seen::ModelView)
    requires
        db.wf(),
    ensures
        db.with_seen(draft).wf(),
        db.with_seen(draft).seen.len() == db.seen.len() + 1,
        db.with_seen(draft).seen.last() == stored_seen(draft, db.seen.len() as int + 1),
        db.with_seen(draft).metadata == db.metadata,
        db.with_seen(draft).extensions == db.extensions,
        db.with_seen(draft).associations == db.associations,
{
    let after = db.with_seen(draft);
    assert forall|i: int| 0 <= i < after.seen.len() implies (#[trigger] after.seen[i]).id == i
        + 1 by {
        if i < db.seen.len() {
            assert(after.seen[i] == db.seen[i]);
        }
    }
}

/// Storage kept in memory.
#[derive(Debug)]
pub struct Database {
    metadata: Vec<metadata::Model>,
    extensions: Vec<ExtensionRow>,
    seen: Vec<seen::Model>,
    associations: Vec<user_to_metadata::Model>,
}

impl View for Database {
    type V = DatabaseView;

    closed spec fn view(&self) -> DatabaseView {
        DatabaseView {
            metadata: self.metadata.deep_view(),
            extensions: self.extensions.deep_view(),
            seen: self.seen.deep_view(),
            associations: self.associations.deep_view(),
        }
    }
}

impl Database {
    /// Storage with no rows.
    pub fn new() -> (db: Database)
        ensures
            db@ == DatabaseView::empty(),
            db@.wf(),
    {
        let db = Database {
            metadata: Vec::new(),
            extensions: Vec::new(),
            seen: Vec::new(),
            associations: Vec::new(),
        };
        assert(db.metadata.deep_view() =~= Seq::<metadata::ModelView>::empty());
        assert(db.extensions.deep_view() =~= Seq::<ExtensionRowView>::empty());
        assert(db.seen.deep_view() =~= Seq::<seen::ModelView>::empty());
        assert(db.associations.deep_view() =~= Seq::<(int, int)>::empty());
        db
    }

    /// Reads the identifier index.
    pub fn find_by_identifier(&self, identifier: &str) -> (found: Option<i32>)
        requires
            self@.wf(),
        ensures
            int_of(found) == self@.find(identifier@),
    {
        let wanted = identifier.to_owned();
        let mut i: usize = 0;
        while i < self.metadata.len()
            invariant
                i <= self.metadata.len(),
                wanted@ == identifier@,
                self@.wf(),
                forall|j: int| 0 <= j < i ==> (#[trigger] self@.metadata[j]).identifier != identifier@,
            decreases self.metadata.len() - i,
        {
            assert(self@.metadata[i as int] == self.metadata[i as int]@);
            if self.metadata[i].identifier == wanted {
                proof {
                    lemma_find_is_unique(self@, identifier@, i as int);
                }
                return Some(self.metadata[i].id);
            }
            i += 1;
        }
        None
    }

    /// The shared row with an internal id.
    pub fn find_by_id(&self, id: i32) -> (row: Option<&metadata::Model>)
        requires
            self@.wf(),
        ensures
            row.deep_view() == self@.row(id as int),
    {
        if id >= 1 && id as usize <= self.metadata.len() {
            let row = &self.metadata[(id - 1) as usize];
            assert(self@.metadata[id - 1] == row@);
            Some(row)
        } else {
            None
        }
    }

    /// The lot-specific row owned by the shared row with an internal id.
    pub fn extension_of(&self, id: i32) -> (row: Option<&ExtensionRow>)
        requires
            self@.wf(),
        ensures
            match row {
                Some(extension) => 1 <= id <= self@.metadata.len() && extension@
                    == self@.extensions[id - 1],
                None => self@.row(id as int) is None,
            },
    {
        if id >= 1 && id as usize <= self.extensions.len() {
            let row = &self.extensions[(id - 1) as usize];
            assert(self@.extensions[id - 1] == row@);
            Some(row)
        } else {
            None
        }
    }

    /// Runs the write transaction of a plan at the time `now`, in epoch
    /// milliseconds. Either both rows are stored, or, where a row with the
    /// plan's identifier exists, nothing is. The creators and genres of the
    /// plan belong to tables of their own, which are not kept here.
    pub fn write(&mut self, plan: WritePlan, now: i64) -> (outcome: WriteOutcome)
        requires
            old(self)@.wf(),
            old(self)@.metadata.len() < i32::MAX,
        ensures
            final(self)@.wf(),
            final(self)@ == old(self)@.write(plan@, now as int),
            written_id(outcome) == old(self)@.write_result(plan@),
    {
        let ghost before = self@;
        let ghost planned = plan@;
        let (row, specifics) = plan.into_parts();
        proof {
            lemma_write(before, planned, now as int, row.identifier@);
        }
        match self.find_by_identifier(row.identifier.as_str()) {
            Some(_) => WriteOutcome::DuplicateKey,
            None => {
                let id: i32 = self.metadata.len() as i32 + 1;
                let ghost rows = self.metadata.deep_view();
                let ghost extensions = self.extensions.deep_view();
                let stored = metadata::Model {
                    id,
                    created_on: now,
                    lot: row.lot,
                    last_updated_on: now,
                    title: row.title,
                    identifier: row.identifier,
                    description: row.description,
                    publish_year: row.publish_year,
                    publish_date: row.publish_date,
                    images: row.images,
                };
                assert(stored@ == stored_row(planned.metadata, id as int, now as int));
                self.metadata.push(stored);
                self.extensions.push(ExtensionRow { metadata_id: id, specifics });
                assert(self.metadata.deep_view() =~= rows.push(
                    stored_row(planned.metadata, id as int, now as int),
                ));
                assert(self.extensions.deep_view() =~= extensions.push(
                    planned.extension(id as int),
                ));
                WriteOutcome::Inserted(id)
            },
        }
    }

    /// Stores a new consumption record. The id of the draft is ignored;
    /// storage assigns the next one and returns the record as stored.
    pub fn insert_seen(&mut self, draft: seen::Model) -> (stored: seen::Model)
        requires
            old(self)@.wf(),
            old(self)@.seen.len() < i32::MAX,
        ensures
            final(self)@.wf(),
            final(self)@ == old(self)@.with_seen(draft@),
            stored@ == stored_seen(draft@, old(self)@.seen.len() as int + 1),
    {
        let id: i32 = self.seen.len() as i32 + 1;
        let ghost rows = self.seen.deep_view();
        proof {
            lemma_with_seen(self@, draft@);
        }
        let identifier = match &draft.identifier {
            Some(text) => Some(text.clone()),
            None => None,
        };
        let kept = seen::Model {
            id,
            progress: draft.progress,
            started_on: draft.started_on,
            finished_on: draft.finished_on,
            last_updated_on: draft.last_updated_on,
            user_id: draft.user_id,
            metadata_id: draft.metadata_id,
            extra_information: draft.extra_information,
            show_information: draft.show_information,
            podcast_information: draft.podcast_information,
            identifier,
        };
        let stored = seen::Model { id, ..draft };
        assert(kept@ == stored@);
        self.seen.push(kept);
        assert(self.seen.deep_view() =~= rows.push(stored@));
        stored
    }

    /// Tries to store an association. A pair that is stored already is left
    /// as it is and reported as such.
    pub fn associate(&mut self, pair: user_to_metadata::Model) -> (outcome: AssociationOutcome)
        requires
            old(self)@.wf(),
        ensures
            final(self)@.wf(),
            final(self)@ == old(self)@.associate(pair@),
            final(self)@.associated(pair@),
            final(self)@.links_of(pair@) == 1,
            outcome == if old(self)@.associated(pair@) {
                AssociationOutcome::AlreadyExists
            } else {
                AssociationOutcome::Created
            },
    {
        let mut i: usize = 0;
        while i < self.associations.len()
            invariant
                i <= self.associations.len(),
                *self == *old(self),
                self@.wf(),
                forall|j: int| 0 <= j < i ==> (#[trigger] self@.associations[j]) != pair@,
            decreases self.associations.len() - i,
        {
            let row = self.associations[i];
            assert(self@.associations[i as int] == row@);
            if row.user_id == pair.user_id && row.metadata_id == pair.metadata_id {
                assert(self@.associated(pair@));
                proof {
                    lemma_associate(self@, pair@);
                }
                return AssociationOutcome::AlreadyExists;
            }
            i += 1;
        }
        assert(!self@.associated(pair@));
        proof {
            lemma_associate(self@, pair@);
        }
        let ghost rows = self.associations.deep_view();
        self.associations.push(pair);
        assert(self.associations.deep_view() =~= rows.push(pair@));
        AssociationOutcome::Created
    }

    /// The number of shared rows with an identifier.
    pub fn count_with_identifier(&self, identifier: &str) -> (count: usize)
        ensures
            count == self@.rows_with(identifier@),
    {
        let wanted = identifier.to_owned();
        let ghost rows = self@.metadata;
        let mut count: usize = 0;
        let mut i: usize = 0;
        assert(rows.take(0) =~= Seq::<metadata::ModelView>::empty());
        proof {
            lemma_filter_none(rows.take(0), has_identifier(identifier@));
        }
        while i < self.metadata.len()
            invariant
                i <= self.metadata.len(),
                rows == self@.metadata,
                wanted@ == identifier@,
                count <= i,
                count == rows.take(i as int).filter(has_identifier(identifier@)).len(),
            decreases self.metadata.len() - i,
        {
            proof {
                assert(rows.take(i + 1) =~= rows.take(i as int).push(rows[i as int]));
                rows.take(i as int).lemma_filter_push(rows[i as int], has_identifier(identifier@));
                assert(rows[i as int] == self.metadata[i as int]@);
            }
            if self.metadata[i].identifier == wanted {
                count += 1;
            }
            i += 1;
        }
        assert(rows.take(self.metadata.len() as int) =~= rows);
        count
    }

    /// The number of lot-specific rows owned by the shared row with an
    /// internal id.
    pub fn count_extensions_of(&self, id: i32) -> (count: usize)
        ensures
            count == self@.extensions_of(id as int),
    {
        let ghost rows = self@.extensions;
        let mut count: usize = 0;
        let mut i: usize = 0;
        assert(rows.take(0) =~= Seq::<ExtensionRowView>::empty());
        proof {
            lemma_filter_none(rows.take(0), belongs_to(id as int));
        }
        while i < self.extensions.len()
            invariant
                i <= self.extensions.len(),
                rows == self@.extensions,
                count <= i,
                count == rows.take(i as int).filter(belongs_to(id as int)).len(),
            decreases self.extensions.len() - i,
        {
            proof {
                assert(rows.take(i + 1) =~= rows.take(i as int).push(rows[i as int]));
                rows.take(i as int).lemma_filter_push(rows[i as int], belongs_to(id as int));
                assert(rows[i as int] == self.extensions[i as int]@);
            }
            if self.extensions[i].metadata_id == id {
                count += 1;
            }
            i += 1;
        }
        assert(rows.take(self.extensions.len() as int) =~= rows);
        count
    }

    /// The number of stored associations of a user with a media item.
    pub fn count_links_of(&self, pair: user_to_metadata::Model) -> (count: usize)
        ensures
            count == self@.links_of(pair@),
    {
        let ghost rows = self@.associations;
        let mut count: usize = 0;
        let mut i: usize = 0;
        assert(rows.take(0) =~= Seq::<(int, int)>::empty());
        proof {
            lemma_filter_none(rows.take(0), links(pair@));
        }
        while i < self.associations.len()
            invariant
                i <= self.associations.len(),
                rows == self@.associations,
                count <= i,
                count == rows.take(i as int).filter(links(pair@)).len(),
            decreases self.associations.len() - i,
        {
            proof {
                assert(rows.take(i + 1) =~= rows.take(i as int).push(rows[i as int]));
                rows.take(i as int).lemma_filter_push(rows[i as int], links(pair@));
                assert(rows[i as int] == self.associations[i as int]@);
            }
            let row = self.associations[i];
            if row.user_id == pair.user_id && row.metadata_id == pair.metadata_id {
                count += 1;
            }
            i += 1;
        }
        assert(rows.take(self.associations.len() as int) =~= rows);
        count
    }

    /// The number of consumption records.
    pub fn count_seen(&self) -> (count: usize)
        ensures
            count == self@.seen.len(),
    {
        self.seen.len()
    }
}

} // verus!
