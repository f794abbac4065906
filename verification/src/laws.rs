//! What holds of the pipeline as a whole.
//!
//! The decisions of a commit are a function of the last event, and storage
//! is a set of tables with constraints. Put together they form a system in
//! which any number of commits are in flight and take turns in any order.
//! This module states that system and proves what every run of it
//! guarantees.

use crate::entities::seen;
use crate::entities::seen::association_after;
use crate::media::commit::{next_step, CommitEventView, CommitStepView};
use crate::media::resolver::MediaDetailsView;
use crate::migrator::MetadataLot;
use crate::store::{
    lemma_associate, lemma_find_is_row, lemma_one_extension_per_row, lemma_rows_with,
    lemma_with_seen, lemma_write, stored_seen, DatabaseView,
};
use vstd::prelude::*;

verus! {

/// One commit in flight: what it was asked to commit, and the step it is
/// about to take.
pub struct Commit {
    pub identifier: Seq<char>,
    pub lot: MetadataLot,
    pub step: CommitStepView,
}

impl Commit {
    /// A commit that has just begun.
    pub open spec fn begun(identifier: Seq<char>, lot: MetadataLot) -> Commit {
        Commit { identifier, lot, step: next_step(identifier, lot, CommitEventView::Begin) }
    }

    /// Whether the commit has returned to its caller.
    pub open spec fn ended(self) -> bool {
        self.step is Finished || self.step is Failed
    }
}

/// Storage and the commits in flight.
pub struct World {
    pub db: DatabaseView,
    pub commits: Seq<Commit>,
}

/// One turn of the system: the commit `who` takes its step. `fetched` is
/// what the catalog answers if the step asks the catalog; `now` is the time
/// if the step writes.
pub struct Turn {
    pub who: int,
    pub fetched: Option<MediaDetailsView>,
    pub now: int,
}

/// What a commit's step brings when it is carried out against storage.
pub open spec fn event_for(db: DatabaseView, commit: Commit, turn: Turn) -> CommitEventView {
    match commit.step {
        CommitStepView::Lookup => CommitEventView::Looked(db.find(commit.identifier)),
        CommitStepView::Fetch => CommitEventView::Fetched(turn.fetched),
        CommitStepView::Write(plan) => CommitEventView::Written(db.write_result(plan)),
        _ => CommitEventView::Begin,
    }
}

/// Storage after a commit's step was carried out. Only a write changes it,
/// and a write is one transaction.
pub open spec fn db_after(db: DatabaseView, commit: Commit, turn: Turn) -> DatabaseView {
    match commit.step {
        CommitStepView::Write(plan) => db.write(plan, turn.now),
        _ => db,
    }
}

/// The system after one turn. A commit that has ended takes no more steps.
pub open spec fn advance(world: World, turn: Turn) -> World {
    if 0 <= turn.who < world.commits.len() && !world.commits[turn.who].ended() {
        let commit = world.commits[turn.who];
        let event = event_for(world.db, commit, turn);
        World {
            db: db_after(world.db, commit, turn),
            commits: world.commits.update(
                turn.who,
                Commit { step: next_step(commit.identifier, commit.lot, event), ..commit },
            ),
        }
    } else {
        world
    }
}

/// The system after a sequence of turns.
pub open spec fn run(world: World, turns: Seq<Turn>) -> World
    decreases turns.len(),
{
    if turns.len() == 0 {
        world
    } else {
        advance(run(world, turns.drop_last()), turns.last())
    }
}

/// The system before any commit has taken a step: storage is well formed
/// and every commit has just begun.
pub open spec fn fresh(world: World) -> bool {
    &&& world.db.wf()
    &&& forall|k: int|
        0 <= k < world.commits.len() ==> (#[trigger] world.commits[k]).step
            == CommitStepView::Lookup
}

/// The catalog describes the item it was asked about: details that a turn
/// brings carry the identifier of the commit that asked.
pub open spec fn faithful(world: World, turn: Turn) -> bool {
    (0 <= turn.who < world.commits.len() && turn.fetched is Some)
        ==> turn.fetched.unwrap().identifier == world.commits[turn.who].identifier
}

/// Every turn of a sequence is faithful.
pub open spec fn all_faithful(world: World, turns: Seq<Turn>) -> bool {
    forall|t: int| 0 <= t < turns.len() ==> faithful(world, #[trigger] turns[t])
}

/// Storage is well formed and every write that is about to happen writes a
/// payload of the lot of its shared row.
pub open spec fn sound(world: World) -> bool {
    &&& world.db.wf()
    &&& forall|k: int|
        0 <= k < world.commits.len() ==> ((#[trigger] world.commits[k]).step matches CommitStepView::Write(
            plan,
        ) ==> plan.consistent())
}

/// Every commit that has finished holds the id that the identifier index
/// has for its identifier, and every write that is about to happen writes
/// the identifier of its commit.
pub open spec fn settled(world: World) -> bool {
    forall|k: int|
        0 <= k < world.commits.len() ==> match (#[trigger] world.commits[k]).step {
            CommitStepView::Finished(id) => world.db.find(world.commits[k].identifier) == Some(id),
            CommitStepView::Write(plan) => plan.metadata.identifier == world.commits[k].identifier,
            _ => true,
        }
}

/// The commits of two worlds are about the same identifiers and lots.
pub open spec fn same_requests(before: World, after: World) -> bool {
    &&& after.commits.len() == before.commits.len()
    &&& forall|k: int|
        0 <= k < before.commits.len() ==> {
            &&& (#[trigger] after.commits[k]).identifier == before.commits[k].identifier
            &&& after.commits[k].lot == before.commits[k].lot
        }
}

/// One turn keeps the system sound, whatever the catalog answers.
pub proof fn lemma_advance_sound(world: World, turn: Turn)
    requires
        sound(world),
    ensures
        sound(advance(world, turn)),
        same_requests(world, advance(world, turn)),
{
    let after = advance(world, turn);
    if 0 <= turn.who < world.commits.len() && !world.commits[turn.who].ended() {
        let commit = world.commits[turn.who];
        match commit.step {
            CommitStepView::Write(plan) => {
                lemma_write(world.db, plan, turn.now, plan.metadata.identifier);
            },
            _ => {},
        }
        assert forall|k: int| 0 <= k < after.commits.len() implies ((
        #[trigger] after.commits[k]).step matches CommitStepView::Write(plan)
            ==> plan.consistent()) by {
            if k != turn.who {
                assert(after.commits[k] == world.commits[k]);
            }
        }
    }
}

/// One faithful turn keeps the system settled.
pub proof fn lemma_advance_settled(world: World, turn: Turn)
    requires
        sound(world),
        settled(world),
        faithful(world, turn),
    ensures
        settled(advance(world, turn)),
{
    let after = advance(world, turn);
    if 0 <= turn.who < world.commits.len() && !world.commits[turn.who].ended() {
        let commit = world.commits[turn.who];
        assert forall|k: int| 0 <= k < after.commits.len() implies match (
        #[trigger] after.commits[k]).step {
            CommitStepView::Finished(id) => after.db.find(after.commits[k].identifier) == Some(id),
            CommitStepView::Write(plan) => plan.metadata.identifier == after.commits[k].identifier,
            _ => true,
        } by {
            match commit.step {
                CommitStepView::Write(plan) => {
                    lemma_write(world.db, plan, turn.now, world.commits[k].identifier);
                },
                _ => {},
            }
            if k != turn.who {
                assert(after.commits[k] == world.commits[k]);
            }
        }
    }
}

/// Every run keeps the system sound.
pub proof fn lemma_run_sound(world: World, turns: Seq<Turn>)
    requires
        sound(world),
    ensures
        sound(run(world, turns)),
        same_requests(world, run(world, turns)),
    decreases turns.len(),
{
    if turns.len() > 0 {
        lemma_run_sound(world, turns.drop_last());
        lemma_advance_sound(run(world, turns.drop_last()), turns.last());
    }
}

/// Every run with a faithful catalog keeps the system settled.
pub proof fn lemma_run_settled(world: World, turns: Seq<Turn>)
    requires
        sound(world),
        settled(world),
        all_faithful(world, turns),
    ensures
        settled(run(world, turns)),
    decreases turns.len(),
{
    if turns.len() > 0 {
        let earlier = turns.drop_last();
        assert forall|t: int| 0 <= t < earlier.len() implies faithful(
            world,
            #[trigger] earlier[t],
        ) by {
            assert(earlier[t] == turns[t]);
        }
        lemma_run_settled(world, earlier);
        lemma_run_sound(world, earlier);
        assert(faithful(world, turns[turns.len() - 1]));
        lemma_advance_settled(run(world, earlier), turns.last());
    }
}

/// One-to-one extension invariant. However the commits in flight take their
/// turns and whatever the catalog answers, every shared row in storage has
/// exactly one lot-specific row, and that row belongs to the lot of the
/// shared row.
pub proof fn lemma_one_extension_per_commit(world: World, turns: Seq<Turn>, id: int)
    requires
        fresh(world),
        1 <= id <= run(world, turns).db.metadata.len(),
    ensures
        run(world, turns).db.wf(),
        run(world, turns).db.extensions_of(id) == 1,
        run(world, turns).db.extensions[id - 1].metadata_id == id,
        run(world, turns).db.extensions[id - 1].specifics.lot() == run(
            world,
            turns,
        ).db.metadata[id - 1].lot,
        run(world, turns).db.metadata[id - 1].id == id,
{
    lemma_run_sound(world, turns);
    lemma_one_extension_per_row(run(world, turns).db, id);
}

/// Concurrent commit race. Any number of commits of the same identifier,
/// taking their turns in any order, agree: all that finish return the same
/// internal id, and storage holds exactly one shared row for the identifier
/// and exactly one lot-specific row beside it. The catalog must describe the
/// item it is asked about.
pub proof fn lemma_concurrent_commits_agree(world: World, turns: Seq<Turn>, a: int, b: int)
    requires
        fresh(world),
        all_faithful(world, turns),
        0 <= a < world.commits.len(),
        0 <= b < world.commits.len(),
        world.commits[a].identifier == world.commits[b].identifier,
        run(world, turns).commits[a].step is Finished,
        run(world, turns).commits[b].step is Finished,
    ensures
        run(world, turns).commits[a].step == run(world, turns).commits[b].step,
        run(world, turns).db.find(world.commits[a].identifier) == Some(
            run(world, turns).commits[a].step->Finished_0,
        ),
        run(world, turns).db.rows_with(world.commits[a].identifier) == 1,
        run(world, turns).db.extensions_of(run(world, turns).commits[a].step->Finished_0) == 1,
{
    lemma_run_sound(world, turns);
    lemma_run_settled(world, turns);
    let end = run(world, turns);
    let identifier = world.commits[a].identifier;
    assert(end.commits[a].identifier == identifier);
    assert(end.commits[b].identifier == identifier);
    lemma_rows_with(end.db, identifier);
    lemma_find_is_row(end.db, identifier);
    lemma_one_extension_per_row(end.db, end.db.find(identifier).unwrap());
}

/// In every run, storage never holds more than one shared row for an
/// identifier, finished commits or not.
pub proof fn lemma_never_a_duplicate_row(world: World, turns: Seq<Turn>, identifier: Seq<char>)
    requires
        fresh(world),
    ensures
        run(world, turns).db.rows_with(identifier) <= 1,
{
    lemma_run_sound(world, turns);
    lemma_rows_with(run(world, turns).db, identifier);
}

/// The system with a single commit that has just begun.
pub open spec fn solo(db: DatabaseView, identifier: Seq<char>, lot: MetadataLot) -> World {
    World { db, commits: seq![Commit::begun(identifier, lot)] }
}

/// A commit of an identifier that storage holds changes nothing and, once
/// it has taken its first step, has finished with the id in storage.
pub proof fn lemma_recommit_is_a_no_op(
    db: DatabaseView,
    identifier: Seq<char>,
    lot: MetadataLot,
    turns: Seq<Turn>,
)
    requires
        db.find(identifier) is Some,
    ensures
        run(solo(db, identifier, lot), turns).db == db,
        run(solo(db, identifier, lot), turns).commits.len() == 1,
        run(solo(db, identifier, lot), turns).commits[0].identifier == identifier,
        run(solo(db, identifier, lot), turns).commits[0].step == CommitStepView::Lookup || run(
            solo(db, identifier, lot),
            turns,
        ).commits[0].step == CommitStepView::Finished(db.find(identifier).unwrap()),
    decreases turns.len(),
{
    if turns.len() > 0 {
        lemma_recommit_is_a_no_op(db, identifier, lot, turns.drop_last());
    }
}

/// Idempotent commit. When a commit of an identifier has finished with an
/// id, a second commit of the same identifier that returns at all returns
/// that id, and storage after it is what it was before it: exactly one
/// shared row for the identifier and exactly one lot-specific row beside
/// it. The catalog must describe the item it is asked about in the first
/// commit; the second never asks it.
pub proof fn lemma_commit_is_idempotent(
    db: DatabaseView,
    identifier: Seq<char>,
    lot: MetadataLot,
    first: Seq<Turn>,
    second: Seq<Turn>,
)
    requires
        db.wf(),
        all_faithful(solo(db, identifier, lot), first),
        run(solo(db, identifier, lot), first).commits[0].step is Finished,
        run(solo(run(solo(db, identifier, lot), first).db, identifier, lot), second).commits[0].ended(),
    ensures
        run(solo(run(solo(db, identifier, lot), first).db, identifier, lot), second).commits[0].step
            == run(solo(db, identifier, lot), first).commits[0].step,
        run(solo(run(solo(db, identifier, lot), first).db, identifier, lot), second).db == run(
            solo(db, identifier, lot),
            first,
        ).db,
        run(solo(db, identifier, lot), first).db.rows_with(identifier) == 1,
        run(solo(db, identifier, lot), first).db.extensions_of(
            run(solo(db, identifier, lot), first).commits[0].step->Finished_0,
        ) == 1,
{
    let start = solo(db, identifier, lot);
    let once = run(start, first);
    lemma_run_sound(start, first);
    lemma_run_settled(start, first);
    assert(once.commits[0].identifier == identifier);
    lemma_recommit_is_a_no_op(once.db, identifier, lot, second);
    lemma_rows_with(once.db, identifier);
    lemma_find_is_row(once.db, identifier);
    lemma_one_extension_per_row(once.db, once.db.find(identifier).unwrap());
}

/// Storage after a consumption record was saved and the hook that follows
/// an insert was carried out.
pub open spec fn recorded(db: DatabaseView, draft: seen::ModelView) -> DatabaseView {
    let saved = db.with_seen(draft);
    match association_after(stored_seen(draft, db.seen.len() as int + 1), true) {
        Some(pair) => saved.associate(pair),
        None => saved,
    }
}

/// Association idempotence. Recording consumption twice for the same user
/// and media item stores two consumption records and exactly one
/// association. Both attempts to store the association must be carried out;
/// one that fails for a reason other than the pair being stored is dropped
/// by the hook and stores nothing.
pub proof fn lemma_association_is_idempotent(
    db: DatabaseView,
    first: seen::ModelView,
    second: seen::ModelView,
)
    requires
        db.wf(),
        first.user_id == second.user_id,
        first.metadata_id == second.metadata_id,
    ensures
        recorded(recorded(db, first), second).wf(),
        recorded(recorded(db, first), second).seen == db.seen.push(
            stored_seen(first, db.seen.len() as int + 1),
        ).push(stored_seen(second, db.seen.len() as int + 2)),
        recorded(recorded(db, first), second).links_of((first.user_id, first.metadata_id)) == 1,
        recorded(recorded(db, first), second).metadata == db.metadata,
        recorded(recorded(db, first), second).extensions == db.extensions,
{
    let pair = (first.user_id, first.metadata_id);
    lemma_with_seen(db, first);
    lemma_associate(db.with_seen(first), pair);
    let once = recorded(db, first);
    lemma_with_seen(once, second);
    lemma_associate(once.with_seen(second), pair);
}

/// Recording consumption always stores a new record, with the next id, and
/// leaves its user associated with its media item.
pub proof fn lemma_recorded(db: DatabaseView, draft: seen::ModelView)
    requires
        db.wf(),
    ensures
        recorded(db, draft).wf(),
        recorded(db, draft).seen == db.seen.push(stored_seen(draft, db.seen.len() as int + 1)),
        recorded(db, draft).associated((draft.user_id, draft.metadata_id)),
        recorded(db, draft).links_of((draft.user_id, draft.metadata_id)) == 1,
{
    lemma_with_seen(db, draft);
    lemma_associate(db.with_seen(draft), (draft.user_id, draft.metadata_id));
}

} // verus!
