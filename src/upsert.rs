use vstd::prelude::*;
use vstd::string::*;

use crate::error::LanceError;
use crate::predicate::{key_predicate, key_predicate_spec};
use crate::table::{
    apply_write, finish_write, key_count, lemma_store_leaves_one, plan_write_spec, remove_key,
    store_effect, RowView, WritePlan,
};

verus! {

/// Where a store of one record stands.
#[derive(Debug, Clone, Copy, PartialEq, Eq, Structural)]
pub enum StoreStage {
    /// The table was asked to open, so that the old row of the key can be deleted.
    CheckingOld,
    /// The old row of the key is being deleted; the outcome does not matter.
    DeletingOld,
    /// The table names are being listed.
    Listing,
    /// The listed table is being opened for the append.
    Reopening,
    /// The listed table did not open and is being dropped.
    Dropping,
    /// The record is being written by the plan.
    Writing(WritePlan),
    /// The store has answered.
    Finished,
}

/// What the storage engine reports on the last action.
#[derive(Debug, Clone)]
pub enum StoreEvent {
    Opened,
    OpenFailed,
    Listed(bool),
    ListFailed(String),
    Succeeded,
    Failed(String),
}

/// What the caller is to do next against the storage engine.
#[derive(Debug)]
pub enum StoreAction {
    OpenTable,
    DeleteWhere(String),
    ListTables,
    AppendRow,
    DropTable,
    CreateTable,
    Finish(Result<(), LanceError>),
}

/// The stage that follows `stage` on the report `event`.
pub open spec fn next_stage(stage: StoreStage, event: StoreEvent) -> StoreStage {
    match (stage, event) {
        (StoreStage::CheckingOld, StoreEvent::Opened) => StoreStage::DeletingOld,
        (StoreStage::CheckingOld, StoreEvent::OpenFailed) => StoreStage::Listing,
        (StoreStage::DeletingOld, StoreEvent::Succeeded) => StoreStage::Listing,
        (StoreStage::DeletingOld, StoreEvent::Failed(_)) => StoreStage::Listing,
        (StoreStage::Listing, StoreEvent::Listed(exists)) => if exists {
            StoreStage::Reopening
        } else {
            StoreStage::Writing(plan_write_spec(false, false))
        },
        (StoreStage::Reopening, StoreEvent::Opened) => StoreStage::Writing(plan_write_spec(true, true)),
        (StoreStage::Reopening, StoreEvent::OpenFailed) => StoreStage::Dropping,
        (StoreStage::Dropping, StoreEvent::Succeeded) => StoreStage::Writing(plan_write_spec(true, false)),
        _ => StoreStage::Finished,
    }
}

/// What the action taken in `stage` did to the table's rows, as the engine reported it by
/// `event`, for a store of `row`. A delete by the key's predicate removes the rows of that
/// key, a drop removes the table, a write runs its plan.
pub open spec fn action_effect(
    stage: StoreStage,
    event: StoreEvent,
    rows: Seq<RowView>,
    row: RowView,
) -> Seq<RowView> {
    match (stage, event) {
        (StoreStage::DeletingOld, StoreEvent::Succeeded) => remove_key(rows, row.key),
        (StoreStage::Dropping, StoreEvent::Succeeded) => Seq::empty(),
        (StoreStage::Writing(plan), StoreEvent::Succeeded) => apply_write(plan, rows, row),
        _ => rows,
    }
}

/// The reports of an engine on which the table's state holds still during a store: it
/// opens the table both times or neither, lists it where it exists, and every delete,
/// drop and write succeeds.
pub open spec fn steady_reports(table_exists: bool, table_opens: bool) -> Seq<StoreEvent> {
    if !table_exists {
        seq![StoreEvent::OpenFailed, StoreEvent::Listed(false), StoreEvent::Succeeded]
    } else if table_opens {
        seq![
            StoreEvent::Opened,
            StoreEvent::Succeeded,
            StoreEvent::Listed(true),
            StoreEvent::Opened,
            StoreEvent::Succeeded,
        ]
    } else {
        seq![
            StoreEvent::OpenFailed,
            StoreEvent::Listed(true),
            StoreEvent::OpenFailed,
            StoreEvent::Succeeded,
            StoreEvent::Succeeded,
        ]
    }
}

/// The stage and the rows after the reports `events`, from `stage` and `rows`.
pub open spec fn run_reports(
    stage: StoreStage,
    events: Seq<StoreEvent>,
    rows: Seq<RowView>,
    row: RowView,
) -> (StoreStage, Seq<RowView>)
    decreases events.len(),
{
    if events.len() == 0 {
        (stage, rows)
    } else {
        run_reports(
            next_stage(stage, events[0]),
            events.skip(1),
            action_effect(stage, events[0], rows, row),
            row,
        )
    }
}

/// A store run on an engine whose table holds still answers once the reports are in,
/// and leaves the rows that the upsert model gives: exactly one row with the key, the
/// record just written.
pub proof fn lemma_steady_run_upserts(
    rows: Seq<RowView>,
    table_exists: bool,
    table_opens: bool,
    row: RowView,
)
    requires
        !table_exists ==> rows.len() == 0,
    ensures
        run_reports(StoreStage::CheckingOld, steady_reports(table_exists, table_opens), rows, row)
            == (StoreStage::Finished, store_effect(rows, table_exists, table_opens, row)),
        key_count(
            run_reports(StoreStage::CheckingOld, steady_reports(table_exists, table_opens), rows, row).1,
            row.key,
        ) == 1,
{
    let ev = steady_reports(table_exists, table_opens);
    reveal_with_fuel(run_reports, 6);
    if !table_exists {
        assert(ev.skip(1).skip(1).skip(1) =~= Seq::<StoreEvent>::empty());
        assert(ev.skip(1) =~= seq![StoreEvent::Listed(false), StoreEvent::Succeeded]);
        assert(ev.skip(1).skip(1) =~= seq![StoreEvent::Succeeded]);
    } else if table_opens {
        assert(ev.skip(1) =~= seq![StoreEvent::Succeeded, StoreEvent::Listed(true), StoreEvent::Opened, StoreEvent::Succeeded]);
        assert(ev.skip(1).skip(1) =~= seq![StoreEvent::Listed(true), StoreEvent::Opened, StoreEvent::Succeeded]);
        assert(ev.skip(1).skip(1).skip(1) =~= seq![StoreEvent::Opened, StoreEvent::Succeeded]);
        assert(ev.skip(1).skip(1).skip(1).skip(1) =~= seq![StoreEvent::Succeeded]);
        assert(ev.skip(1).skip(1).skip(1).skip(1).skip(1) =~= Seq::<StoreEvent>::empty());
    } else {
        assert(ev.skip(1) =~= seq![StoreEvent::Listed(true), StoreEvent::OpenFailed, StoreEvent::Succeeded, StoreEvent::Succeeded]);
        assert(ev.skip(1).skip(1) =~= seq![StoreEvent::OpenFailed, StoreEvent::Succeeded, StoreEvent::Succeeded]);
        assert(ev.skip(1).skip(1).skip(1) =~= seq![StoreEvent::Succeeded, StoreEvent::Succeeded]);
        assert(ev.skip(1).skip(1).skip(1).skip(1) =~= seq![StoreEvent::Succeeded]);
        assert(ev.skip(1).skip(1).skip(1).skip(1).skip(1) =~= Seq::<StoreEvent>::empty());
    }
    lemma_store_leaves_one(rows, table_exists, table_opens, row);
}

/// The decisions of a store of the record with key `key`: delete its old row where the
/// table opens, then create, append to, or drop and recreate the table.
pub struct UpsertRun {
    stage: StoreStage,
    key: String,
}

impl UpsertRun {
    pub closed spec fn stage_view(&self) -> StoreStage {
        self.stage
    }

    pub closed spec fn key_view(&self) -> Seq<char> {
        self.key@
    }

    /// Starts a store of `key`: the first action opens the table.
    pub fn begin(key: String) -> (r: (UpsertRun, StoreAction))
        ensures
            r.0.stage_view() == StoreStage::CheckingOld,
            r.0.key_view() == key@,
            r.1 is OpenTable,
    {
        (UpsertRun { stage: StoreStage::CheckingOld, key }, StoreAction::OpenTable)
    }

    pub fn stage(&self) -> (r: StoreStage)
        ensures
            r == self.stage_view(),
    {
        self.stage
    }

    /// Takes the engine's report on the last action and returns the next action.
    pub fn step(&mut self, event: StoreEvent) -> (r: StoreAction)
        ensures
            final(self).key_view() == old(self).key_view(),
            final(self).stage_view() == next_stage(old(self).stage_view(), event),
            r is Finish <==> final(self).stage_view() == StoreStage::Finished,
            old(self).stage_view() == StoreStage::CheckingOld && event is Opened ==> (
                final(self).stage_view() == StoreStage::DeletingOld
                && (r matches StoreAction::DeleteWhere(p)
                && p@ == key_predicate_spec(old(self).key_view()))),
            old(self).stage_view() == StoreStage::CheckingOld && event is OpenFailed ==> (
                final(self).stage_view() == StoreStage::Listing && r is ListTables),
            old(self).stage_view() == StoreStage::DeletingOld && (event is Succeeded
                || event is Failed) ==> (final(self).stage_view() == StoreStage::Listing
                && r is ListTables),
            old(self).stage_view() == StoreStage::Listing && event == StoreEvent::Listed(false)
                ==> (final(self).stage_view() == StoreStage::Writing(WritePlan::CreateTable)
                && r is CreateTable),
            old(self).stage_view() == StoreStage::Listing && event == StoreEvent::Listed(true)
                ==> (final(self).stage_view() == StoreStage::Reopening && r is OpenTable),
            old(self).stage_view() == StoreStage::Listing && event is ListFailed ==> (
                r matches StoreAction::Finish(Err(e))
                && e is TableError && e.message_view() == event->ListFailed_0@),
            old(self).stage_view() == StoreStage::Reopening && event is Opened ==> (
                final(self).stage_view() == StoreStage::Writing(WritePlan::AppendToTable)
                && r is AppendRow),
            old(self).stage_view() == StoreStage::Reopening && event is OpenFailed ==> (
                final(self).stage_view() == StoreStage::Dropping && r is DropTable),
            old(self).stage_view() == StoreStage::Dropping && event is Succeeded ==> (
                final(self).stage_view() == StoreStage::Writing(WritePlan::RecreateTable)
                && r is CreateTable),
            old(self).stage_view() == StoreStage::Dropping && event is Failed ==> (
                r matches StoreAction::Finish(Err(e))
                && e is TableError && e.message_view() == event->Failed_0@),
            old(self).stage_view() is Writing && event is Succeeded
                ==> r matches StoreAction::Finish(Ok(())),
            old(self).stage_view() is Writing && event is Failed ==> (
                r matches StoreAction::Finish(Err(e))
                && e.message_view() == event->Failed_0@
                && (if old(self).stage_view()->Writing_0 == WritePlan::AppendToTable {
                    e is InsertError
                } else {
                    e is TableError
                })),
    {
        let stage = self.stage;
        let (next, action) = match (stage, event) {
            (StoreStage::CheckingOld, StoreEvent::Opened) => {
                (StoreStage::DeletingOld, StoreAction::DeleteWhere(key_predicate(self.key.as_str())))
            },
            (StoreStage::CheckingOld, StoreEvent::OpenFailed) => (StoreStage::Listing, StoreAction::ListTables),
            (StoreStage::DeletingOld, StoreEvent::Succeeded) => (StoreStage::Listing, StoreAction::ListTables),
            (StoreStage::DeletingOld, StoreEvent::Failed(_)) => (StoreStage::Listing, StoreAction::ListTables),
            (StoreStage::Listing, StoreEvent::Listed(exists)) => {
                if exists {
                    (StoreStage::Reopening, StoreAction::OpenTable)
                } else {
                    (StoreStage::Writing(WritePlan::CreateTable), StoreAction::CreateTable)
                }
            },
            (StoreStage::Listing, StoreEvent::ListFailed(message)) => {
                (StoreStage::Finished, StoreAction::Finish(Err(LanceError::TableError { message })))
            },
            (StoreStage::Reopening, StoreEvent::Opened) => {
                (StoreStage::Writing(WritePlan::AppendToTable), StoreAction::AppendRow)
            },
            (StoreStage::Reopening, StoreEvent::OpenFailed) => (StoreStage::Dropping, StoreAction::DropTable),
            (StoreStage::Dropping, StoreEvent::Succeeded) => {
                (StoreStage::Writing(WritePlan::RecreateTable), StoreAction::CreateTable)
            },
            (StoreStage::Dropping, StoreEvent::Failed(message)) => {
                (StoreStage::Finished, StoreAction::Finish(Err(LanceError::TableError { message })))
            },
            (StoreStage::Writing(plan), StoreEvent::Succeeded) => {
                (StoreStage::Finished, StoreAction::Finish(finish_write(plan, Ok(()))))
            },
            (StoreStage::Writing(plan), StoreEvent::Failed(message)) => {
                (StoreStage::Finished, StoreAction::Finish(finish_write(plan, Err(message))))
            },
            _ => {
                let message = String::from_str("unexpected report from the storage engine");
                (StoreStage::Finished, StoreAction::Finish(Err(LanceError::TableError { message })))
            },
        };
        self.stage = next;
        action
    }
}

} // verus!
