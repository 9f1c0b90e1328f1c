//! The migration of `action_items` to its current shape, as a state machine.
//!
//! The machine decides and the caller talks to the store: each action names
//! one statement to run, and the caller hands back what the store answered.
//! A pass reads the table's columns; if the table lags behind, it renames
//! it to `action_items_old`, creates the table anew, reads the old rows,
//! inserts them one by one with the backfilled columns, and drops the old
//! table. The first failure ends the pass with an error naming its stage.
use crate::backfill::{backfill_positions, check_positions_fit, is_migration_of, positions_fit};
use crate::models::{ActionItem, OldRow};
use crate::schema::{
    action_item_columns, detect_columns, is_outdated, lemma_current_shape_is_current, names_of, needs_migration, presence_of, select_old_rows,
    select_statement, ColumnPresence, CREATE_ACTION_ITEMS, DROP_OLD_ACTION_ITEMS,
    INSPECT_ACTION_ITEMS, RENAME_ACTION_ITEMS,
};
use vstd::prelude::*;

verus! {

/// Where a migration pass stands.
#[derive(Debug, Clone, Copy, PartialEq, Eq, Structural)]
pub enum Stage {
    Inspecting,
    Renaming,
    Creating,
    Selecting,
    Inserting,
    Dropping,
    Finished,
    Aborted,
}

/// Why a migration pass stopped.
#[derive(Debug, Clone)]
pub enum MigrationError {
    /// The store failed the statement of this stage, with its own words.
    Store { stage: Stage, detail: String },
    /// An explicit position lies so high that the rows without one cannot
    /// be numbered after it in an `i64`.
    PositionOverflow,
    /// The store's answer does not fit the statement of this stage.
    UnexpectedReply { stage: Stage },
}

/// What the store answered to the last action.
#[derive(Debug, Clone)]
pub enum StoreReply {
    /// The names of the table's columns.
    Columns(Vec<String>),
    /// The rows that a select read.
    Rows(Vec<OldRow>),
    /// The statement ran.
    Done,
    /// The statement failed, with the store's message.
    Failed(String),
}

/// What the caller is to do next.
#[derive(Debug, Clone)]
pub enum MigrationAction {
    /// Run this statement and answer with the names of the columns.
    ReadColumns(String),
    /// Run this statement and answer `Done`.
    Execute(String),
    /// Run this select and answer with the rows, read as `OldRow`.
    ReadRows(String),
    /// Insert this item with its own id, then answer `Done`.
    Insert(ActionItem),
    /// The table is in its current shape: nothing more to do.
    Finished,
    /// The pass stopped.
    Failed(MigrationError),
}

/// The state of one migration pass.
pub struct Migrator {
    stage: Stage,
    presence: ColumnPresence,
    pending: Vec<ActionItem>,
    next: usize,
}

/// The stage that a reply answers, and the reply's shape.
pub open spec fn answers(stage: Stage, reply: StoreReply) -> bool {
    match stage {
        Stage::Inspecting => reply is Columns,
        Stage::Selecting => reply is Rows,
        Stage::Renaming | Stage::Creating | Stage::Inserting | Stage::Dropping => reply is Done,
        Stage::Finished | Stage::Aborted => false,
    }
}

/// A pass in this stage has ended.
pub open spec fn is_terminal(stage: Stage) -> bool {
    stage == Stage::Finished || stage == Stage::Aborted
}

/// The action runs exactly this statement.
pub open spec fn executes(a: MigrationAction, sql: Seq<char>) -> bool {
    a is Execute && a->Execute_0@ == sql
}

impl Migrator {
    /// Where the pass stands.
    pub closed spec fn stage(&self) -> Stage {
        self.stage
    }

    /// Which later columns the table had when the pass read it.
    pub closed spec fn presence(&self) -> ColumnPresence {
        self.presence
    }

    /// The rows to insert, in the current shape.
    pub closed spec fn pending(&self) -> Seq<ActionItem> {
        self.pending@
    }

    /// How many of the pending rows have been handed out for insertion.
    pub closed spec fn handed_out(&self) -> nat {
        self.next as nat
    }

    /// The count of handed-out rows stays within the pending rows.
    pub closed spec fn wf(&self) -> bool {
        self.next <= self.pending@.len()
    }

    /// The state after `reply` moved `before` on to `after` with action `a`.
    pub open spec fn transition(
        before: Migrator,
        reply: StoreReply,
        after: Migrator,
        a: MigrationAction,
    ) -> bool {
        if is_terminal(before.stage()) {
            &&& after.stage() == before.stage()
            &&& before.stage() == Stage::Finished ==> a is Finished
            &&& before.stage() == Stage::Aborted ==> a == MigrationAction::Failed(
                MigrationError::UnexpectedReply { stage: Stage::Aborted },
            )
        } else if reply is Failed {
            &&& after.stage() == Stage::Aborted
            &&& a == MigrationAction::Failed(
                MigrationError::Store { stage: before.stage(), detail: reply->Failed_0 },
            )
        } else if !answers(before.stage(), reply) {
            &&& after.stage() == Stage::Aborted
            &&& a == MigrationAction::Failed(
                MigrationError::UnexpectedReply { stage: before.stage() },
            )
        } else {
            match before.stage() {
                Stage::Inspecting => {
                    let p = presence_of(names_of(reply->Columns_0@));
                    if needs_migration(p) {
                        &&& after.stage() == Stage::Renaming
                        &&& after.presence() == p
                        &&& executes(a, RENAME_ACTION_ITEMS@)
                    } else {
                        &&& after.stage() == Stage::Finished
                        &&& a is Finished
                    }
                },
                Stage::Renaming => {
                    &&& after.stage() == Stage::Creating
                    &&& after.presence() == before.presence()
                    &&& executes(a, CREATE_ACTION_ITEMS@)
                },
                Stage::Creating => {
                    &&& after.stage() == Stage::Selecting
                    &&& after.presence() == before.presence()
                    &&& a is ReadRows
                    &&& a->ReadRows_0@ == select_old_rows(before.presence())
                },
                Stage::Selecting => {
                    let rows = reply->Rows_0@;
                    if !positions_fit(rows) {
                        &&& after.stage() == Stage::Aborted
                        &&& a == MigrationAction::Failed(MigrationError::PositionOverflow)
                    } else if rows.len() == 0 {
                        &&& after.stage() == Stage::Dropping
                        &&& is_migration_of(after.pending(), rows)
                        &&& executes(a, DROP_OLD_ACTION_ITEMS@)
                    } else {
                        &&& after.stage() == Stage::Inserting
                        &&& is_migration_of(after.pending(), rows)
                        &&& after.handed_out() == 1
                        &&& a == MigrationAction::Insert(after.pending()[0])
                    }
                },
                Stage::Inserting => {
                    if before.handed_out() < before.pending().len() {
                        &&& after.stage() == Stage::Inserting
                        &&& after.pending() == before.pending()
                        &&& after.handed_out() == before.handed_out() + 1
                        &&& a == MigrationAction::Insert(before.pending()[before.handed_out() as int])
                    } else {
                        &&& after.stage() == Stage::Dropping
                        &&& after.pending() == before.pending()
                        &&& executes(a, DROP_OLD_ACTION_ITEMS@)
                    }
                },
                _ => {
                    &&& after.stage() == Stage::Finished
                    &&& a is Finished
                },
            }
        }
    }

    /// Begins a pass: the first action reads the columns of `action_items`.
    pub fn start() -> (r: (Migrator, MigrationAction))
        ensures
            r.0.wf(),
            r.0.stage() == Stage::Inspecting,
            r.1 is ReadColumns,
            r.1->ReadColumns_0@ == INSPECT_ACTION_ITEMS@,
    {
        let m = Migrator {
            stage: Stage::Inspecting,
            presence: ColumnPresence { has_position: false, has_archived_at: false },
            pending: Vec::new(),
            next: 0,
        };
        (m, MigrationAction::ReadColumns(String::from_str(INSPECT_ACTION_ITEMS)))
    }

    /// Where the pass stands.
    pub fn current_stage(&self) -> (r: Stage)
        ensures
            r == self.stage(),
    {
        self.stage
    }

    /// Ends the pass with `error`.
    fn abort(&mut self, error: MigrationError) -> (a: MigrationAction)
        requires
            old(self).wf(),
        ensures
            final(self).wf(),
            final(self).stage() == Stage::Aborted,
            a == MigrationAction::Failed(error),
    {
        self.stage = Stage::Aborted;
        MigrationAction::Failed(error)
    }

    /// Asks for the renamed table to be dropped.
    fn drop_old(&mut self) -> (a: MigrationAction)
        requires
            old(self).wf(),
        ensures
            final(self).wf(),
            final(self).stage() == Stage::Dropping,
            final(self).pending() == old(self).pending(),
            executes(a, DROP_OLD_ACTION_ITEMS@),
    {
        self.stage = Stage::Dropping;
        MigrationAction::Execute(String::from_str(DROP_OLD_ACTION_ITEMS))
    }

    /// Hands out the next pending row for insertion.
    fn insert_next(&mut self) -> (a: MigrationAction)
        requires
            old(self).wf(),
            old(self).handed_out() < old(self).pending().len(),
        ensures
            final(self).wf(),
            final(self).stage() == Stage::Inserting,
            final(self).pending() == old(self).pending(),
            final(self).handed_out() == old(self).handed_out() + 1,
            a == MigrationAction::Insert(old(self).pending()[old(self).handed_out() as int]),
    {
        let item = copy_item(&self.pending[self.next]);
        assert(self.next < self.pending.len());
        self.next = self.next + 1;
        self.stage = Stage::Inserting;
        MigrationAction::Insert(item)
    }

    /// Takes the store's answer to the last action and says what to do next.
    pub fn advance(&mut self, reply: StoreReply) -> (a: MigrationAction)
        requires
            old(self).wf(),
        ensures
            final(self).wf(),
            Migrator::transition(*old(self), reply, *final(self), a),
    {
        let stage = self.stage;
        match stage {
            Stage::Finished => {
                return MigrationAction::Finished;
            },
            Stage::Aborted => {
                return MigrationAction::Failed(
                    MigrationError::UnexpectedReply { stage: Stage::Aborted },
                );
            },
            _ => {},
        }
        match reply {
            StoreReply::Failed(detail) => self.abort(MigrationError::Store { stage, detail }),
            StoreReply::Columns(columns) => {
                if stage != Stage::Inspecting {
                    return self.abort(MigrationError::UnexpectedReply { stage });
                }
                let p = detect_columns(&columns);
                if is_outdated(p) {
                    self.presence = p;
                    self.stage = Stage::Renaming;
                    MigrationAction::Execute(String::from_str(RENAME_ACTION_ITEMS))
                } else {
                    self.stage = Stage::Finished;
                    MigrationAction::Finished
                }
            },
            StoreReply::Rows(rows) => {
                if stage != Stage::Selecting {
                    return self.abort(MigrationError::UnexpectedReply { stage });
                }
                if !check_positions_fit(&rows) {
                    return self.abort(MigrationError::PositionOverflow);
                }
                self.pending = backfill_positions(&rows);
                self.next = 0;
                if self.pending.len() == 0 {
                    self.drop_old()
                } else {
                    self.insert_next()
                }
            },
            StoreReply::Done => {
                match stage {
                    Stage::Renaming => {
                        self.stage = Stage::Creating;
                        MigrationAction::Execute(String::from_str(CREATE_ACTION_ITEMS))
                    },
                    Stage::Creating => {
                        self.stage = Stage::Selecting;
                        MigrationAction::ReadRows(select_statement(self.presence))
                    },
                    Stage::Inserting => {
                        if self.next < self.pending.len() {
                            self.insert_next()
                        } else {
                            self.drop_old()
                        }
                    },
                    Stage::Dropping => {
                        self.stage = Stage::Finished;
                        MigrationAction::Finished
                    },
                    _ => self.abort(MigrationError::UnexpectedReply { stage }),
                }
            },
        }
    }
}

/// A copy of `item`, field by field.
pub fn copy_item(item: &ActionItem) -> (r: ActionItem)
    ensures
        r == *item,
{
    ActionItem {
        id: item.id,
        area_id: item.area_id,
        title: item.title.clone(),
        created_at: item.created_at,
        position: item.position,
        archived_at: item.archived_at,
    }
}

/// A second pass over a table that is already in its current shape changes
/// nothing: after reading the columns it finishes, with no rename, create,
/// insert or drop.
pub proof fn lemma_rerun_is_noop(
    before: Migrator,
    columns: Vec<String>,
    after: Migrator,
    a: MigrationAction,
)
    requires
        before.stage() == Stage::Inspecting,
        names_of(columns@) == action_item_columns(),
        Migrator::transition(before, StoreReply::Columns(columns), after, a),
    ensures
        after.stage() == Stage::Finished,
        a is Finished,
{
    lemma_current_shape_is_current();
}

} // verus!
