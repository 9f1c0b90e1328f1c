//! The store's schema, and the reading of an `action_items` table's columns.
use vstd::prelude::*;

verus! {

/// Life areas; a name is unique among the active ones.
pub const CREATE_LIFE_AREAS: &'static str = "CREATE TABLE IF NOT EXISTS life_areas (
            id INTEGER PRIMARY KEY AUTOINCREMENT,
            name TEXT NOT NULL,
            description TEXT,
            color TEXT NOT NULL,
            \"order\" INTEGER NOT NULL,
            is_active INTEGER NOT NULL DEFAULT 1,
            created_at INTEGER NOT NULL,
            updated_at INTEGER NOT NULL,
            UNIQUE(name, is_active) ON CONFLICT IGNORE
        )";

/// Scores of life areas, each from 0 to 10.
pub const CREATE_SCORES: &'static str = "CREATE TABLE IF NOT EXISTS scores (
            id INTEGER PRIMARY KEY AUTOINCREMENT,
            area_id INTEGER NOT NULL,
            value INTEGER NOT NULL CHECK(value >= 0 AND value <= 10),
            recorded_at INTEGER NOT NULL,
            FOREIGN KEY(area_id) REFERENCES life_areas(id)
        )";

/// The current shape of `action_items`, created where the table is absent.
pub const CREATE_ACTION_ITEMS_IF_ABSENT: &'static str = "CREATE TABLE IF NOT EXISTS action_items (
            id INTEGER PRIMARY KEY AUTOINCREMENT,
            area_id INTEGER NOT NULL,
            title TEXT NOT NULL,
            created_at INTEGER NOT NULL,
            position INTEGER NOT NULL,
            archived_at INTEGER,
            FOREIGN KEY(area_id) REFERENCES life_areas(id)
        )";

/// The current shape of `action_items`, created in place of a renamed table.
pub const CREATE_ACTION_ITEMS: &'static str = "CREATE TABLE action_items (
            id INTEGER PRIMARY KEY AUTOINCREMENT,
            area_id INTEGER NOT NULL,
            title TEXT NOT NULL,
            created_at INTEGER NOT NULL,
            position INTEGER NOT NULL,
            archived_at INTEGER,
            FOREIGN KEY(area_id) REFERENCES life_areas(id)
        )";

/// The indexes of the store, one statement each.
pub const CREATE_INDEX_SCORES_AREA: &'static str =
    "CREATE INDEX IF NOT EXISTS idx_scores_area_id ON scores(area_id)";

pub const CREATE_INDEX_SCORES_RECORDED: &'static str =
    "CREATE INDEX IF NOT EXISTS idx_scores_recorded_at ON scores(recorded_at)";

pub const CREATE_INDEX_ITEMS_AREA: &'static str =
    "CREATE INDEX IF NOT EXISTS idx_action_items_area_id ON action_items(area_id)";

pub const CREATE_INDEX_ITEMS_POSITION: &'static str =
    "CREATE INDEX IF NOT EXISTS idx_action_items_position ON action_items(position)";

pub const CREATE_INDEX_ITEMS_ARCHIVED: &'static str =
    "CREATE INDEX IF NOT EXISTS idx_action_items_archived ON action_items(archived_at)";

/// The directory under the user's home that holds the store.
pub const DATA_DIR: &'static str = ".roda-da-vida";

/// The store's file in that directory.
pub const DATA_FILE: &'static str = "data.db";

/// Lists the columns of `action_items`, one row per column, the name second.
pub const INSPECT_ACTION_ITEMS: &'static str = "PRAGMA table_info(action_items)";

/// Moves an outdated table aside, under a temporary name.
pub const RENAME_ACTION_ITEMS: &'static str = "ALTER TABLE action_items RENAME TO action_items_old";

/// Inserts one item with its own id, its fields bound in column order.
pub const INSERT_ACTION_ITEM: &'static str =
    "INSERT INTO action_items (id, area_id, title, created_at, position, archived_at)
             VALUES (?1, ?2, ?3, ?4, ?5, ?6)";

/// Removes the renamed table once its rows are copied.
pub const DROP_OLD_ACTION_ITEMS: &'static str = "DROP TABLE action_items_old";

/// The columns of the current shape of `action_items`, in order.
pub open spec fn action_item_columns() -> Seq<Seq<char>> {
    seq![
        "id"@,
        "area_id"@,
        "title"@,
        "created_at"@,
        "position"@,
        "archived_at"@,
    ]
}

/// Which of the columns that later shapes added an `action_items` table has.
#[derive(Debug, Clone, Copy, PartialEq, Eq, Structural)]
pub struct ColumnPresence {
    pub has_position: bool,
    pub has_archived_at: bool,
}

/// Some column of the list has this name.
pub open spec fn has_column(columns: Seq<Seq<char>>, name: Seq<char>) -> bool {
    exists|i: int| 0 <= i < columns.len() && columns[i] == name
}

/// The names of the columns, as character sequences.
pub open spec fn names_of(columns: Seq<String>) -> Seq<Seq<char>> {
    columns.map_values(|c: String| c@)
}

/// Which of the later columns a table with these columns has.
pub open spec fn presence_of(columns: Seq<Seq<char>>) -> ColumnPresence {
    ColumnPresence {
        has_position: has_column(columns, "position"@),
        has_archived_at: has_column(columns, "archived_at"@),
    }
}

/// A table with these columns lags behind the current shape.
pub open spec fn needs_migration(p: ColumnPresence) -> bool {
    !(p.has_position && p.has_archived_at)
}

/// One column of the copy from the old table: read through where the old
/// table has it, else read as NULL under its own name.
pub open spec fn projected(present: bool, name: Seq<char>) -> Seq<char> {
    if present {
        name
    } else {
        "NULL AS "@ + name
    }
}

/// The statement that reads every row of the renamed table in the current
/// column order, by id.
pub open spec fn select_old_rows(p: ColumnPresence) -> Seq<char> {
    "SELECT id, area_id, title, created_at, "@ + projected(p.has_position, "position"@) + ", "@
        + projected(p.has_archived_at, "archived_at"@) + " FROM action_items_old ORDER BY id"@
}

/// Tells whether one of the columns is named `name`.
fn contains_name(columns: &Vec<String>, name: &str) -> (r: bool)
    ensures
        r == has_column(names_of(columns@), name@),
{
    let target = String::from_str(name);
    let mut i: usize = 0;
    while i < columns.len()
        invariant
            i <= columns@.len(),
            target@ == name@,
            forall|t: int| 0 <= t < i ==> columns@[t]@ != name@,
        decreases columns@.len() - i,
    {
        if columns[i] == target {
            assert(names_of(columns@)[i as int] == name@);
            return true;
        }
        i = i + 1;
    }
    assert forall|t: int| 0 <= t < columns@.len() implies names_of(columns@)[t] != name@ by {
        assert(names_of(columns@)[t] == columns@[t]@);
    }
    false
}

/// Reads which of the later columns a table has from the names of its
/// columns.
pub fn detect_columns(columns: &Vec<String>) -> (p: ColumnPresence)
    ensures
        p == presence_of(names_of(columns@)),
{
    ColumnPresence {
        has_position: contains_name(columns, "position"),
        has_archived_at: contains_name(columns, "archived_at"),
    }
}

/// Tells whether a table with these columns lags behind the current shape.
pub fn is_outdated(p: ColumnPresence) -> (r: bool)
    ensures
        r == needs_migration(p),
{
    !(p.has_position && p.has_archived_at)
}

/// Appends one column of the copy, read through or read as NULL.
fn push_projection(sql: &mut String, present: bool, name: &str)
    ensures
        final(sql)@ == old(sql)@ + projected(present, name@),
{
    if !present {
        sql.append("NULL AS ");
    }
    sql.append(name);
    assert(final(sql)@ =~= old(sql)@ + projected(present, name@));
}

/// The statement that copies the renamed table's rows out, each later
/// column read through or read as NULL on its own.
pub fn select_statement(p: ColumnPresence) -> (r: String)
    ensures
        r@ == select_old_rows(p),
{
    let mut sql = String::from_str("SELECT id, area_id, title, created_at, ");
    push_projection(&mut sql, p.has_position, "position");
    sql.append(", ");
    push_projection(&mut sql, p.has_archived_at, "archived_at");
    sql.append(" FROM action_items_old ORDER BY id");
    assert(sql@ =~= select_old_rows(p));
    sql
}

/// The tables that the store must hold, each created where absent; the
/// action items' table is then brought to its current shape.
pub fn baseline_tables() -> (r: Vec<&'static str>)
    ensures
        r@ == seq![CREATE_LIFE_AREAS, CREATE_SCORES, CREATE_ACTION_ITEMS_IF_ABSENT],
{
    let r = vec![CREATE_LIFE_AREAS, CREATE_SCORES, CREATE_ACTION_ITEMS_IF_ABSENT];
    assert(r@ =~= seq![CREATE_LIFE_AREAS, CREATE_SCORES, CREATE_ACTION_ITEMS_IF_ABSENT]);
    r
}

/// The indexes that the store must hold, created once the tables are in
/// their current shape.
pub fn baseline_indexes() -> (r: Vec<&'static str>)
    ensures
        r@ == seq![
            CREATE_INDEX_SCORES_AREA,
            CREATE_INDEX_SCORES_RECORDED,
            CREATE_INDEX_ITEMS_AREA,
            CREATE_INDEX_ITEMS_POSITION,
            CREATE_INDEX_ITEMS_ARCHIVED,
        ],
{
    let r = vec![
        CREATE_INDEX_SCORES_AREA,
        CREATE_INDEX_SCORES_RECORDED,
        CREATE_INDEX_ITEMS_AREA,
        CREATE_INDEX_ITEMS_POSITION,
        CREATE_INDEX_ITEMS_ARCHIVED,
    ];
    assert(r@ =~= seq![
        CREATE_INDEX_SCORES_AREA,
        CREATE_INDEX_SCORES_RECORDED,
        CREATE_INDEX_ITEMS_AREA,
        CREATE_INDEX_ITEMS_POSITION,
        CREATE_INDEX_ITEMS_ARCHIVED,
    ]);
    r
}

/// A table in the current shape needs no migration.
pub proof fn lemma_current_shape_is_current()
    ensures
        !needs_migration(presence_of(action_item_columns())),
{
    assert(action_item_columns()[4] == "position"@);
    assert(action_item_columns()[5] == "archived_at"@);
}

} // verus!
