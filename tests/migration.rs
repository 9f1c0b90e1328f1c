use roda_da_vida::backfill::{backfill_positions, check_positions_fit};
use roda_da_vida::migrator::{MigrationAction, MigrationError, Migrator, Stage, StoreReply};
use roda_da_vida::models::{ActionItem, OldRow};
use roda_da_vida::schema::{
    baseline_indexes, baseline_tables, detect_columns, is_outdated, select_statement,
    ColumnPresence, CREATE_ACTION_ITEMS, CREATE_ACTION_ITEMS_IF_ABSENT, CREATE_INDEX_ITEMS_ARCHIVED,
    CREATE_LIFE_AREAS, CREATE_SCORES, DROP_OLD_ACTION_ITEMS, INSPECT_ACTION_ITEMS,
    RENAME_ACTION_ITEMS,
};

fn row(id: i64, created_at: i64, position: Option<i64>) -> OldRow {
    OldRow {
        id,
        area_id: 7,
        title: format!("item {}", id),
        created_at,
        position,
        archived_at: None,
    }
}

fn names(cols: &[&str]) -> Vec<String> {
    cols.iter().map(|c| c.to_string()).collect()
}

fn position_of(items: &[ActionItem], id: i64) -> i64 {
    items.iter().find(|i| i.id == id).expect("id kept").position
}

/// What a pass did against a store that answers every statement with success.
struct Pass {
    executed: Vec<String>,
    inserted: Vec<ActionItem>,
    finished: bool,
}

fn run_pass(columns: Vec<String>, rows: Vec<OldRow>) -> Pass {
    let (mut m, first) = Migrator::start();
    assert!(matches!(first, MigrationAction::ReadColumns(ref s) if s == INSPECT_ACTION_ITEMS));
    let mut pass = Pass { executed: Vec::new(), inserted: Vec::new(), finished: false };
    let mut action = m.advance(StoreReply::Columns(columns));
    let mut rows = Some(rows);
    loop {
        action = match action {
            MigrationAction::Execute(sql) => {
                pass.executed.push(sql);
                m.advance(StoreReply::Done)
            }
            MigrationAction::ReadRows(sql) => {
                pass.executed.push(sql);
                m.advance(StoreReply::Rows(rows.take().expect("rows read once")))
            }
            MigrationAction::Insert(item) => {
                pass.inserted.push(item);
                m.advance(StoreReply::Done)
            }
            MigrationAction::Finished => {
                pass.finished = true;
                break;
            }
            MigrationAction::ReadColumns(_) | MigrationAction::Failed(_) => break,
        };
    }
    pass
}

fn current_columns() -> Vec<String> {
    names(&["id", "area_id", "title", "created_at", "position", "archived_at"])
}

#[test]
fn no_position_column_orders_by_creation() {
    let rows = vec![row(1, 100, None), row(2, 200, None), row(3, 150, None)];
    let items = backfill_positions(&rows);
    assert_eq!(position_of(&items, 1), 0);
    assert_eq!(position_of(&items, 3), 1);
    assert_eq!(position_of(&items, 2), 2);

    let pass = run_pass(names(&["id", "area_id", "title", "created_at"]), rows);
    assert!(pass.finished);
    assert_eq!(position_of(&pass.inserted, 1), 0);
    assert_eq!(position_of(&pass.inserted, 3), 1);
    assert_eq!(position_of(&pass.inserted, 2), 2);
    assert!(pass.inserted.iter().all(|i| i.archived_at.is_none()));
}

#[test]
fn explicit_positions_kept_and_gap_filled() {
    let rows = vec![row(1, 10, Some(5)), row(2, 20, Some(0)), row(3, 30, None)];
    let items = backfill_positions(&rows);
    assert_eq!(position_of(&items, 1), 5);
    assert_eq!(position_of(&items, 2), 0);
    assert_eq!(position_of(&items, 3), 6);
}

#[test]
fn unpositioned_rows_come_after_every_explicit_one() {
    let rows = vec![row(1, 500, None), row(2, 1, Some(3)), row(3, 100, None), row(4, 2, Some(-4))];
    let items = backfill_positions(&rows);
    assert_eq!(position_of(&items, 2), 3);
    assert_eq!(position_of(&items, 4), -4);
    assert_eq!(position_of(&items, 3), 4);
    assert_eq!(position_of(&items, 1), 5);
}

#[test]
fn equal_creation_times_are_ordered_by_id() {
    let rows = vec![row(9, 100, None), row(4, 100, None), row(6, 100, None)];
    let items = backfill_positions(&rows);
    assert_eq!(position_of(&items, 4), 0);
    assert_eq!(position_of(&items, 6), 1);
    assert_eq!(position_of(&items, 9), 2);
}

#[test]
fn negative_positions_leave_the_counter_at_zero() {
    let rows = vec![row(1, 10, Some(-3)), row(2, 20, None)];
    let items = backfill_positions(&rows);
    assert_eq!(position_of(&items, 1), -3);
    assert_eq!(position_of(&items, 2), 0);
}

#[test]
fn empty_table_backfills_to_nothing() {
    let rows: Vec<OldRow> = Vec::new();
    assert!(backfill_positions(&rows).is_empty());
    let pass = run_pass(names(&["id", "area_id", "title", "created_at"]), rows);
    assert!(pass.finished);
    assert!(pass.inserted.is_empty());
    assert_eq!(pass.executed.last().map(|s| s.as_str()), Some(DROP_OLD_ACTION_ITEMS));
}

#[test]
fn current_table_is_left_alone() {
    let (mut m, _) = Migrator::start();
    let action = m.advance(StoreReply::Columns(current_columns()));
    assert!(matches!(action, MigrationAction::Finished));
    assert_eq!(m.current_stage(), Stage::Finished);
    let pass = run_pass(current_columns(), vec![row(1, 1, Some(0))]);
    assert!(pass.finished);
    assert!(pass.executed.is_empty());
    assert!(pass.inserted.is_empty());
}

#[test]
fn second_pass_after_migration_changes_nothing() {
    let rows = vec![row(1, 100, None), row(2, 50, Some(2))];
    let first = run_pass(names(&["id", "area_id", "title", "created_at", "position"]), rows);
    assert!(first.finished);
    assert_eq!(first.inserted.len(), 2);
    // The table that the first pass created has the current columns.
    assert!(first.executed.iter().any(|s| s == CREATE_ACTION_ITEMS));
    let second = run_pass(current_columns(), Vec::new());
    assert!(second.finished);
    assert!(second.executed.is_empty());
    assert!(second.inserted.is_empty());
}

#[test]
fn migration_keeps_identity_of_every_row() {
    let rows = vec![row(11, 300, None), row(12, 100, Some(1)), row(13, 200, None)];
    let pass = run_pass(names(&["id", "area_id", "title", "created_at", "position"]), rows.clone());
    assert_eq!(pass.inserted.len(), rows.len());
    for (old, new) in rows.iter().zip(pass.inserted.iter()) {
        assert_eq!(old.id, new.id);
        assert_eq!(old.area_id, new.area_id);
        assert_eq!(old.title, new.title);
        assert_eq!(old.created_at, new.created_at);
    }
}

#[test]
fn migrated_positions_are_unique() {
    let rows = vec![
        row(1, 40, None),
        row(2, 10, Some(2)),
        row(3, 30, None),
        row(4, 20, Some(7)),
        row(5, 30, None),
    ];
    let items = backfill_positions(&rows);
    let mut positions: Vec<i64> = items.iter().map(|i| i.position).collect();
    positions.sort();
    positions.dedup();
    assert_eq!(positions.len(), rows.len());
    assert!(position_of(&items, 2) < position_of(&items, 4));
}

#[test]
fn two_runs_assign_the_same_positions() {
    let rows = vec![row(1, 40, None), row(2, 10, Some(2)), row(3, 30, None)];
    let a = backfill_positions(&rows);
    let b = backfill_positions(&rows.clone());
    let pa: Vec<i64> = a.iter().map(|i| i.position).collect();
    let pb: Vec<i64> = b.iter().map(|i| i.position).collect();
    assert_eq!(pa, pb);
    assert_eq!(pa, vec![4, 2, 3]);
}

#[test]
fn archived_time_is_copied_where_present() {
    let mut r = row(1, 10, Some(0));
    r.archived_at = Some(99);
    let items = backfill_positions(&vec![r, row(2, 20, Some(1))]);
    assert_eq!(items[0].archived_at, Some(99));
    assert_eq!(items[1].archived_at, None);
}

#[test]
fn full_pass_runs_statements_in_order() {
    let pass = run_pass(names(&["id", "area_id", "title", "created_at"]), vec![row(1, 1, None)]);
    assert_eq!(
        pass.executed,
        vec![
            RENAME_ACTION_ITEMS.to_string(),
            CREATE_ACTION_ITEMS.to_string(),
            "SELECT id, area_id, title, created_at, NULL AS position, NULL AS archived_at FROM action_items_old ORDER BY id"
                .to_string(),
            DROP_OLD_ACTION_ITEMS.to_string(),
        ]
    );
    assert_eq!(pass.inserted.len(), 1);
}

#[test]
fn select_statement_for_each_column_set() {
    let cases = [
        (true, true, "SELECT id, area_id, title, created_at, position, archived_at FROM action_items_old ORDER BY id"),
        (true, false, "SELECT id, area_id, title, created_at, position, NULL AS archived_at FROM action_items_old ORDER BY id"),
        (false, true, "SELECT id, area_id, title, created_at, NULL AS position, archived_at FROM action_items_old ORDER BY id"),
        (false, false, "SELECT id, area_id, title, created_at, NULL AS position, NULL AS archived_at FROM action_items_old ORDER BY id"),
    ];
    for (has_position, has_archived_at, expected) in cases {
        let p = ColumnPresence { has_position, has_archived_at };
        assert_eq!(select_statement(p), expected);
    }
}

#[test]
fn detects_later_columns() {
    let p = detect_columns(&names(&["id", "title", "archived_at"]));
    assert_eq!(p, ColumnPresence { has_position: false, has_archived_at: true });
    assert!(is_outdated(p));
    let p = detect_columns(&current_columns());
    assert_eq!(p, ColumnPresence { has_position: true, has_archived_at: true });
    assert!(!is_outdated(p));
    let p = detect_columns(&Vec::new());
    assert_eq!(p, ColumnPresence { has_position: false, has_archived_at: false });
}

#[test]
fn store_failure_names_its_stage() {
    let (mut m, _) = Migrator::start();
    let a = m.advance(StoreReply::Columns(names(&["id", "position"])));
    assert!(matches!(a, MigrationAction::Execute(ref s) if s == RENAME_ACTION_ITEMS));
    let a = m.advance(StoreReply::Failed("locked".to_string()));
    match a {
        MigrationAction::Failed(MigrationError::Store { stage, detail }) => {
            assert_eq!(stage, Stage::Renaming);
            assert_eq!(detail, "locked");
        }
        _ => panic!("expected a store error"),
    }
    assert_eq!(m.current_stage(), Stage::Aborted);
    let a = m.advance(StoreReply::Done);
    assert!(matches!(
        a,
        MigrationAction::Failed(MigrationError::UnexpectedReply { stage: Stage::Aborted })
    ));
}

#[test]
fn reply_of_the_wrong_shape_aborts() {
    let (mut m, _) = Migrator::start();
    let a = m.advance(StoreReply::Done);
    assert!(matches!(
        a,
        MigrationAction::Failed(MigrationError::UnexpectedReply { stage: Stage::Inspecting })
    ));
    assert_eq!(m.current_stage(), Stage::Aborted);
}

#[test]
fn position_overflow_is_refused() {
    let rows = vec![row(1, 1, Some(i64::MAX)), row(2, 2, None)];
    assert!(!check_positions_fit(&rows));
    assert!(check_positions_fit(&vec![row(1, 1, Some(i64::MAX - 2)), row(2, 2, None)]));
    let (mut m, _) = Migrator::start();
    m.advance(StoreReply::Columns(names(&["id", "position"])));
    m.advance(StoreReply::Done);
    let a = m.advance(StoreReply::Done);
    assert!(matches!(a, MigrationAction::ReadRows(_)));
    let a = m.advance(StoreReply::Rows(rows));
    assert!(matches!(a, MigrationAction::Failed(MigrationError::PositionOverflow)));
}

#[test]
fn baseline_statements_in_order() {
    assert_eq!(
        baseline_tables(),
        vec![CREATE_LIFE_AREAS, CREATE_SCORES, CREATE_ACTION_ITEMS_IF_ABSENT]
    );
    let idx = baseline_indexes();
    assert_eq!(idx.len(), 5);
    assert_eq!(idx[4], CREATE_INDEX_ITEMS_ARCHIVED);
}

#[test]
fn read_order_does_not_change_positions() {
    let rows = vec![
        row(1, 40, None),
        row(2, 10, Some(2)),
        row(3, 30, None),
        row(4, 30, None),
        row(5, 5, Some(0)),
    ];
    let mut reversed = rows.clone();
    reversed.reverse();
    let a = backfill_positions(&rows);
    let b = backfill_positions(&reversed);
    for id in 1..=5 {
        assert_eq!(position_of(&a, id), position_of(&b, id));
    }
    assert_eq!(position_of(&a, 3), 3);
    assert_eq!(position_of(&a, 4), 4);
    assert_eq!(position_of(&a, 1), 5);
}
