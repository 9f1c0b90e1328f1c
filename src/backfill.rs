//! The backfill policy: values for the columns that an old row lacks.
//!
//! `archived_at` is copied where the old table had it and is otherwise
//! absent, so every row that predates the column is active. A row that has a
//! `position` keeps it. The others are numbered after every explicit
//! position: they take `floor`, `floor + 1`, ... in order of `created_at`
//! (then `id`, then the order in which they were read), where `floor` is the
//! counter that a scan of the explicit positions leaves behind: it starts at
//! 0 and moves to `p + 1` past each explicit position `p`.
use crate::models::{ActionItem, OldRow};
use vstd::multiset::Multiset;
use vstd::prelude::*;

verus! {

/// The counter after a scan of the explicit positions of `rows`: the least
/// value that is at least 0 and above every explicit position.
pub open spec fn explicit_floor(rows: Seq<OldRow>) -> int
    decreases rows.len(),
{
    if rows.len() == 0 {
        0
    } else {
        let rest = explicit_floor(rows.drop_last());
        match rows.last().position {
            Some(p) => if p + 1 > rest { p + 1 } else { rest },
            None => rest,
        }
    }
}

/// Row `j` is numbered before row `i` among the rows without a position:
/// by `created_at`, then by `id`, then by the order in which they were read.
pub open spec fn comes_before(rows: Seq<OldRow>, j: int, i: int) -> bool {
    rows[j].created_at < rows[i].created_at || (rows[j].created_at == rows[i].created_at && (
    rows[j].id < rows[i].id || (rows[j].id == rows[i].id && j < i)))
}

/// How many of the first `k` rows lack a position and come before row `i`.
pub open spec fn rank_upto(rows: Seq<OldRow>, i: int, k: int) -> nat
    decreases k,
{
    if k <= 0 {
        0
    } else {
        let before: nat = if rows[k - 1].position is None && comes_before(rows, k - 1, i) {
            1
        } else {
            0
        };
        rank_upto(rows, i, k - 1) + before
    }
}

/// The place of row `i` among the rows without a position.
pub open spec fn rank(rows: Seq<OldRow>, i: int) -> nat {
    rank_upto(rows, i, rows.len() as int)
}

/// The position that row `i` has after migration.
pub open spec fn backfilled_position(rows: Seq<OldRow>, i: int) -> int {
    match rows[i].position {
        Some(p) => p as int,
        None => explicit_floor(rows) + rank(rows, i),
    }
}

/// How many of the first `k` rows lack a position.
pub open spec fn unpositioned_upto(rows: Seq<OldRow>, k: int) -> nat
    decreases k,
{
    if k <= 0 {
        0
    } else {
        unpositioned_upto(rows, k - 1) + if rows[k - 1].position is None {
            1nat
        } else {
            0nat
        }
    }
}

/// Every position that the backfill assigns fits in an `i64`: the last of
/// the numbers handed to rows without a position is at most `i64::MAX`.
pub open spec fn positions_fit(rows: Seq<OldRow>) -> bool {
    explicit_floor(rows) + unpositioned_upto(rows, rows.len() as int) <= i64::MAX + 1
}

/// Row `i` of `rows` in the current shape.
pub open spec fn migrated_item(rows: Seq<OldRow>, i: int) -> ActionItem {
    ActionItem {
        id: rows[i].id,
        area_id: rows[i].area_id,
        title: rows[i].title,
        created_at: rows[i].created_at,
        position: backfilled_position(rows, i) as i64,
        archived_at: rows[i].archived_at,
    }
}

/// `items` holds, index by index, the rows of `rows` in the current shape.
pub open spec fn is_migration_of(items: Seq<ActionItem>, rows: Seq<OldRow>) -> bool {
    &&& items.len() == rows.len()
    &&& forall|i: int| 0 <= i < rows.len() ==> #[trigger] items[i] == migrated_item(rows, i)
}

/// The counter stays between 0 and one above `i64::MAX`.
proof fn lemma_floor_bounds(rows: Seq<OldRow>)
    ensures
        0 <= explicit_floor(rows) <= i64::MAX + 1,
    decreases rows.len(),
{
    if rows.len() > 0 {
        lemma_floor_bounds(rows.drop_last());
    }
}

/// Every explicit position lies below the floor.
pub proof fn lemma_explicit_below_floor(rows: Seq<OldRow>, i: int)
    requires
        0 <= i < rows.len(),
        rows[i].position is Some,
    ensures
        rows[i].position->0 < explicit_floor(rows),
    decreases rows.len(),
{
    if i < rows.len() - 1 {
        lemma_explicit_below_floor(rows.drop_last(), i);
    }
}

/// A row without a position has fewer rows before it than there are rows
/// without a position.
proof fn lemma_rank_below_count(rows: Seq<OldRow>, i: int, k: int)
    requires
        0 <= i < rows.len(),
        k <= rows.len(),
        rows[i].position is None,
    ensures
        rank_upto(rows, i, k) + (if 0 <= i < k { 1int } else { 0int }) <= unpositioned_upto(rows, k),
    decreases k,
{
    if k > 0 {
        lemma_rank_below_count(rows, i, k - 1);
    }
}

/// The number of explicit positions the backfill must step over, computed
/// without overflow: the result is `explicit_floor(rows@)`.
fn floor_of(rows: &Vec<OldRow>) -> (r: i128)
    ensures
        r == explicit_floor(rows@),
        0 <= r <= i64::MAX + 1,
{
    let mut floor: i128 = 0;
    let mut k: usize = 0;
    while k < rows.len()
        invariant
            k <= rows@.len(),
            floor == explicit_floor(rows@.take(k as int)),
        decreases rows@.len() - k,
    {
        proof {
            lemma_floor_bounds(rows@.take(k as int));
            assert(rows@.take(k + 1).drop_last() =~= rows@.take(k as int));
        }
        match rows[k].position {
            Some(p) => {
                if p as i128 + 1 > floor {
                    floor = p as i128 + 1;
                }
            },
            None => {},
        }
        k = k + 1;
    }
    assert(rows@.take(k as int) =~= rows@);
    proof {
        lemma_floor_bounds(rows@);
    }
    floor
}

/// Tells whether every position that the backfill would assign fits in an
/// `i64`.
pub fn check_positions_fit(rows: &Vec<OldRow>) -> (r: bool)
    ensures
        r == positions_fit(rows@),
{
    let floor = floor_of(rows);
    let mut unpositioned: i128 = 0;
    let mut k: usize = 0;
    while k < rows.len()
        invariant
            k <= rows@.len(),
            unpositioned == unpositioned_upto(rows@, k as int),
            unpositioned <= k,
        decreases rows@.len() - k,
    {
        if rows[k].position.is_none() {
            unpositioned = unpositioned + 1;
        }
        k = k + 1;
    }
    floor + unpositioned <= i64::MAX as i128 + 1
}

/// The rows of an old table in the current shape, index by index: identity,
/// area, title and creation time copied, explicit positions kept, the other
/// rows numbered after them by the backfill policy.
pub fn backfill_positions(rows: &Vec<OldRow>) -> (r: Vec<ActionItem>)
    requires
        positions_fit(rows@),
    ensures
        is_migration_of(r@, rows@),
{
    let floor = floor_of(rows);
    proof {
        lemma_floor_bounds(rows@);
    }
    let n = rows.len();
    let mut out: Vec<ActionItem> = Vec::new();
    let mut i: usize = 0;
    while i < n
        invariant
            n == rows@.len(),
            i <= n,
            floor == explicit_floor(rows@),
            0 <= floor <= i64::MAX + 1,
            positions_fit(rows@),
            out@.len() == i,
            forall|t: int| 0 <= t < i ==> #[trigger] out@[t] == migrated_item(rows@, t),
        decreases n - i,
    {
        let row = &rows[i];
        let position: i64 = match row.position {
            Some(p) => p,
            None => {
                let mut count: usize = 0;
                let mut j: usize = 0;
                while j < n
                    invariant
                        n == rows@.len(),
                        i < n,
                        j <= n,
                        row == rows@[i as int],
                        count == rank_upto(rows@, i as int, j as int),
                        count <= j,
                        row.position is None,
                        0 <= floor <= i64::MAX + 1,
                        positions_fit(rows@),
                        floor == explicit_floor(rows@),
                    decreases n - j,
                {
                    let other = &rows[j];
                    if other.position.is_none() && (other.created_at < row.created_at || (
                    other.created_at == row.created_at && (other.id < row.id || (other.id
                        == row.id && j < i)))) {
                        count = count + 1;
                    }
                    j = j + 1;
                }
                proof {
                    lemma_rank_below_count(rows@, i as int, n as int);
                }
                (floor + count as i128) as i64
            },
        };
        let item = ActionItem {
            id: row.id,
            area_id: row.area_id,
            title: row.title.clone(),
            created_at: row.created_at,
            position,
            archived_at: row.archived_at,
        };
        out.push(item);
        i = i + 1;
    }
    out
}

/// Rows `i` and `j` both lack a position and `i` comes first: then fewer
/// rows come before `i` than before `j`, counting up to any `k`.
proof fn lemma_rank_upto_increases(rows: Seq<OldRow>, i: int, j: int, k: int)
    requires
        0 <= i < rows.len(),
        0 <= j < rows.len(),
        k <= rows.len(),
        rows[i].position is None,
        comes_before(rows, i, j),
    ensures
        rank_upto(rows, j, k) >= rank_upto(rows, i, k) + if i < k { 1int } else { 0int },
    decreases k,
{
    if k > 0 {
        lemma_rank_upto_increases(rows, i, j, k - 1);
    }
}

/// The rows without a position are numbered in the order `comes_before`.
proof fn lemma_rank_strictly_ordered(rows: Seq<OldRow>, i: int, j: int)
    requires
        0 <= i < rows.len(),
        0 <= j < rows.len(),
        rows[i].position is None,
        comes_before(rows, i, j),
    ensures
        rank(rows, i) < rank(rows, j),
{
    lemma_rank_upto_increases(rows, i, j, rows.len() as int);
}

/// After migration no two rows share a position, provided the old rows'
/// explicit positions were distinct; rows that had explicit positions keep
/// their relative order; and every row that had none is placed after all
/// of those that had one, in order of creation.
pub proof fn lemma_positions_unique(rows: Seq<OldRow>)
    requires
        forall|i: int, j: int|
            0 <= i < rows.len() && 0 <= j < rows.len() && i != j && rows[i].position is Some
                && rows[j].position is Some ==> rows[i].position != rows[j].position,
    ensures
        forall|i: int, j: int|
            0 <= i < rows.len() && 0 <= j < rows.len() && i != j ==> backfilled_position(rows, i)
                != backfilled_position(rows, j),
        forall|i: int, j: int|
            0 <= i < rows.len() && 0 <= j < rows.len() && rows[i].position is Some
                && rows[j].position is Some && rows[i].position->0 < rows[j].position->0
                ==> backfilled_position(rows, i) < backfilled_position(rows, j),
        forall|i: int, j: int|
            0 <= i < rows.len() && 0 <= j < rows.len() && rows[i].position is Some
                && rows[j].position is None ==> backfilled_position(rows, i)
                < backfilled_position(rows, j),
        forall|i: int, j: int|
            0 <= i < rows.len() && 0 <= j < rows.len() && rows[i].position is None
                && rows[j].position is None && rows[i].created_at < rows[j].created_at
                ==> backfilled_position(rows, i) < backfilled_position(rows, j),
{
    assert forall|i: int, j: int|
        0 <= i < rows.len() && 0 <= j < rows.len() && rows[i].position is Some
            && rows[j].position is None implies backfilled_position(rows, i)
        < backfilled_position(rows, j) by {
        lemma_explicit_below_floor(rows, i);
    }
    assert forall|i: int, j: int|
        0 <= i < rows.len() && 0 <= j < rows.len() && rows[i].position is None
            && rows[j].position is None && rows[i].created_at < rows[j].created_at implies backfilled_position(
        rows,
        i,
    ) < backfilled_position(rows, j) by {
        lemma_rank_strictly_ordered(rows, i, j);
    }
    assert forall|i: int, j: int|
        0 <= i < rows.len() && 0 <= j < rows.len() && i != j implies backfilled_position(rows, i)
        != backfilled_position(rows, j) by {
        if rows[i].position is None && rows[j].position is None {
            if comes_before(rows, i, j) {
                lemma_rank_strictly_ordered(rows, i, j);
            } else {
                lemma_rank_strictly_ordered(rows, j, i);
            }
        } else if rows[i].position is Some && rows[j].position is None {
            lemma_explicit_below_floor(rows, i);
        } else if rows[i].position is None && rows[j].position is Some {
            lemma_explicit_below_floor(rows, j);
        }
    }
}

/// Migration keeps every row's identity: the item made of each old row has
/// that row's id, area, title and creation time.
pub proof fn lemma_identity_preserved(items: Seq<ActionItem>, rows: Seq<OldRow>)
    requires
        is_migration_of(items, rows),
    ensures
        items.len() == rows.len(),
        forall|i: int|
            0 <= i < rows.len() ==> {
                &&& #[trigger] items[i].id == rows[i].id
                &&& items[i].area_id == rows[i].area_id
                &&& items[i].title == rows[i].title
                &&& items[i].created_at == rows[i].created_at
            },
{
    assert forall|i: int| 0 <= i < rows.len() implies {
        &&& #[trigger] items[i].id == rows[i].id
        &&& items[i].area_id == rows[i].area_id
        &&& items[i].title == rows[i].title
        &&& items[i].created_at == rows[i].created_at
    } by {
        assert(items[i] == migrated_item(rows, i));
    }
}

/// Two migrations of the same old rows give the same items, positions
/// included.
pub proof fn lemma_backfill_deterministic(
    first: Seq<ActionItem>,
    second: Seq<ActionItem>,
    rows: Seq<OldRow>,
)
    requires
        is_migration_of(first, rows),
        is_migration_of(second, rows),
    ensures
        first == second,
{
    assert forall|i: int| 0 <= i < first.len() implies first[i] == second[i] by {
        assert(first[i] == migrated_item(rows, i));
        assert(second[i] == migrated_item(rows, i));
    }
    assert(first =~= second);
}

/// No two rows share an id, as in a table keyed by id.
pub open spec fn ids_distinct(rows: Seq<OldRow>) -> bool {
    forall|i: int, j: int| 0 <= i < j < rows.len() ==> rows[i].id != rows[j].id
}

/// Row `r` has no position and is numbered before row `s`, judged by their
/// contents alone.
pub open spec fn numbered_before(r: OldRow, s: OldRow) -> bool {
    r.position is None && (r.created_at < s.created_at || (r.created_at == s.created_at && r.id
        < s.id))
}

/// `numbered_before(_, s)` as a predicate on rows.
pub open spec fn numbered_before_pred(s: OldRow) -> spec_fn(OldRow) -> bool {
    |r: OldRow| numbered_before(r, s)
}

/// Adding one row to a multiset adds it to a filter of it exactly when it
/// passes the filter.
proof fn lemma_filter_insert(m: Multiset<OldRow>, f: spec_fn(OldRow) -> bool, x: OldRow)
    ensures
        m.insert(x).filter(f).len() == m.filter(f).len() + if f(x) { 1int } else { 0int },
{
    if f(x) {
        assert(m.insert(x).filter(f) =~= m.filter(f).insert(x));
    } else {
        assert(m.insert(x).filter(f) =~= m.filter(f));
    }
}

/// With distinct ids, the rank of a row counts the rows numbered before it,
/// whatever their places.
proof fn lemma_rank_as_count(rows: Seq<OldRow>, i: int, k: int)
    requires
        ids_distinct(rows),
        0 <= i < rows.len(),
        0 <= k <= rows.len(),
    ensures
        rank_upto(rows, i, k) == rows.take(k).to_multiset().filter(
            numbered_before_pred(rows[i]),
        ).len(),
    decreases k,
{
    broadcast use vstd::seq_lib::group_to_multiset_ensures;

    let f = numbered_before_pred(rows[i]);
    if k == 0 {
        assert(rows.take(0) =~= Seq::<OldRow>::empty());
        assert(rows.take(0).to_multiset().filter(f) =~= Multiset::<OldRow>::empty());
    } else {
        lemma_rank_as_count(rows, i, k - 1);
        assert(rows.take(k) =~= rows.take(k - 1).push(rows[k - 1]));
        lemma_filter_insert(rows.take(k - 1).to_multiset(), f, rows[k - 1]);
        if k - 1 < i {
            assert(rows[k - 1].id != rows[i].id);
        } else if k - 1 > i {
            assert(rows[i].id != rows[k - 1].id);
        }
    }
}

/// The counter left by the explicit positions is at least 0, above every
/// explicit position, and either 0 or one above one of them.
proof fn lemma_floor_attained(rows: Seq<OldRow>)
    ensures
        explicit_floor(rows) >= 0,
        forall|j: int|
            0 <= j < rows.len() && #[trigger] rows[j].position is Some ==> rows[j].position->0
                < explicit_floor(rows),
        explicit_floor(rows) == 0 || exists|j: int|
            0 <= j < rows.len() && #[trigger] rows[j].position is Some && rows[j].position->0 + 1
                == explicit_floor(rows),
    decreases rows.len(),
{
    if rows.len() > 0 {
        lemma_floor_attained(rows.drop_last());
        assert forall|j: int|
            0 <= j < rows.len() && #[trigger] rows[j].position is Some implies rows[j].position->0
            < explicit_floor(rows) by {
            if j < rows.len() - 1 {
                assert(rows.drop_last()[j] == rows[j]);
            }
        }
        if explicit_floor(rows) != 0 && explicit_floor(rows) == explicit_floor(rows.drop_last()) {
            let j = choose|j: int|
                0 <= j < rows.drop_last().len() && #[trigger] rows.drop_last()[j].position is Some
                    && rows.drop_last()[j].position->0 + 1 == explicit_floor(rows.drop_last());
            assert(rows[j] == rows.drop_last()[j]);
        }
    }
}

/// Two reads that hold the same rows leave the same counter.
proof fn lemma_floor_same_rows(a: Seq<OldRow>, b: Seq<OldRow>)
    requires
        a.to_multiset() == b.to_multiset(),
    ensures
        explicit_floor(a) <= explicit_floor(b),
{
    broadcast use vstd::seq_lib::group_to_multiset_ensures;

    lemma_floor_attained(a);
    lemma_floor_attained(b);
    if explicit_floor(a) != 0 {
        let j = choose|j: int|
            0 <= j < a.len() && #[trigger] a[j].position is Some && a[j].position->0 + 1
                == explicit_floor(a);
        assert(a.contains(a[j]));
        assert(b.to_multiset().count(a[j]) > 0);
        assert(b.contains(a[j]));
        let k = choose|k: int| 0 <= k < b.len() && b[k] == a[j];
        assert(b[k].position is Some);
    }
}

/// The position that a row receives does not depend on the order in which
/// the rows were read: two reads of the same rows, keyed by distinct ids,
/// give each row the same position.
pub proof fn lemma_positions_independent_of_read_order(
    a: Seq<OldRow>,
    b: Seq<OldRow>,
    i: int,
    k: int,
)
    requires
        a.to_multiset() == b.to_multiset(),
        ids_distinct(a),
        ids_distinct(b),
        0 <= i < a.len(),
        0 <= k < b.len(),
        a[i] == b[k],
    ensures
        backfilled_position(a, i) == backfilled_position(b, k),
{
    broadcast use vstd::seq_lib::group_to_multiset_ensures;

    lemma_floor_same_rows(a, b);
    lemma_floor_same_rows(b, a);
    lemma_rank_as_count(a, i, a.len() as int);
    lemma_rank_as_count(b, k, b.len() as int);
    assert(a.take(a.len() as int) =~= a);
    assert(b.take(b.len() as int) =~= b);
}

} // verus!
