use vstd::prelude::*;

verus! {

/// A named, coloured, ordered category that the user scores over time.
#[derive(Debug, Clone)]
pub struct LifeArea {
    pub id: i64,
    pub name: String,
    pub description: Option<String>,
    pub color: String,
    pub order: i64,
    pub is_active: bool,
    pub created_at: i64,
    pub updated_at: i64,
}

/// One rating of a life area, from 0 to 10, at a point in time.
#[derive(Debug, Clone, Copy, PartialEq, Eq)]
pub struct Score {
    pub id: i64,
    pub area_id: i64,
    pub value: i64,
    pub recorded_at: i64,
}

/// A task of a life area, in the current row shape of `action_items`.
#[derive(Debug, Clone)]
pub struct ActionItem {
    pub id: i64,
    pub area_id: i64,
    pub title: String,
    pub created_at: i64,
    pub position: i64,
    pub archived_at: Option<i64>,
}

/// A row read from an `action_items` table of an earlier shape. A column
/// that the old table lacks is read as `None`.
#[derive(Debug, Clone)]
pub struct OldRow {
    pub id: i64,
    pub area_id: i64,
    pub title: String,
    pub created_at: i64,
    pub position: Option<i64>,
    pub archived_at: Option<i64>,
}

} // verus!
