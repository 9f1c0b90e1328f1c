//! Local store for life areas, scores and action items, with the in-place
//! migration of the `action_items` table to its current row shape.

pub mod models;
pub mod backfill;
pub mod schema;
pub mod migrator;
pub mod rules;
