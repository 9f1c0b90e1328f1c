//! The rules that the store's commands apply before they write: unique
//! names among active life areas, the range of a score, and the states of
//! an action item.
use crate::models::{LifeArea, Score};
use vstd::prelude::*;

verus! {

/// Why a command refused its input.
#[derive(Debug, Clone, Copy, PartialEq, Eq, Structural)]
pub enum RuleError {
    /// An active life area already has this name.
    NameTaken,
    /// A score lies outside 0 to 10.
    ScoreOutOfRange,
    /// A status other than `todo`, `in_progress` or `done`.
    UnknownStatus,
    /// A priority other than `low`, `medium` or `high`.
    UnknownPriority,
}

/// The state of an action item.
#[derive(Debug, Clone, Copy, PartialEq, Eq, Structural)]
pub enum ItemStatus {
    Todo,
    InProgress,
    Done,
}

/// The urgency of an action item.
#[derive(Debug, Clone, Copy, PartialEq, Eq, Structural)]
pub enum Priority {
    Low,
    Medium,
    High,
}

/// An active area other than the one with id `except` is named `name`.
pub open spec fn name_taken(areas: Seq<LifeArea>, name: Seq<char>, except: Option<i64>) -> bool {
    exists|i: int|
        0 <= i < areas.len() && #[trigger] areas[i].is_active && areas[i].name@ == name && except
            != Some(areas[i].id)
}

/// The status with this name, if any.
pub open spec fn status_named(s: Seq<char>) -> Option<ItemStatus> {
    if s == "todo"@ {
        Some(ItemStatus::Todo)
    } else if s == "in_progress"@ {
        Some(ItemStatus::InProgress)
    } else if s == "done"@ {
        Some(ItemStatus::Done)
    } else {
        None
    }
}

/// The priority with this name, if any.
pub open spec fn priority_named(s: Seq<char>) -> Option<Priority> {
    if s == "low"@ {
        Some(Priority::Low)
    } else if s == "medium"@ {
        Some(Priority::Medium)
    } else if s == "high"@ {
        Some(Priority::High)
    } else {
        None
    }
}

/// A score lies from 0 to 10.
pub open spec fn valid_score(value: i64) -> bool {
    0 <= value <= 10
}

/// When an item whose state changes to `status` was completed: now, if it
/// becomes done; still at its old time, if it was done and stays done; never,
/// if it is not done.
pub open spec fn completion_time(
    status: ItemStatus,
    was_done: bool,
    completed_at: Option<i64>,
    now: i64,
) -> Option<i64> {
    if status != ItemStatus::Done {
        None
    } else if was_done {
        completed_at
    } else {
        Some(now)
    }
}

/// Refuses `name` for a life area where an active area other than `except`
/// has it already; an inactive area does not hold its name.
pub fn check_area_name(areas: &Vec<LifeArea>, name: &String, except: Option<i64>) -> (r: Result<
    (),
    RuleError,
>)
    ensures
        r is Err <==> name_taken(areas@, name@, except),
        r is Err ==> r->Err_0 == RuleError::NameTaken,
{
    let mut i: usize = 0;
    while i < areas.len()
        invariant
            i <= areas@.len(),
            forall|t: int|
                0 <= t < i ==> !(#[trigger] areas@[t].is_active && areas@[t].name@ == name@
                    && except != Some(areas@[t].id)),
        decreases areas@.len() - i,
    {
        let area = &areas[i];
        let excluded = match except {
            Some(id) => id == area.id,
            None => false,
        };
        if area.is_active && area.name == *name && !excluded {
            return Err(RuleError::NameTaken);
        }
        i = i + 1;
    }
    Ok(())
}

/// A new score, refused outside 0 to 10.
pub fn new_score(id: i64, area_id: i64, value: i64, now: i64) -> (r: Result<Score, RuleError>)
    ensures
        valid_score(value) ==> r == Ok::<Score, RuleError>(
            Score { id, area_id, value, recorded_at: now },
        ),
        !valid_score(value) ==> r == Err::<Score, RuleError>(RuleError::ScoreOutOfRange),
{
    if value < 0 || value > 10 {
        Err(RuleError::ScoreOutOfRange)
    } else {
        Ok(Score { id, area_id, value, recorded_at: now })
    }
}

/// Tells whether `s` is exactly `word`.
fn is_word(s: &str, word: &str) -> (r: bool)
    ensures
        r == (s@ == word@),
{
    String::from_str(s) == String::from_str(word)
}

/// Reads a status from its name.
pub fn parse_status(s: &str) -> (r: Result<ItemStatus, RuleError>)
    ensures
        status_named(s@) is Some ==> r == Ok::<ItemStatus, RuleError>(status_named(s@)->0),
        status_named(s@) is None ==> r == Err::<ItemStatus, RuleError>(RuleError::UnknownStatus),
{
    if is_word(s, "todo") {
        Ok(ItemStatus::Todo)
    } else if is_word(s, "in_progress") {
        Ok(ItemStatus::InProgress)
    } else if is_word(s, "done") {
        Ok(ItemStatus::Done)
    } else {
        Err(RuleError::UnknownStatus)
    }
}

/// Reads a priority from its name.
pub fn parse_priority(s: &str) -> (r: Result<Priority, RuleError>)
    ensures
        priority_named(s@) is Some ==> r == Ok::<Priority, RuleError>(priority_named(s@)->0),
        priority_named(s@) is None ==> r == Err::<Priority, RuleError>(
            RuleError::UnknownPriority,
        ),
{
    if is_word(s, "low") {
        Ok(Priority::Low)
    } else if is_word(s, "medium") {
        Ok(Priority::Medium)
    } else if is_word(s, "high") {
        Ok(Priority::High)
    } else {
        Err(RuleError::UnknownPriority)
    }
}

/// The completion time of an item whose state changes to `status`, given
/// whether it was done before and when it was completed.
pub fn completed_at_after(status: ItemStatus, was_done: bool, completed_at: Option<i64>, now: i64) -> (r:
    Option<i64>)
    ensures
        r == completion_time(status, was_done, completed_at, now),
{
    if status != ItemStatus::Done {
        None
    } else if was_done {
        completed_at
    } else {
        Some(now)
    }
}

impl LifeArea {
    /// Marks the area inactive at time `now`; everything else stays.
    pub fn soft_delete(&mut self, now: i64)
        ensures
            final(self).is_active == false,
            final(self).updated_at == now,
            final(self).id == old(self).id,
            final(self).name == old(self).name,
            final(self).description == old(self).description,
            final(self).color == old(self).color,
            final(self).order == old(self).order,
            final(self).created_at == old(self).created_at,
    {
        self.is_active = false;
        self.updated_at = now;
    }

    /// Marks the area active again at time `now`; everything else stays.
    pub fn restore(&mut self, now: i64)
        ensures
            final(self).is_active == true,
            final(self).updated_at == now,
            final(self).id == old(self).id,
            final(self).name == old(self).name,
            final(self).description == old(self).description,
            final(self).color == old(self).color,
            final(self).order == old(self).order,
            final(self).created_at == old(self).created_at,
    {
        self.is_active = true;
        self.updated_at = now;
    }
}

} // verus!
