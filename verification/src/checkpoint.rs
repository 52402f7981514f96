//! Checkpoints: the state of a task at a point in time, from which it can
//! be resumed after a crash, a restart, or a move to another host.

use vstd::prelude::*;
use crate::id::new_uuid;
use crate::intent::Intent;
use crate::state::AgentState;
use crate::time::{TimeDelta, Timestamp, current_time, elapsed_exceeds, older_than};

verus! {

/// A checkpoint capturing the full state of a task execution.
pub struct Checkpoint {
    /// Unique checkpoint identifier.
    pub id: uuid::Uuid,
    /// The task this checkpoint belongs to.
    pub task_id: uuid::Uuid,
    /// Current state at checkpoint time.
    pub state: AgentState,
    /// The original task intent.
    pub intent: Intent,
    /// Number of steps completed so far.
    pub steps_completed: u32,
    /// Total steps estimated (may change as plan evolves).
    pub steps_total: Option<u32>,
    /// History of tool call IDs executed so far.
    pub completed_tool_calls: Vec<String>,
    /// When this checkpoint was created.
    pub created_at: Timestamp,
}

impl Checkpoint {
    /// A checkpoint of task `task_id` in `state`, with a fresh identifier, no
    /// steps completed, and the current time.
    pub fn new(task_id: uuid::Uuid, state: AgentState, intent: Intent) -> (r: Checkpoint)
        ensures
            r.task_id == task_id,
            r.state == state,
            r.intent == intent,
            r.steps_completed == 0,
            r.steps_total is None,
            r.completed_tool_calls@.len() == 0,
    {
        Checkpoint {
            id: new_uuid(),
            task_id,
            state,
            intent,
            steps_completed: 0,
            steps_total: None,
            completed_tool_calls: Vec::new(),
            created_at: current_time(),
        }
    }

    /// Whether this checkpoint is older than `max_age` at time `now`.
    pub fn is_stale_at(&self, now: &Timestamp, max_age: &TimeDelta) -> (b: bool)
        ensures
            b == older_than(self.created_at, *now, *max_age),
    {
        elapsed_exceeds(&self.created_at, now, max_age)
    }

    /// Whether this checkpoint is older than `max_age` now. The answer
    /// depends on the clock: it is `is_stale_at` at some time read from it.
    pub fn is_stale(&self, max_age: &TimeDelta) -> (b: bool)
        ensures
            exists|now: Timestamp| b == older_than(self.created_at, now, *max_age),
    {
        let now = current_time();
        self.is_stale_at(&now, max_age)
    }
}

} // verus!
