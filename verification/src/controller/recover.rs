use vstd::prelude::*;

use crate::controller::events::{ControllerWorkflowError, ControllerWorkflowEventV1, HistoryFaultV1};
use crate::controller::state::ControllerWorkflowStateV1;
use crate::controller::transition::{apply, transition};

verus! {

/// One fact of the task-owned Controller stream, with its envelope.
#[derive(Debug, PartialEq, Eq)]
pub struct RecordedControllerEventV1 {
    pub event_id: u64,
    pub parent_event_id: Option<u64>,
    pub schema_version: u32,
    pub command_id: u64,
    pub observed_at: i64,
    pub event: ControllerWorkflowEventV1,
}

/// The causal parent that the next fact of `history` must name.
pub open spec fn head_of(history: Seq<RecordedControllerEventV1>) -> Option<u64> {
    if history.len() == 0 {
        None
    } else {
        Some(history.last().event_id)
    }
}

/// Recovery of the Controller state from the full stream: every fact must be current-V1, name
/// the previous fact as its causal parent, and be a legal transition.
pub open spec fn replay(task_id: u64, history: Seq<RecordedControllerEventV1>) -> Result<
    ControllerWorkflowStateV1,
    ControllerWorkflowError,
>
    decreases history.len(),
{
    if history.len() == 0 {
        Ok(ControllerWorkflowStateV1::NotFound)
    } else {
        match replay(task_id, history.drop_last()) {
            Err(e) => Err(e),
            Ok(state) => {
                let last = history.last();
                if last.schema_version != 1 || last.parent_event_id != head_of(history.drop_last()) {
                    Err(ControllerWorkflowError::InvalidHistory(HistoryFaultV1::VersionOrParentChanged))
                } else {
                    transition(task_id, state, last.event)
                }
            },
        }
    }
}

/// Index of the first fact recorded under `command_id`, searching from `from`, or `-1`.
pub open spec fn first_command_from(history: Seq<RecordedControllerEventV1>, command_id: u64, from: int) -> int
    decreases history.len() - from,
{
    if from < 0 || from >= history.len() {
        -1
    } else if history[from].command_id == command_id {
        from
    } else {
        first_command_from(history, command_id, from + 1)
    }
}

/// Index of the first fact recorded under `command_id`, or `-1` when the command is new.
pub open spec fn prior_command(history: Seq<RecordedControllerEventV1>, command_id: u64) -> int {
    first_command_from(history, command_id, 0)
}

/// Recovers the exact current Controller state and rejects illegal or non-V1 history.
pub fn recover_controller_workflow(task_id: u64, history: &Vec<RecordedControllerEventV1>) -> (r: Result<
    ControllerWorkflowStateV1,
    ControllerWorkflowError,
>)
    ensures
        r == replay(task_id, history@),
{
    let mut state = ControllerWorkflowStateV1::NotFound;
    let mut parent: Option<u64> = None;
    let mut i: usize = 0;
    while i < history.len()
        invariant
            i <= history.len(),
            replay(task_id, history@.take(i as int)) == Ok::<ControllerWorkflowStateV1, ControllerWorkflowError>(state),
            parent == head_of(history@.take(i as int)),
        decreases history.len() - i,
    {
        let ghost prefix = history@.take(i as int + 1);
        assert(prefix.drop_last() == history@.take(i as int));
        let recorded = &history[i];
        let parent_matches = match (recorded.parent_event_id, parent) {
            (Some(a), Some(b)) => a == b,
            (None, None) => true,
            _ => false,
        };
        if recorded.schema_version != 1 || !parent_matches {
            proof {
                assert(replay(task_id, prefix) == Err::<ControllerWorkflowStateV1, ControllerWorkflowError>(ControllerWorkflowError::InvalidHistory(HistoryFaultV1::VersionOrParentChanged)));
                lemma_replay_error_persists(task_id, history@, i as int + 1);
            }
            return Err(ControllerWorkflowError::InvalidHistory(HistoryFaultV1::VersionOrParentChanged));
        }
        match apply(task_id, state, &recorded.event) {
            Ok(next) => {
                state = next;
            },
            Err(e) => {
                proof {
                    lemma_replay_error_persists(task_id, history@, i as int + 1);
                }
                return Err(e);
            },
        }
        parent = Some(recorded.event_id);
        i = i + 1;
    }
    assert(history@.take(i as int) == history@);
    Ok(state)
}

/// Once a prefix of the history is invalid, the whole history is invalid with the same error.
pub proof fn lemma_replay_error_persists(task_id: u64, history: Seq<RecordedControllerEventV1>, n: int)
    requires
        0 <= n <= history.len(),
        replay(task_id, history.take(n)) is Err,
    ensures
        replay(task_id, history) == replay(task_id, history.take(n)),
    decreases history.len() - n,
{
    if n < history.len() {
        let next = history.take(n + 1);
        assert(next.drop_last() == history.take(n));
        lemma_replay_error_persists(task_id, history, n + 1);
    } else {
        assert(history.take(n) == history);
    }
}

} // verus!
