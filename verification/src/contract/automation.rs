//! Automations: triggers, action trees and their public inputs and results.

use crate::contract::common::{
    AutomationExecutionState, AutomationId, ExecutionId, ScalarValue, TaskId, True,
};
use crate::contract::tools::{
    AndroidClipboardInput, AndroidLaunchInput, CommandRunInput, FilesystemDownloadInput,
    FilesystemManageInput, NetworkDiagnoseInput, VisualInteractInput,
};
use std::collections::BTreeMap;
use vstd::prelude::*;

verus! {

#[derive(Clone, Debug, PartialEq)]
pub enum AutomationTrigger {
    At { at: String },
    Interval {
        every_ms: u64,
    },
    Rrule { rrule: String, timezone: String },
    Event {
        name: String,
        match_values: Option<BTreeMap<String, ScalarValue>>,
    },
}

#[derive(Clone, Copy, Debug, PartialEq, Eq)]
pub enum ConditionSource {
    State,
    Trigger,
}

#[derive(Clone, Copy, Debug, PartialEq, Eq)]
pub enum ConditionOperator {
    Equals,
    NotEquals,
    GreaterThan,
    LessThan,
    Exists,
}

#[derive(Clone, Debug, PartialEq)]
pub struct AutomationCondition {
    pub source: ConditionSource,
    pub key: String,
    pub operator: ConditionOperator,
    pub value: Option<ScalarValue>,
}

#[allow(inconsistent_fields)]
#[derive(Clone, Debug, PartialEq)]
pub enum AutomationCompatibleCall {
    Filesystem {
        call: AutomationFilesystemCall,
    },
    Command {
        call: AutomationCommandCall,
    },
    Network {
        call: AutomationNetworkCall,
    },
    Visual {
        call: AutomationVisualCall,
    },
    Android {
        call: AutomationAndroidCall,
    },
}

#[derive(Clone, Debug, PartialEq)]
pub enum AutomationFilesystemCall {
    Manage(FilesystemManageInput),
    Download(FilesystemDownloadInput),
}

#[derive(Clone, Debug, PartialEq)]
pub enum AutomationCommandCall {
    Run(CommandRunInput),
}

#[derive(Clone, Debug, PartialEq)]
pub enum AutomationNetworkCall {
    Diagnose(NetworkDiagnoseInput),
}

#[derive(Clone, Debug, PartialEq)]
pub enum AutomationVisualCall {
    Interact(VisualInteractInput),
}

#[derive(Clone, Debug, PartialEq)]
pub enum AutomationAndroidCall {
    Launch(AndroidLaunchInput),
    Clipboard(AndroidClipboardInput),
}

#[derive(Debug, PartialEq)]
pub enum AutomationAction {
    Call {
        call: AutomationCompatibleCall,
    },
    Sequence {
        children: Vec<AutomationAction>,
    },
    Conditional {
        condition: AutomationCondition,
        then_action: Box<AutomationAction>,
        else_action: Option<Box<AutomationAction>>,
    },
    Repeat {
        count: u32,
        action: Box<AutomationAction>,
        delay_ms: u64,
    },
    Delay {
        duration_ms: u64,
    },
    SetState { key: String, value: ScalarValue },
}

/// Whether an action is a copy of another: it has the same shape and the same numbers, and
/// everything else in it is a clone.
pub open spec fn is_copy(original: AutomationAction, copy: AutomationAction) -> bool
    decreases original,
{
    match (original, copy) {
        (AutomationAction::Call { call }, AutomationAction::Call { call: copied }) => cloned(
            call,
            copied,
        ),
        (
            AutomationAction::Sequence { children },
            AutomationAction::Sequence { children: copied },
        ) => children@.len() == copied@.len() && forall|i: int|
            0 <= i < children@.len() ==> is_copy(children@[i], #[trigger] copied@[i]),
        (
            AutomationAction::Conditional { condition, then_action, else_action },
            AutomationAction::Conditional {
                condition: copied_condition,
                then_action: copied_then,
                else_action: copied_else,
            },
        ) => {
            &&& cloned(condition, copied_condition)
            &&& is_copy(*then_action, *copied_then)
            &&& match (else_action, copied_else) {
                (Some(action), Some(copied)) => is_copy(*action, *copied),
                (None, None) => true,
                _ => false,
            }
        },
        (
            AutomationAction::Repeat { count, action, delay_ms },
            AutomationAction::Repeat { count: copied_count, action: copied, delay_ms: copied_delay },
        ) => count == copied_count && is_copy(*action, *copied) && delay_ms == copied_delay,
        (
            AutomationAction::Delay { duration_ms },
            AutomationAction::Delay { duration_ms: copied },
        ) => duration_ms == copied,
        (
            AutomationAction::SetState { key, value },
            AutomationAction::SetState { key: copied_key, value: copied },
        ) => key@ == copied_key@ && cloned(value, copied),
        _ => false,
    }
}

impl Clone for AutomationAction {
    fn clone(&self) -> (copy: Self)
        ensures
            is_copy(*self, copy),
        decreases self,
    {
        match self {
            AutomationAction::Call { call } => AutomationAction::Call { call: call.clone() },
            AutomationAction::Sequence { children } => {
                let mut copies: Vec<AutomationAction> = Vec::new();
                for i in 0..children.len()
                    invariant
                        *self == (AutomationAction::Sequence { children: *children }),
                        copies@.len() == i,
                        forall|j: int|
                            0 <= j < i ==> is_copy(children@[j], #[trigger] copies@[j]),
                {
                    assert(decreases_to!(*self => self->children));
                    assert(decreases_to!(self->children => self->children@));
                    assert(decreases_to!(self->children@ => self->children@[i as int]));
                    copies.push((&children[i]).clone());
                }
                AutomationAction::Sequence { children: copies }
            },
            AutomationAction::Conditional { condition, then_action, else_action } => {
                let otherwise = match else_action {
                    Some(action) => Some(Box::new((&**action).clone())),
                    None => None,
                };
                AutomationAction::Conditional {
                    condition: condition.clone(),
                    then_action: Box::new((&**then_action).clone()),
                    else_action: otherwise,
                }
            },
            AutomationAction::Repeat { count, action, delay_ms } => AutomationAction::Repeat {
                count: *count,
                action: Box::new((&**action).clone()),
                delay_ms: *delay_ms,
            },
            AutomationAction::Delay { duration_ms } => AutomationAction::Delay {
                duration_ms: *duration_ms,
            },
            AutomationAction::SetState { key, value } => AutomationAction::SetState {
                key: key.clone(),
                value: value.clone(),
            },
        }
    }
}

#[derive()]
pub enum AutomationActionWire {
    Call {
        call: AutomationCompatibleCall,
    },
    Sequence { children: Vec<AutomationAction> },
    Conditional {
        condition: AutomationCondition,
        then_action: Box<AutomationAction>,
        else_action: Option<Box<AutomationAction>>,
    },
    Repeat {
        count: u32,
        action: Box<AutomationAction>,
        delay_ms: u64,
    },
    Delay { duration_ms: u64 },
    SetState { key: String, value: ScalarValue },
}

#[derive(Clone, Debug, PartialEq)]
pub struct Automation {
    pub automation_id: AutomationId,
    pub name: String,
    pub enabled: bool,
    pub trigger: AutomationTrigger,
    pub action: AutomationAction,
    pub state: BTreeMap<String, ScalarValue>,
    pub revision: u64,
    pub created_at: String,
    pub updated_at: String,
}

#[derive(Clone, Debug, PartialEq)]
pub struct AutomationExecutionSummary {
    pub execution_id: ExecutionId,
    pub task_id: TaskId,
    pub state: AutomationExecutionState,
    pub triggered_at: String,
    pub started_at: Option<String>,
    pub ended_at: Option<String>,
    pub error_code: Option<String>,
}

#[derive(Clone, Debug, PartialEq)]
pub struct AutomationSummary {
    pub automation_id: AutomationId,
    pub name: String,
    pub enabled: bool,
    pub revision: u64,
    pub updated_at: String,
    pub last_execution: Option<AutomationExecutionSummary>,
}

#[derive(Clone, Debug, PartialEq)]
pub struct AutomationListInput {
    pub limit: u32,
}

#[derive(Clone, Debug, PartialEq)]
pub struct AutomationListResult {
    pub automations: Vec<AutomationSummary>,
}

#[derive(Clone, Debug, PartialEq)]
pub struct AutomationGetInput {
    pub automation_id: AutomationId,
    pub history_limit: u32,
}

#[derive(Clone, Debug, PartialEq)]
pub struct AutomationGetResult {
    pub automation: Automation,
    pub history: Vec<AutomationExecutionSummary>,
}

#[derive(Clone, Debug, PartialEq)]
pub enum AutomationSaveInput {
    Create(AutomationCreateInput),
    Update(AutomationUpdateInput),
}

#[derive(Clone, Debug, PartialEq)]
pub struct AutomationCreateInput {
    pub name: String,
    pub enabled: bool,
    pub trigger: AutomationTrigger,
    pub action: AutomationAction,
}

#[derive(Clone, Debug, PartialEq)]
pub struct AutomationUpdateInput {
    pub automation_id: AutomationId,
    pub expected_revision: u64,
    pub name: String,
    pub enabled: bool,
    pub trigger: AutomationTrigger,
    pub action: AutomationAction,
}

#[derive(Clone, Debug, PartialEq)]
pub struct AutomationSetEnabledInput {
    pub automation_id: AutomationId,
    pub enabled: bool,
    pub expected_revision: u64,
}

#[derive(Clone, Debug, PartialEq)]
pub struct AutomationDeleteInput {
    pub automation_id: AutomationId,
    pub expected_revision: u64,
}

#[derive(Clone, Debug, PartialEq)]
pub struct AutomationRunInput {
    pub automation_id: AutomationId,
}

#[derive(Clone, Debug, PartialEq)]
pub struct AutomationDeleteResult {
    pub automation_id: AutomationId,
    pub deleted: True,
    pub previous_revision: u64,
}

#[derive(Clone, Debug, PartialEq)]
pub struct AutomationTaskResult {
    pub automation_id: AutomationId,
    pub execution_id: ExecutionId,
    pub completed: True,
}

/// A copy of an action is of its kind and has its numbers, and each action within it is a copy of
/// the one in its place.
pub proof fn a_copy_has_the_same_shape(original: AutomationAction, copy: AutomationAction)
    requires
        is_copy(original, copy),
    ensures
        original is Call <==> copy is Call,
        original is Sequence <==> copy is Sequence,
        original is Conditional <==> copy is Conditional,
        original is Repeat <==> copy is Repeat,
        original is Delay <==> copy is Delay,
        original is SetState <==> copy is SetState,
        original is Repeat ==> original->count == copy->count && original->delay_ms
            == copy->delay_ms && is_copy(*original->action, *copy->action),
        original is Delay ==> original->duration_ms == copy->duration_ms,
        original is SetState ==> original->key@ == copy->key@,
        original is Sequence ==> original->children@.len() == copy->children@.len() && forall|
            i: int,
        |
            0 <= i < original->children@.len() ==> is_copy(
                original->children@[i],
                #[trigger] copy->children@[i],
            ),
        original is Conditional ==> is_copy(*original->then_action, *copy->then_action) && (
        original->else_action is Some <==> copy->else_action is Some),
        original is Conditional && original->else_action is Some ==> is_copy(
            *original->else_action->0,
            *copy->else_action->0,
        ),
{
}

} // verus!
