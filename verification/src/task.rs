//! One task of the to-do list: its stored fields and the edits its
//! inline view can make to them. Each task carries a freshly drawn
//! random identifier so the list can address it across re-renders.

use vstd::prelude::*;

use crate::date::Date;

verus! {

/// A task as the list stores it. The identifier is drawn at creation
/// and never changes; everything else is editable in place.
#[derive(Debug, Clone)]
pub struct TaskState {
    pub id: u128,
    pub completed: bool,
    pub is_editing: bool,
    pub title: String,
    pub description: Option<String>,
    pub due_date: Option<Date>,
}

/// An edit the task's own view can emit.
#[derive(Debug, Clone)]
pub enum TaskMessage {
    ToggleCompleted(bool),
    ToggleIsEditing,
    TitleUpdated(String),
    DescriptionUpdated(String),
}

/// What one edit does to a task. The identifier and the due date are
/// untouched by every edit; an updated description is kept even when
/// the new text is empty.
pub open spec fn spec_task_updated(t: TaskState, m: TaskMessage) -> TaskState {
    match m {
        TaskMessage::ToggleCompleted(state) => TaskState { completed: state, ..t },
        TaskMessage::ToggleIsEditing => TaskState { is_editing: !t.is_editing, ..t },
        TaskMessage::TitleUpdated(title) => TaskState { title, ..t },
        TaskMessage::DescriptionUpdated(description) => TaskState {
            description: Some(description),
            ..t
        },
    }
}

/// Relies on uuid::Uuid::new_v4 and uuid::Uuid::as_u128: a random
/// 128-bit value whose version nibble is four and whose variant bits
/// are the two-bit pattern two; nothing else holds of every draw.
#[verifier::external_body]
fn fresh_task_id() -> (r: u128)
    ensures
        (r >> 76) & 0xf == 4,
        (r >> 62) & 0x3 == 2,
{
    uuid::Uuid::new_v4().as_u128()
}

impl TaskState {
    /// A new, not yet completed, not yet edited task with a fresh
    /// random identifier.
    pub fn new(title: String, description: Option<String>, due_date: Option<Date>) -> (r:
        TaskState)
        ensures
            r.title == title,
            r.description == description,
            r.due_date == due_date,
            !r.completed,
            !r.is_editing,
            (r.id >> 76) & 0xf == 4,
            (r.id >> 62) & 0x3 == 2,
    {
        TaskState {
            id: fresh_task_id(),
            completed: false,
            is_editing: false,
            title,
            description,
            due_date,
        }
    }

    /// Apply one edit; exact per `spec_task_updated`, so in
    /// particular the identifier never moves.
    pub fn update(&mut self, message: TaskMessage)
        ensures
            *final(self) == spec_task_updated(*old(self), message),
            final(self).id == old(self).id,
    {
        match message {
            TaskMessage::ToggleCompleted(state) => {
                self.completed = state;
            },
            TaskMessage::ToggleIsEditing => {
                self.is_editing = !self.is_editing;
            },
            TaskMessage::TitleUpdated(title) => {
                self.title = title;
            },
            TaskMessage::DescriptionUpdated(description) => {
                self.description = Some(description);
            },
        }
    }
}

} // verus!
