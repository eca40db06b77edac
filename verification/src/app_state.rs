//! The application's top-level state and its message dispatch: the
//! host-owned drawer flag, the creation form, and the task list,
//! updated once per message. The host's event loop feeds messages in
//! and renders the state back out.

use vstd::prelude::*;

use crate::geometry::Size;
use crate::new_task::NewTaskMessage;
use crate::new_task::NewTaskPayload;
use crate::new_task::NewTaskState;
use crate::new_task::form_updated;
use crate::new_task::is_blank;
use crate::task::TaskMessage;
use crate::task::TaskState;
use crate::task::spec_task_updated;

verus! {

/// Everything the application keeps between messages.
#[derive(Debug)]
pub struct TodoAppState {
    pub window_size: Size,
    pub show_new_task_form: bool,
    pub new_task_state: NewTaskState,
    pub tasks: Vec<TaskState>,
}

/// A top-level message: toggle the drawer, route to the form or to
/// one task by identifier, commit a new task, or do nothing.
#[derive(Debug, Clone)]
pub enum Message {
    ToggleNewTaskForm,
    NewTaskMessage(NewTaskMessage),
    TaskMessage(u128, TaskMessage),
    CreateNewTask(NewTaskPayload),
    NullMessage,
}

/// Some task of the list carries this identifier.
pub open spec fn has_task_with_id(tasks: Seq<TaskState>, id: u128) -> bool {
    exists|i: int| 0 <= i < tasks.len() && tasks[i].id == id
}

impl Default for TodoAppState {
    /// No window size seen yet, the drawer closed, a blank form, no
    /// tasks.
    fn default() -> (r: TodoAppState)
        ensures
            r.window_size == (Size { width: 0, height: 0 }),
            !r.show_new_task_form,
            is_blank(r.new_task_state),
            r.tasks@ == Seq::<TaskState>::empty(),
    {
        TodoAppState {
            window_size: Size { width: 0, height: 0 },
            show_new_task_form: false,
            new_task_state: NewTaskState::default(),
            tasks: Vec::new(),
        }
    }
}

impl TodoAppState {
    /// Dispatch one message.
    ///
    /// Toggling flips the drawer flag and nothing else. A form
    /// message goes to the form alone. Committing a payload appends a
    /// fresh task built from it, closes the drawer and blanks the
    /// form. A task message edits the first task carrying the
    /// addressed identifier, which must exist. The null message
    /// changes nothing.
    pub fn update(&mut self, message: Message)
        requires
            message matches Message::TaskMessage(id, _) ==> has_task_with_id(
                old(self).tasks@,
                id,
            ),
            message matches Message::NewTaskMessage(m) ==> !(m is CancelNewTask) && !(
            m is CreateNewTask),
        ensures
            message is ToggleNewTaskForm ==> *final(self) == (TodoAppState {
                show_new_task_form: !old(self).show_new_task_form,
                ..*old(self)
            }),
            message is NullMessage ==> *final(self) == *old(self),
            message matches Message::NewTaskMessage(m) ==> final(self).window_size == old(
                self,
            ).window_size && final(self).show_new_task_form == old(self).show_new_task_form
                && final(self).tasks@ == old(self).tasks@ && form_updated(
                old(self).new_task_state,
                m,
                final(self).new_task_state,
            ),
            message matches Message::CreateNewTask(payload) ==> {
                &&& final(self).tasks@.len() == old(self).tasks@.len() + 1
                &&& final(self).tasks@.take(old(self).tasks@.len() as int) == old(self).tasks@
                &&& final(self).tasks@.last().title == payload.title
                &&& final(self).tasks@.last().description == payload.description
                &&& final(self).tasks@.last().due_date == payload.due_date
                &&& !final(self).tasks@.last().completed
                &&& !final(self).tasks@.last().is_editing
                &&& !final(self).show_new_task_form
                &&& is_blank(final(self).new_task_state)
                &&& final(self).window_size == old(self).window_size
            },
            message matches Message::TaskMessage(id, m) ==> exists|i: int|
                0 <= i < old(self).tasks@.len() && old(self).tasks@[i].id == id && (forall|j: int|
                    0 <= j < i ==> old(self).tasks@[j].id != id) && final(self).tasks@ == old(
                    self,
                ).tasks@.update(i, spec_task_updated(old(self).tasks@[i], m)),
            message matches Message::TaskMessage(id, m) ==> final(self).window_size == old(
                self,
            ).window_size && final(self).show_new_task_form == old(self).show_new_task_form
                && final(self).new_task_state == old(self).new_task_state,
    {
        match message {
            Message::ToggleNewTaskForm => {
                self.show_new_task_form = !self.show_new_task_form;
            },
            Message::NewTaskMessage(m) => {
                self.new_task_state.update(m);
            },
            Message::CreateNewTask(payload) => {
                let new_task_state = TaskState::new(
                    payload.title,
                    payload.description,
                    payload.due_date,
                );
                self.tasks.push(new_task_state);
                proof {
                    assert(self.tasks@.take(self.tasks@.len() - 1) =~= old(self).tasks@);
                }
                self.show_new_task_form = false;
                self.new_task_state.update(NewTaskMessage::ClearState);
            },
            Message::TaskMessage(id, m) => {
                let mut i: usize = 0;
                while i < self.tasks.len() && self.tasks[i].id != id
                    invariant
                        i <= self.tasks@.len(),
                        forall|j: int| 0 <= j < i ==> self.tasks@[j].id != id,
                        has_task_with_id(self.tasks@, id),
                    decreases self.tasks@.len() - i,
                {
                    i += 1;
                }
                assert(i < self.tasks@.len());
                let task = &mut self.tasks[i];
                task.update(m);
            },
            Message::NullMessage => {
            },
        }
    }
}

/// Route a form message upward: cancelling toggles the drawer, a
/// payload is committed, everything else stays a form message.
pub fn map_new_task_message(message: NewTaskMessage) -> (r: Message)
    ensures
        message is CancelNewTask ==> r is ToggleNewTaskForm,
        message matches NewTaskMessage::CreateNewTask(payload) ==> r == Message::CreateNewTask(
            payload,
        ),
        !(message is CancelNewTask) && !(message is CreateNewTask) ==> r == Message::NewTaskMessage(
            message,
        ),
{
    match message {
        NewTaskMessage::CancelNewTask => Message::ToggleNewTaskForm,
        NewTaskMessage::CreateNewTask(payload) => Message::CreateNewTask(payload),
        _ => Message::NewTaskMessage(message),
    }
}

/// Address a task's message to the task it came from.
pub fn map_task_message(id: u128, message: TaskMessage) -> (r: Message)
    ensures
        r == Message::TaskMessage(id, message),
{
    Message::TaskMessage(id, message)
}

} // verus!
