//! The task-creation form behind the drawer: its field state, the
//! messages its inputs emit, and the payload the save control builds
//! from the fields. The parent intercepts saving and cancelling, so
//! this state never handles those two messages itself.

use vstd::prelude::*;

use crate::date::Date;

verus! {

/// The form's fields while the drawer is open. An empty description
/// is the absent one; it only becomes optional in the payload.
#[derive(Debug)]
pub struct NewTaskState {
    pub title: String,
    pub description: String,
    pub due_date: Option<Date>,
    pub show_date_picker: bool,
}

/// What the save control hands the parent: the description collapsed
/// to `None` when the field was left empty.
#[derive(Debug, Clone)]
pub struct NewTaskPayload {
    pub title: String,
    pub description: Option<String>,
    pub due_date: Option<Date>,
}

/// A message of the form. `CancelNewTask` and `CreateNewTask` are
/// routed to the parent and never reach the form's own update.
#[derive(Debug, Clone)]
pub enum NewTaskMessage {
    TitleChanged(String),
    DescriptionChanged(String),
    ToggleDatePicker(bool),
    SubmitDatePicker(Date),
    ClearDueDate,
    ClearState,
    CancelNewTask,
    CreateNewTask(NewTaskPayload),
}

/// A form with nothing entered: both texts empty, no due date, the
/// picker closed.
pub open spec fn is_blank(s: NewTaskState) -> bool {
    &&& s.title@ == Seq::<char>::empty()
    &&& s.description@ == Seq::<char>::empty()
    &&& s.due_date is None
    &&& !s.show_date_picker
}

/// What one form message does: how the state after it, `post`,
/// relates to the state before it, `pre`. Field edits replace just
/// their field; submitting the picker also closes it; `ClearState`
/// blanks the whole form; the two parent-routed messages would leave
/// it untouched.
pub open spec fn form_updated(pre: NewTaskState, m: NewTaskMessage, post: NewTaskState) -> bool {
    match m {
        NewTaskMessage::TitleChanged(title) => post == NewTaskState { title, ..pre },
        NewTaskMessage::DescriptionChanged(description) => post == NewTaskState {
            description,
            ..pre
        },
        NewTaskMessage::ToggleDatePicker(state) => post == NewTaskState {
            show_date_picker: state,
            ..pre
        },
        NewTaskMessage::SubmitDatePicker(due_date) => post == NewTaskState {
            due_date: Some(due_date),
            show_date_picker: false,
            ..pre
        },
        NewTaskMessage::ClearDueDate => post == NewTaskState { due_date: None, ..pre },
        NewTaskMessage::ClearState => is_blank(post),
        NewTaskMessage::CancelNewTask => post == pre,
        NewTaskMessage::CreateNewTask(_) => post == pre,
    }
}

impl Default for NewTaskState {
    /// The blank form.
    fn default() -> (r: NewTaskState)
        ensures
            is_blank(r),
    {
        NewTaskState {
            title: String::new(),
            description: String::new(),
            due_date: None,
            show_date_picker: false,
        }
    }
}

impl NewTaskState {
    /// Apply one form message. Field edits replace just their field;
    /// submitting the picker also closes it; `ClearState` blanks the
    /// whole form. Saving and cancelling belong to the parent, so
    /// they are ruled out here.
    pub fn update(&mut self, message: NewTaskMessage)
        requires
            !(message is CancelNewTask),
            !(message is CreateNewTask),
        ensures
            form_updated(*old(self), message, *final(self)),
    {
        match message {
            NewTaskMessage::TitleChanged(title) => {
                self.title = title;
            },
            NewTaskMessage::DescriptionChanged(description) => {
                self.description = description;
            },
            NewTaskMessage::ToggleDatePicker(state) => {
                self.show_date_picker = state;
            },
            NewTaskMessage::SubmitDatePicker(due_date) => {
                self.due_date = Some(due_date);
                self.show_date_picker = false;
            },
            NewTaskMessage::ClearDueDate => {
                self.due_date = None;
            },
            NewTaskMessage::ClearState => {
                self.title = String::new();
                self.description = String::new();
                self.due_date = None;
                self.show_date_picker = false;
            },
            NewTaskMessage::CancelNewTask => {
            },
            NewTaskMessage::CreateNewTask(_) => {
            },
        }
    }

    /// The payload the save control offers for the current fields: an
    /// empty description becomes `None`, everything else is carried as
    /// entered.
    pub fn make_payload(&self) -> (r: NewTaskPayload)
        ensures
            r.title == self.title,
            self.description@.len() == 0 ==> r.description is None,
            self.description@.len() > 0 ==> r.description == Some(self.description),
            r.due_date == self.due_date,
    {
        let description = if self.description.as_str().is_empty() {
            None
        } else {
            Some(self.description.clone())
        };
        NewTaskPayload { title: self.title.clone(), description, due_date: self.due_date }
    }
}

} // verus!
