use todo_drawer::app_state::{map_new_task_message, map_task_message, Message, TodoAppState};
use todo_drawer::date::Date;
use todo_drawer::new_task::{NewTaskMessage, NewTaskPayload, NewTaskState};
use todo_drawer::task::{TaskMessage, TaskState};

#[test]
fn new_task_has_fresh_random_identity() {
    let a = TaskState::new("water the plants".to_string(), None, None);
    let b = TaskState::new("water the plants".to_string(), None, None);
    assert!(!a.completed);
    assert!(!a.is_editing);
    assert_eq!(a.title, "water the plants");
    assert!(a.description.is_none());
    assert!(a.due_date.is_none());
    // Random identifiers carry the fixed version and variant bits.
    assert_eq!((a.id >> 76) & 0xf, 4);
    assert_eq!((a.id >> 62) & 0x3, 2);
    assert_ne!(a.id, b.id);
}

#[test]
fn task_edits_replace_their_field() {
    let date = Date::new(2025, 3, 14);
    let mut t = TaskState::new("title".to_string(), Some("desc".to_string()), Some(date));
    let id = t.id;

    t.update(TaskMessage::ToggleCompleted(true));
    assert!(t.completed);
    t.update(TaskMessage::ToggleCompleted(false));
    assert!(!t.completed);

    t.update(TaskMessage::ToggleIsEditing);
    assert!(t.is_editing);
    t.update(TaskMessage::ToggleIsEditing);
    assert!(!t.is_editing);

    t.update(TaskMessage::TitleUpdated("new title".to_string()));
    assert_eq!(t.title, "new title");

    t.update(TaskMessage::DescriptionUpdated("new desc".to_string()));
    assert_eq!(t.description.as_deref(), Some("new desc"));

    // An emptied description stays present as an empty entry.
    t.update(TaskMessage::DescriptionUpdated(String::new()));
    assert_eq!(t.description.as_deref(), Some(""));

    assert_eq!(t.id, id);
    assert_eq!(t.due_date, Some(date));
}

#[test]
fn form_edits_replace_their_field() {
    let mut f = NewTaskState::default();
    f.update(NewTaskMessage::TitleChanged("t".to_string()));
    assert_eq!(f.title, "t");
    f.update(NewTaskMessage::DescriptionChanged("d".to_string()));
    assert_eq!(f.description, "d");
    f.update(NewTaskMessage::ToggleDatePicker(true));
    assert!(f.show_date_picker);

    let date = Date::new(2026, 1, 2);
    f.update(NewTaskMessage::SubmitDatePicker(date));
    assert_eq!(f.due_date, Some(date));
    assert!(!f.show_date_picker);

    f.update(NewTaskMessage::ClearDueDate);
    assert!(f.due_date.is_none());

    f.update(NewTaskMessage::ClearState);
    assert_eq!(f.title, "");
    assert_eq!(f.description, "");
    assert!(f.due_date.is_none());
    assert!(!f.show_date_picker);
}

#[test]
fn payload_collapses_empty_description() {
    let mut f = NewTaskState::default();
    f.update(NewTaskMessage::TitleChanged("a task".to_string()));
    let p = f.make_payload();
    assert_eq!(p.title, "a task");
    assert!(p.description.is_none());
    assert!(p.due_date.is_none());

    f.update(NewTaskMessage::DescriptionChanged("notes".to_string()));
    let p = f.make_payload();
    assert_eq!(p.description.as_deref(), Some("notes"));
}

#[test]
fn toggling_flips_only_the_drawer_flag() {
    let mut app = TodoAppState::default();
    assert!(!app.show_new_task_form);
    app.update(Message::ToggleNewTaskForm);
    assert!(app.show_new_task_form);
    assert!(app.tasks.is_empty());
    app.update(Message::ToggleNewTaskForm);
    assert!(!app.show_new_task_form);
}

#[test]
fn committing_a_payload_appends_and_closes() {
    let mut app = TodoAppState::default();
    app.update(Message::ToggleNewTaskForm);
    app.update(Message::NewTaskMessage(NewTaskMessage::TitleChanged("t".to_string())));
    let payload = NewTaskPayload {
        title: "t".to_string(),
        description: Some("d".to_string()),
        due_date: None,
    };
    app.update(Message::CreateNewTask(payload));
    assert_eq!(app.tasks.len(), 1);
    assert_eq!(app.tasks[0].title, "t");
    assert_eq!(app.tasks[0].description.as_deref(), Some("d"));
    assert!(!app.tasks[0].completed);
    assert!(!app.show_new_task_form);
    assert_eq!(app.new_task_state.title, "");
    assert_eq!(app.new_task_state.description, "");
}

#[test]
fn task_message_reaches_only_the_addressed_task() {
    let mut app = TodoAppState::default();
    app.update(Message::CreateNewTask(NewTaskPayload {
        title: "first".to_string(),
        description: None,
        due_date: None,
    }));
    app.update(Message::CreateNewTask(NewTaskPayload {
        title: "second".to_string(),
        description: None,
        due_date: None,
    }));
    let second_id = app.tasks[1].id;
    app.update(Message::TaskMessage(second_id, TaskMessage::ToggleCompleted(true)));
    assert!(!app.tasks[0].completed);
    assert!(app.tasks[1].completed);
    assert_eq!(app.tasks[1].title, "second");
}

#[test]
fn null_message_changes_nothing() {
    let mut app = TodoAppState::default();
    app.update(Message::ToggleNewTaskForm);
    app.update(Message::NullMessage);
    assert!(app.show_new_task_form);
    assert!(app.tasks.is_empty());
}

#[test]
fn form_messages_route_to_the_parent() {
    assert!(matches!(
        map_new_task_message(NewTaskMessage::CancelNewTask),
        Message::ToggleNewTaskForm
    ));
    let routed = map_new_task_message(NewTaskMessage::CreateNewTask(NewTaskPayload {
        title: "t".to_string(),
        description: None,
        due_date: None,
    }));
    match routed {
        Message::CreateNewTask(p) => assert_eq!(p.title, "t"),
        _ => panic!("a payload must route to the commit message"),
    }
    assert!(matches!(
        map_new_task_message(NewTaskMessage::ClearDueDate),
        Message::NewTaskMessage(NewTaskMessage::ClearDueDate)
    ));
}

#[test]
fn task_messages_carry_their_address() {
    let routed = map_task_message(7, TaskMessage::ToggleIsEditing);
    match routed {
        Message::TaskMessage(id, TaskMessage::ToggleIsEditing) => assert_eq!(id, 7),
        _ => panic!("a task message must keep its identifier"),
    }
}

#[test]
fn dates_keep_their_fields() {
    let d = Date::new(2024, 12, 31);
    assert_eq!((d.year, d.month, d.day), (2024, 12, 31));
}
