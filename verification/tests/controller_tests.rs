use tudu::client::StorageError;
use tudu::constants::{Action, Key, Screen};
use tudu::controller::{decrypt_tasks, Controller};
use tudu::encdec::encrypt;
use tudu::task::Task;
use tudu::user::User;

fn controller_with_storage() -> Controller {
    let mut controller = Controller::new();
    controller.client.open_in_memory_connection().expect("Could not open connection");
    controller.client.create_todos_table().expect("Could not create todos table");
    controller.client.create_user_table().expect("Could not create user table");
    controller
}

#[test]
fn test_action_handler() {
    let mut controller = Controller::new();
    assert_eq!(controller.state.get_is_running(), false);

    controller.client.open_in_memory_connection().expect("Could not open connection");
    controller.client.create_todos_table().expect("Could not create todos table");
    controller.client.create_user_table().expect("Could not create user table");

    // Greetings
    controller.handle_action(Action::OpenGreetingsScreen);
    assert_eq!(controller.state.get_screen(), &Screen::Greetings);

    controller.handle_action(Action::InputMaskedChar('S'));
    controller.handle_action(Action::InputMaskedChar('E'));
    controller.handle_action(Action::InputMaskedChar('C'));
    controller.handle_action(Action::InputMaskedChar('R'));
    controller.handle_action(Action::InputMaskedChar('E'));
    controller.handle_action(Action::InputMaskedChar('T'));
    controller.handle_action(Action::InputMaskedChar('T'));
    assert_eq!(controller.state.get_master_key(), &String::from("SECRETT"));

    controller.handle_action(Action::RemoveMaskedChar);
    assert_eq!(controller.state.get_master_key(), &String::from("SECRET"));

    // Add secret
    controller.state.set_master_key(String::from("SECRET"));
    controller.handle_action(Action::OpenMainScreen);
    controller.handle_action(Action::Init);
    assert_eq!(controller.state.get_is_running(), true);

    // No item
    controller.handle_action(Action::MenuDown);
    assert_eq!(controller.state.get_line(), 0);

    controller.handle_action(Action::GetTasks);
    let tasks = controller.state.get_task_list();
    assert_eq!(tasks.len(), 0);

    controller.handle_action(Action::AddTask);
    assert_eq!(controller.state.get_error(), "Please enter task title");

    // 2 items
    controller.handle_action(Action::InputChar('c'));
    controller.handle_action(Action::AddTask);
    controller.handle_action(Action::InputChar('c'));
    controller.handle_action(Action::AddTask);
    controller.handle_action(Action::GetTasks);
    controller.handle_action(Action::MenuDown);
    assert_eq!(controller.state.get_line(), 1);
    controller.handle_action(Action::MenuUp);
    assert_eq!(controller.state.get_line(), 0);
    controller.handle_action(Action::ToggleTaskStatus);
    assert_eq!(controller.state.get_task_list().get(0).expect("nope").status, "completed");

    // Check remove char
    controller.handle_action(Action::InputChar('c'));
    controller.handle_action(Action::RemoveChar);
    assert_eq!(controller.state.get_input(), &String::from(""));

    // Check task title length
    for _ in 0..41 {
        controller.handle_action(Action::InputChar('c'));
    }
    controller.handle_action(Action::AddTask);
    assert_eq!(
        controller.state.get_error(),
        &String::from("Task title cannot be longer than 40")
    );

    // Remove all items
    controller.handle_action(Action::RemoveTask);
    controller.handle_action(Action::RemoveTask);
    assert_eq!(controller.state.get_line(), 0);

    // Add task
    controller.state.set_error(String::from("ERROR"));
    controller.handle_action(Action::OpenAddScreen);
    assert_eq!(controller.state.get_screen(), &Screen::Add);
    assert_eq!(controller.state.get_error(), &String::from(""));

    // Cancel add task
    controller.handle_action(Action::CancelAddTask);
    assert_eq!(controller.state.get_screen(), &Screen::Main);

    controller.state.set_error(String::from(""));
    controller.state.set_master_key(String::from("MASTER_KEY"));
    controller.handle_action(Action::AddSecret);
    assert_eq!(controller.state.get_screen(), &Screen::Main);
    assert_eq!(controller.state.get_error(), &String::from(""));

    controller.state.set_master_key(String::from(""));
    controller.handle_action(Action::AddSecret);
    assert_eq!(controller.state.get_error(), &String::from("Password is wrong"));

    controller.client.remove_user().expect("Could not remove user");
    controller.handle_action(Action::Empty);
    controller.handle_action(Action::Exit);
}

#[test]
fn test_key_stroke_handler() {
    let mut controller = Controller::new();

    // Main screen
    let mut action = controller.handle_key_stroke(Key::Char('a'));
    assert_eq!(action, Action::OpenAddScreen);
    action = controller.handle_key_stroke(Key::Char('x'));
    assert_eq!(action, Action::RemoveTask);
    action = controller.handle_key_stroke(Key::Up);
    assert_eq!(action, Action::MenuUp);
    action = controller.handle_key_stroke(Key::Down);
    assert_eq!(action, Action::MenuDown);
    action = controller.handle_key_stroke(Key::Esc);
    assert_eq!(action, Action::Exit);
    action = controller.handle_key_stroke(Key::Enter);
    assert_eq!(action, Action::ToggleTaskStatus);
    action = controller.handle_key_stroke(Key::Char('z'));
    assert_eq!(action, Action::Empty);

    // Add screen
    controller.handle_action(Action::OpenAddScreen);
    action = controller.handle_key_stroke(Key::Esc);
    assert_eq!(action, Action::CancelAddTask);
    action = controller.handle_key_stroke(Key::Enter);
    assert_eq!(action, Action::AddTask);
    action = controller.handle_key_stroke(Key::Char('s'));
    assert_eq!(action, Action::InputChar('s'));
    action = controller.handle_key_stroke(Key::Backspace);
    assert_eq!(action, Action::RemoveChar);
    action = controller.handle_key_stroke(Key::Other);
    assert_eq!(action, Action::Empty);

    // Greetings screen
    controller.handle_action(Action::OpenGreetingsScreen);
    action = controller.handle_key_stroke(Key::Esc);
    assert_eq!(action, Action::Exit);
    action = controller.handle_key_stroke(Key::Char('s'));
    assert_eq!(action, Action::InputMaskedChar('s'));
    action = controller.handle_key_stroke(Key::Backspace);
    assert_eq!(action, Action::RemoveMaskedChar);
    action = controller.handle_key_stroke(Key::Enter);
    assert_eq!(action, Action::OpenMainScreen);
    action = controller.handle_key_stroke(Key::Other);
    assert_eq!(action, Action::Empty);

    controller.state.set_is_first_time(true);
    action = controller.handle_key_stroke(Key::Enter);
    assert_eq!(action, Action::AddSecret);
}

#[test]
fn test_common_error_tests() {
    let mut controller = Controller::new();

    controller.handle_action(Action::GetTasks);
    assert_ne!(controller.state.get_error(), "");

    controller.state.set_input("TEST TASK TITLE");
    controller.handle_action(Action::AddTask);
    assert_ne!(controller.state.get_error(), "");

    controller.handle_action(Action::CheckSecret);
    assert_eq!(controller.state.get_error(), "Could not get user");
}

#[test]
fn test_add_task_empty_rejected() {
    let mut controller = Controller::new();
    controller.handle_action(Action::OpenAddScreen);
    controller.handle_action(Action::AddTask);
    assert_eq!(controller.state.get_error(), "Please enter task title");
    assert_eq!(controller.state.get_screen(), &Screen::Add);
}

#[test]
fn test_add_task_overlong_rejected() {
    let mut controller = controller_with_storage();
    controller.state.set_master_key(String::from("ABC"));
    controller.handle_action(Action::AddSecret);

    controller.state.set_input("x".repeat(41).as_str());
    controller.handle_action(Action::AddTask);
    assert_eq!(controller.state.get_error(), "Task title cannot be longer than 40");
    assert_eq!(controller.client.get_tasks().expect("Could not get tasks").len(), 0);
}

#[test]
fn test_add_task_at_limit_accepted() {
    let mut controller = controller_with_storage();
    controller.state.set_master_key(String::from("ABC"));
    controller.handle_action(Action::AddSecret);

    controller.state.set_input("x".repeat(40).as_str());
    controller.handle_action(Action::AddTask);
    assert_eq!(controller.state.get_error(), "");
    assert_eq!(controller.state.get_task_list().len(), 1);
}

#[test]
fn test_check_secret_without_row() {
    let mut controller = controller_with_storage();
    controller.handle_action(Action::CheckSecret);
    assert_eq!(controller.state.get_error(), "Could not get user");
    assert_eq!(controller.state.get_screen(), &Screen::Main);
}

#[test]
fn test_check_secret_wrong_key() {
    let mut controller = controller_with_storage();
    controller.state.set_master_key(String::from("ABC"));
    controller.handle_action(Action::AddSecret);
    assert_eq!(controller.state.get_screen(), &Screen::Main);

    controller.state.set_master_key(String::from("nope"));
    controller.handle_action(Action::CheckSecret);
    assert_eq!(controller.state.get_error(), "Password is wrong");
    assert_eq!(controller.state.get_screen(), &Screen::Greetings);
}

#[test]
fn test_first_run_enter_stores_secret_and_opens_main() {
    let mut controller = controller_with_storage();
    controller.state.set_is_first_time(true);
    controller.handle_action(Action::OpenGreetingsScreen);
    assert_eq!(controller.state.get_screen(), &Screen::Greetings);

    controller.handle_action(Action::InputMaskedChar('A'));
    controller.handle_action(Action::InputMaskedChar('B'));
    controller.handle_action(Action::InputMaskedChar('C'));
    assert_eq!(controller.state.get_master_key(), &String::from("ABC"));

    let action = controller.handle_key_stroke(Key::Enter);
    assert_eq!(action, Action::AddSecret);
    controller.handle_action(action);
    assert_eq!(controller.state.get_screen(), &Screen::Main);
    assert_eq!(controller.state.get_error(), "");
}

#[test]
fn test_add_task_and_toggle_status() {
    let mut controller = controller_with_storage();
    controller.state.set_master_key(String::from("ABC"));
    controller.handle_action(Action::AddSecret);

    controller.state.set_input("Buy milk");
    controller.handle_action(Action::AddTask);

    let tasks = controller.state.get_task_list();
    assert_eq!(tasks.len(), 1);
    assert_eq!(tasks[0].title, "Buy milk");
    assert_eq!(tasks[0].status, "in-progress");

    controller.handle_action(Action::ToggleTaskStatus);
    assert_eq!(controller.state.get_task_list()[0].status, "completed");

    controller.handle_action(Action::ToggleTaskStatus);
    assert_eq!(controller.state.get_task_list()[0].status, "in-progress");
}

#[test]
fn test_remove_last_task_resets_line() {
    let mut controller = controller_with_storage();
    controller.state.set_master_key(String::from("ABC"));
    controller.handle_action(Action::AddSecret);

    controller.state.set_input("only item");
    controller.handle_action(Action::AddTask);
    assert_eq!(controller.state.get_task_list().len(), 1);
    assert_eq!(controller.state.get_line(), 0);

    controller.handle_action(Action::RemoveTask);
    assert_eq!(controller.state.get_line(), 0);
    assert_eq!(controller.state.get_task_list().len(), 0);
}

#[test]
fn test_menu_bounds_no_ops() {
    let mut controller = controller_with_storage();
    controller.state.set_master_key(String::from("ABC"));
    controller.handle_action(Action::AddSecret);

    controller.state.set_input("first");
    controller.handle_action(Action::AddTask);
    controller.state.set_input("second");
    controller.handle_action(Action::AddTask);
    assert_eq!(controller.state.get_task_list().len(), 2);

    controller.handle_action(Action::MenuUp);
    assert_eq!(controller.state.get_line(), 0);

    controller.handle_action(Action::MenuDown);
    assert_eq!(controller.state.get_line(), 1);
    controller.handle_action(Action::MenuDown);
    assert_eq!(controller.state.get_line(), 1);
}

#[test]
fn test_masked_input_does_not_grow_past_limit() {
    let mut controller = Controller::new();
    for _ in 0..12 {
        controller.handle_action(Action::InputMaskedChar('x'));
    }
    assert_eq!(controller.state.get_master_key().len(), 10);
}

#[test]
fn test_decrypt_tasks_inverts_encryption() {
    let key = "ABC";
    let rows = vec![
        Task { id: 1, title: encrypt("alpha", key), status: String::from("in-progress") },
        Task { id: 2, title: encrypt("beta", key), status: String::from("completed") },
    ];
    let out = decrypt_tasks(&rows, key).expect("all titles decrypt");
    assert_eq!(out.len(), 2);
    assert_eq!(out[0].id, 1);
    assert_eq!(out[0].title, "alpha");
    assert_eq!(out[0].status, "in-progress");
    assert_eq!(out[1].id, 2);
    assert_eq!(out[1].title, "beta");
    assert_eq!(out[1].status, "completed");
}

#[test]
fn test_decrypt_tasks_fails_on_bad_title() {
    let bad = vec![Task {
        id: 3,
        title: String::from("no hex at all"),
        status: String::from("in-progress"),
    }];
    assert!(decrypt_tasks(&bad, "ABC").is_err());
}

#[test]
fn test_apply_secret_rows_fetch_failed() {
    let mut controller = Controller::new();
    controller.apply_secret_rows(Err(StorageError { message: String::from("gone") }));
    assert_eq!(controller.state.get_error(), "Could not get user");
    assert_eq!(controller.state.get_screen(), &Screen::Main);
}

#[test]
fn test_apply_secret_rows_no_row() {
    let mut controller = Controller::new();
    controller.apply_secret_rows(Ok(Vec::new()));
    assert_eq!(controller.state.get_error(), "Could not get user");
    assert_eq!(controller.state.get_screen(), &Screen::Main);
}

#[test]
fn test_apply_secret_rows_wrong_key() {
    let mut controller = Controller::new();
    controller.state.set_master_key(String::from("nope"));
    let row = User { id: 1, secret: encrypt("sentinel", "ABC") };
    controller.apply_secret_rows(Ok(vec![row]));
    assert_eq!(controller.state.get_error(), "Password is wrong");
    assert_eq!(controller.state.get_screen(), &Screen::Greetings);
}

#[test]
fn test_apply_secret_rows_right_key() {
    let mut controller = controller_with_storage();
    controller.state.set_master_key(String::from("ABC"));
    controller.state.set_error(String::from("stale"));
    let row = User { id: 1, secret: encrypt("sentinel", "ABC") };
    controller.apply_secret_rows(Ok(vec![row]));
    assert_eq!(controller.state.get_error(), "");
    assert_eq!(controller.state.get_task_list().len(), 0);
}

#[test]
fn test_init_controller_bootstraps() {
    let mut controller = Controller::new();
    controller.init_controller("/tmp", true).expect("Could not bootstrap");
    assert_eq!(controller.state.get_is_first_time(), true);
    assert_eq!(controller.state.get_screen(), &Screen::Greetings);
    assert_eq!(controller.state.get_is_running(), true);
    assert!(controller.client.get_connection().is_ok());
    controller.exit().expect("Could not close connection");
    assert!(controller.client.get_connection().is_err());
}

#[test]
fn test_exit_closes_connection() {
    let mut controller = controller_with_storage();
    controller.handle_action(Action::Init);
    assert_eq!(controller.state.get_is_running(), true);
    controller.handle_action(Action::Exit);
    assert_eq!(controller.state.get_is_running(), false);
    assert!(controller.client.get_connection().is_err());
}
