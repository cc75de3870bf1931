use vstd::prelude::*;

verus! {

/// Name of the directory, under the platform config directory, that holds the
/// application's data.
pub const APP_PATH: &'static str = "tudu";

/// File name of the task database inside the application directory.
pub const DB_NAME: &'static str = "tudu.db";

/// File name used when the task list is exported as comma-separated text.
pub const CSV_NAME: &'static str = "tudu.csv";

/// A task title longer than this many characters is rejected at submit time.
pub const MAX_TASK_TITLE_LENGTH: usize = 40;

/// The master key stops growing once it holds this many characters.
pub const MAX_MASTER_KEY_LENGTH: usize = 10;

/// Fixed sentinel plaintext. Its encryption under the master key is stored as
/// the secret row; a candidate key is accepted exactly when it decrypts that
/// row. The sentinel is not a credential.
pub const VERY_SECRET_TEXT: &'static str = "THIS_IS_NOT_GOOD_PRACTICE_I_NEED_TIME_FOR_THIS";

/// The three mutually exclusive screens of the interface. The active screen
/// decides which actions a key stroke produces.
#[derive(Debug, PartialEq, Eq, Structural, Clone, Copy)]
pub enum Screen {
    Main,
    Add,
    Greetings,
}

/// One discrete step of the application state machine.
#[derive(Debug, PartialEq, Eq, Structural, Clone, Copy)]
pub enum Action {
    Init,
    Empty,
    Exit,
    GetTasks,
    OpenMainScreen,
    OpenAddScreen,
    OpenGreetingsScreen,
    AddTask,
    CancelAddTask,
    RemoveTask,
    InputChar(char),
    InputMaskedChar(char),
    RemoveChar,
    RemoveMaskedChar,
    MenuUp,
    MenuDown,
    ToggleTaskStatus,
    ResetError,
    AddSecret,
    CheckSecret,
    ExportCSV,
}

/// A key event, already reduced to the codes the state machine cares about.
/// The event source hands every other key in as `Other`.
#[derive(Debug, PartialEq, Eq, Structural, Clone, Copy)]
pub enum Key {
    Char(char),
    Up,
    Down,
    Enter,
    Esc,
    Backspace,
    Other,
}

} // verus!
