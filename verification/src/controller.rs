use vstd::prelude::*;
use vstd::string::StringExecFns;

use crate::client::{Client, StorageError};
use crate::constants::{
    Action, Key, Screen, DB_NAME, MAX_MASTER_KEY_LENGTH, MAX_TASK_TITLE_LENGTH, VERY_SECRET_TEXT,
};
use crate::encdec::{decrypt, decrypt_spec, encrypt, CipherError};
use crate::state::{State, StateV};
use crate::strutil::{string_pop_char, string_push_char};
use crate::task::{Task, TaskV};
use crate::user::User;

verus! {

/// The empty message.
pub open spec fn no_error() -> Seq<char> {
    Seq::<char>::empty()
}

/// The cursor, clamped into `[0, max(1, len))`.
pub open spec fn clamp_line(line: int, len: nat) -> int {
    if len == 0 {
        0
    } else if line < 0 {
        0
    } else if line >= len {
        len - 1
    } else {
        line
    }
}

/// Where the cursor moves on one step up: one line up, or nowhere at the top.
pub open spec fn menu_up_line(line: int) -> int {
    if line > 0 {
        line - 1
    } else {
        line
    }
}

/// One step down: one line down, or nowhere on the last line (and nowhere in
/// an empty list).
pub open spec fn menu_down_step(pre: StateV) -> StateV {
    if pre.line < pre.task_list.len() - 1 {
        StateV { line: pre.line + 1, ..pre }
    } else {
        pre
    }
}

/// Only the error slot changed, to a non-empty message.
pub open spec fn only_error_set(pre: StateV, post: StateV) -> bool {
    &&& post.error.len() > 0
    &&& post == (StateV { error: post.error, ..pre })
}

/// The task list was replaced wholesale, the cursor clamped into the new
/// list, and the error cleared; everything else untouched.
pub open spec fn tasks_refreshed(pre: StateV, post: StateV) -> bool {
    &&& post.task_list.len() <= 0x7fff_ffff
    &&& post == (StateV {
        task_list: post.task_list,
        line: clamp_line(pre.line, post.task_list.len()),
        error: no_error(),
        ..pre
    })
}

/// A refresh either replaces the list and clears the error, or reports a
/// failure in the error slot and leaves the list as it was.
pub open spec fn get_tasks_step(pre: StateV, post: StateV) -> bool {
    tasks_refreshed(pre, post) || only_error_set(pre, post)
}

/// Verifying the master key ends in one of three ways: the secret row was
/// missing or unreadable; the key failed to decrypt it, which sends the user
/// back to the greetings screen; or the key was right and the task list was
/// refreshed after the error was reset.
pub open spec fn check_secret_step(pre: StateV, post: StateV) -> bool {
    ||| post == (StateV { error: "Could not get user"@, ..pre })
    ||| post == (StateV { error: "Password is wrong"@, screen: Screen::Greetings, ..pre })
    ||| get_tasks_step(StateV { error: no_error(), ..pre }, post)
}

/// Opening the main screen re-validates the key before granting access.
pub open spec fn open_main_step(pre: StateV, post: StateV) -> bool {
    check_secret_step(StateV { screen: Screen::Main, ..pre }, post)
}

/// Submitting a task: an empty title and an over-long title are rejected with
/// their messages and change nothing else; otherwise the encrypted title is
/// inserted and the main screen is opened with the input cleared, or the
/// insertion failure lands in the error slot.
pub open spec fn add_task_step(pre: StateV, post: StateV) -> bool {
    if pre.input.len() == 0 {
        post == (StateV { error: "Please enter task title"@, ..pre })
    } else if pre.input.len() > MAX_TASK_TITLE_LENGTH as int {
        post == (StateV { error: "Task title cannot be longer than 40"@, ..pre })
    } else {
        only_error_set(pre, post) || open_main_step(StateV { input: no_error(), ..pre }, post)
    }
}

/// Storing the encrypted sentinel: on success the main screen is opened; a
/// storage failure lands in the error slot.
pub open spec fn add_secret_step(pre: StateV, post: StateV) -> bool {
    only_error_set(pre, post) || open_main_step(pre, post)
}

/// The cursor line from which a removal refreshes: one up when the cursor
/// stood on the last entry.
pub open spec fn remove_cursor_line(pre: StateV) -> int {
    if pre.line == pre.task_list.len() - 1 {
        menu_up_line(pre.line)
    } else {
        pre.line
    }
}

/// Removing the selected task: the cursor first steps up when it stood on the
/// last entry, then the list is refreshed.
pub open spec fn remove_task_step(pre: StateV, post: StateV) -> bool {
    get_tasks_step(StateV { line: remove_cursor_line(pre), ..pre }, post)
}

/// What one dispatched action does to the visible state. Steps that reach
/// storage are related to every outcome the storage can produce.
pub open spec fn dispatch_rel(pre: StateV, post: StateV, action: Action) -> bool {
    match action {
        Action::Init => post == (StateV { is_running: true, ..pre }),
        Action::Empty => post == pre,
        Action::Exit => post == (StateV { is_running: false, ..pre }),
        Action::GetTasks => get_tasks_step(pre, post),
        Action::MenuDown => post == menu_down_step(pre),
        Action::MenuUp => post == (StateV { line: menu_up_line(pre.line), ..pre }),
        Action::OpenMainScreen => open_main_step(pre, post),
        Action::OpenAddScreen => post == (StateV {
            screen: Screen::Add,
            error: no_error(),
            ..pre
        }),
        Action::OpenGreetingsScreen => post == (StateV { screen: Screen::Greetings, ..pre }),
        Action::CancelAddTask => post == (StateV {
            screen: Screen::Main,
            error: no_error(),
            ..pre
        }),
        Action::InputChar(c) => post == (StateV { input: pre.input.push(c), ..pre }),
        Action::InputMaskedChar(c) => post == (if pre.master_key.len() < MAX_MASTER_KEY_LENGTH
            as int {
            StateV { master_key: pre.master_key.push(c), ..pre }
        } else {
            pre
        }),
        Action::RemoveChar => post == (if pre.input.len() > 0 {
            StateV { input: pre.input.drop_last(), ..pre }
        } else {
            pre
        }),
        Action::RemoveMaskedChar => post == (if pre.master_key.len() > 0 {
            StateV { master_key: pre.master_key.drop_last(), ..pre }
        } else {
            pre
        }),
        Action::AddTask => add_task_step(pre, post),
        Action::AddSecret => add_secret_step(pre, post),
        Action::CheckSecret => check_secret_step(pre, post),
        Action::RemoveTask => remove_task_step(pre, post),
        Action::ToggleTaskStatus => get_tasks_step(pre, post),
        Action::ResetError => post == (StateV { error: no_error(), ..pre }),
        Action::ExportCSV => post == pre,
    }
}

/// Submitting with an empty title is rejected with its message; the screen,
/// the task list and everything else stay as they were.
pub proof fn lemma_add_task_empty_input(pre: StateV, post: StateV)
    requires
        pre.input.len() == 0,
        add_task_step(pre, post),
    ensures
        post == (StateV { error: "Please enter task title"@, ..pre }),
        post.screen == pre.screen,
        post.task_list == pre.task_list,
{
}

/// Submitting an over-long title is rejected with its message; the screen,
/// the task list and everything else stay as they were.
pub proof fn lemma_add_task_overlong_input(pre: StateV, post: StateV)
    requires
        pre.input.len() > MAX_TASK_TITLE_LENGTH as int,
        add_task_step(pre, post),
    ensures
        post == (StateV { error: "Task title cannot be longer than 40"@, ..pre }),
        post.screen == pre.screen,
        post.task_list == pre.task_list,
{
}

/// Removing the last remaining task leaves the cursor on line zero, whatever
/// the refresh brought back.
pub proof fn lemma_remove_last_task_cursor(pre: StateV, post: StateV)
    requires
        pre.task_list.len() == 1,
        pre.line == 0,
        remove_task_step(pre, post),
    ensures
        post.line == 0,
{
}

/// A step down on the last line moves nothing.
pub proof fn lemma_menu_down_at_bottom(pre: StateV)
    requires
        pre.line == pre.task_list.len() - 1,
    ensures
        menu_down_step(pre) == pre,
{
}

/// A step up on the first line moves nothing.
pub proof fn lemma_menu_up_at_top(pre: StateV, post: StateV)
    requires
        pre.line == 0,
        dispatch_rel(pre, post, Action::MenuUp),
    ensures
        post == pre,
{
}

/// A masked character typed once the master key is full does not grow it.
pub proof fn lemma_masked_input_capped(pre: StateV, post: StateV, c: char)
    requires
        pre.master_key.len() >= MAX_MASTER_KEY_LENGTH,
        dispatch_rel(pre, post, Action::InputMaskedChar(c)),
    ensures
        post == pre,
        post.master_key == pre.master_key,
{
}

/// The action a key produces on a screen. The same key means different
/// actions on different screens; enter on the greetings screen stores the
/// secret on a first run and opens the main screen otherwise.
pub open spec fn key_action(screen: Screen, is_first_time: bool, key: Key) -> Action {
    match screen {
        Screen::Main => match key {
            Key::Char(c) => if c == 'a' {
                Action::OpenAddScreen
            } else if c == 'x' {
                Action::RemoveTask
            } else {
                Action::Empty
            },
            Key::Up => Action::MenuUp,
            Key::Down => Action::MenuDown,
            Key::Esc => Action::Exit,
            Key::Enter => Action::ToggleTaskStatus,
            _ => Action::Empty,
        },
        Screen::Add => match key {
            Key::Esc => Action::CancelAddTask,
            Key::Enter => Action::AddTask,
            Key::Char(c) => Action::InputChar(c),
            Key::Backspace => Action::RemoveChar,
            _ => Action::Empty,
        },
        Screen::Greetings => match key {
            Key::Esc => Action::Exit,
            Key::Char(c) => Action::InputMaskedChar(c),
            Key::Backspace => Action::RemoveMaskedChar,
            Key::Enter => if is_first_time {
                Action::AddSecret
            } else {
                Action::OpenMainScreen
            },
            _ => Action::Empty,
        },
    }
}

/// Decrypt every title in a fetched task list under one key. Succeeds exactly
/// when every title decrypts; the result keeps ids, statuses and order, with
/// each title replaced by its decryption.
pub fn decrypt_tasks(task_list: &Vec<Task>, key: &str) -> (r: Result<Vec<Task>, CipherError>)
    ensures
        match r {
            Ok(ts) => {
                &&& ts@.len() == task_list@.len()
                &&& forall|i: int|
                    0 <= i < task_list@.len() ==> decrypt_spec(
                        (#[trigger] task_list@[i])@.title,
                        key@,
                    ) is Some
                &&& forall|i: int|
                    0 <= i < task_list@.len() ==> (#[trigger] ts@[i])@ == (TaskV {
                        title: decrypt_spec(task_list@[i]@.title, key@).unwrap(),
                        ..task_list@[i]@
                    })
            },
            Err(_) => exists|i: int|
                0 <= i < task_list@.len() && decrypt_spec(
                    (#[trigger] task_list@[i])@.title,
                    key@,
                ) is None,
        },
{
    let mut out: Vec<Task> = Vec::new();
    let mut idx: usize = 0;
    while idx < task_list.len()
        invariant
            idx <= task_list@.len(),
            out@.len() == idx,
            forall|i: int|
                0 <= i < idx ==> decrypt_spec((#[trigger] task_list@[i])@.title, key@) is Some,
            forall|i: int|
                0 <= i < idx ==> (#[trigger] out@[i])@ == (TaskV {
                    title: decrypt_spec(task_list@[i]@.title, key@).unwrap(),
                    ..task_list@[i]@
                }),
        decreases task_list@.len() - idx,
    {
        let t = &task_list[idx];
        match decrypt(t.title.as_str(), key) {
            Ok(title) => {
                out.push(Task { id: t.id, title, status: t.status.clone() });
            },
            Err(e) => {
                proof {
                    assert(decrypt_spec(task_list@[idx as int]@.title, key@) is None);
                }
                return Err(e);
            },
        }
        idx = idx + 1;
    }
    Ok(out)
}

/// The application controller: the visible state and the storage gateway,
/// driven one action at a time.
pub struct Controller {
    pub state: State,
    pub client: Client,
}

impl Controller {
    /// A controller in the bootstrap state, with no connection yet.
    pub fn new() -> (c: Controller)
        ensures
            c.state@ == StateV::initial(),
            c.state@.wf(),
            c.client.connection is None,
    {
        Controller { state: State::new(), client: Client::default() }
    }

    /// Clear the error slot.
    fn do_reset_error(&mut self)
        ensures
            final(self).state@ == (StateV { error: no_error(), ..old(self).state@ }),
            final(self).client == old(self).client,
    {
        self.state.set_error(String::new());
    }

    /// Fetch all tasks, decrypt each title under the master key, replace the
    /// list and clamp the cursor; on any failure report it in the error slot
    /// and keep the list.
    fn do_get_tasks(&mut self)
        requires
            old(self).state@.wf(),
        ensures
            final(self).state@.wf(),
            get_tasks_step(old(self).state@, final(self).state@),
            final(self).client == old(self).client,
    {
        match self.client.get_tasks() {
            Ok(task_list) => {
                match decrypt_tasks(&task_list, self.state.get_master_key().as_str()) {
                    Ok(decrypted) => {
                        if decrypted.len() > 0x7fff_ffff {
                            proof {
                                reveal_strlit("Task list is too long");
                            }
                            self.state.set_error(String::from_str("Task list is too long"));
                        } else {
                            self.state.set_task_list(decrypted);
                            let len = self.state.get_task_list_length();
                            let line = self.state.get_line();
                            if len == 0 {
                                self.state.set_line(0);
                            } else if line >= len {
                                self.state.set_line(len - 1);
                            }
                            self.state.set_error(String::new());
                        }
                    },
                    Err(_) => {
                        proof {
                            reveal_strlit("Could not decrypt task");
                        }
                        self.state.set_error(String::from_str("Could not decrypt task"));
                    },
                }
            },
            Err(e) => {
                self.state.set_error(e.message);
            },
        }
    }

    /// Decide the key check from whatever the secret fetch returned: a failed
    /// fetch or an empty row list reports that no user could be got; a row
    /// whose secret the master key does not decrypt reports a wrong password
    /// and returns to the greetings screen; a row it decrypts resets the
    /// error and refreshes the task list.
    pub fn apply_secret_rows(&mut self, fetched: Result<Vec<User>, StorageError>)
        requires
            old(self).state@.wf(),
        ensures
            final(self).state@.wf(),
            final(self).client == old(self).client,
            fetched is Err ==> final(self).state@ == (StateV {
                error: "Could not get user"@,
                ..old(self).state@
            }),
            fetched is Ok && fetched->Ok_0@.len() == 0 ==> final(self).state@ == (StateV {
                error: "Could not get user"@,
                ..old(self).state@
            }),
            fetched is Ok && fetched->Ok_0@.len() > 0 && decrypt_spec(
                fetched->Ok_0@[0]@.secret,
                old(self).state@.master_key,
            ) is None ==> final(self).state@ == (StateV {
                error: "Password is wrong"@,
                screen: Screen::Greetings,
                ..old(self).state@
            }),
            fetched is Ok && fetched->Ok_0@.len() > 0 && decrypt_spec(
                fetched->Ok_0@[0]@.secret,
                old(self).state@.master_key,
            ) is Some ==> get_tasks_step(
                (StateV { error: no_error(), ..old(self).state@ }),
                final(self).state@,
            ),
    {
        match fetched {
            Ok(user_vec) => {
                if user_vec.len() == 0 {
                    self.state.set_error(String::from_str("Could not get user"));
                } else {
                    let decrypted = decrypt(
                        user_vec[0].secret.as_str(),
                        self.state.get_master_key().as_str(),
                    );
                    match decrypted {
                        Ok(_) => {
                            self.do_reset_error();
                            self.do_get_tasks();
                        },
                        Err(_) => {
                            self.state.set_error(String::from_str("Password is wrong"));
                            self.state.set_screen(Screen::Greetings);
                        },
                    }
                }
            },
            Err(_) => {
                self.state.set_error(String::from_str("Could not get user"));
            },
        }
    }

    /// Verify the master key against the stored secret; grant the task list
    /// on success, send the user back to the greetings screen on a wrong key.
    /// Which outcome the fetched rows force is pinned by `apply_secret_rows`.
    fn do_check_secret(&mut self)
        requires
            old(self).state@.wf(),
        ensures
            final(self).state@.wf(),
            check_secret_step(old(self).state@, final(self).state@),
            final(self).client == old(self).client,
    {
        let fetched = self.client.get_user();
        self.apply_secret_rows(fetched);
    }

    /// Switch to the main screen and re-validate the key.
    fn do_open_main(&mut self)
        requires
            old(self).state@.wf(),
        ensures
            final(self).state@.wf(),
            open_main_step(old(self).state@, final(self).state@),
            final(self).client == old(self).client,
    {
        self.state.set_screen(Screen::Main);
        self.do_check_secret();
    }

    /// Validate the typed title, encrypt it under the master key, insert it
    /// and open the main screen with the input cleared.
    fn do_add_task(&mut self)
        requires
            old(self).state@.wf(),
        ensures
            final(self).state@.wf(),
            add_task_step(old(self).state@, final(self).state@),
            final(self).client == old(self).client,
    {
        let len = self.state.get_input().as_str().unicode_len();
        if len == 0 {
            self.state.set_error(String::from_str("Please enter task title"));
        } else if len > MAX_TASK_TITLE_LENGTH {
            self.state.set_error(String::from_str("Task title cannot be longer than 40"));
        } else {
            let data = encrypt(
                self.state.get_input().as_str(),
                self.state.get_master_key().as_str(),
            );
            match self.client.create_task(data) {
                Ok(_) => {
                    proof {
                        reveal_strlit("");
                        assert(""@ =~= no_error());
                    }
                    self.state.set_input("");
                    self.do_open_main();
                },
                Err(e) => {
                    self.state.set_error(e.message);
                },
            }
        }
    }

    /// Encrypt the sentinel under the master key, store it as the secret row
    /// and open the main screen.
    fn do_add_secret(&mut self)
        requires
            old(self).state@.wf(),
        ensures
            final(self).state@.wf(),
            add_secret_step(old(self).state@, final(self).state@),
            final(self).client == old(self).client,
    {
        let data = encrypt(VERY_SECRET_TEXT, self.state.get_master_key().as_str());
        match self.client.create_user(data) {
            Ok(_) => {
                self.do_open_main();
            },
            Err(e) => {
                self.state.set_error(e.message);
            },
        }
    }

    /// Delete the selected task from storage (a deletion failure is swallowed,
    /// as the refresh shows the surviving rows), step the cursor up when it
    /// stood on the last entry, and refresh.
    fn do_remove_task(&mut self)
        requires
            old(self).state@.wf(),
        ensures
            final(self).state@.wf(),
            remove_task_step(old(self).state@, final(self).state@),
            final(self).client == old(self).client,
    {
        let index = self.state.get_line();
        let len = self.state.get_task_list_length();
        if index < len {
            let id = self.state.task_list[index as usize].id;
            let _ = self.client.remove_task(id);
        }
        if index == len - 1 {
            let line = self.state.get_line();
            if line > 0 {
                self.state.set_line(line - 1);
            }
        }
        self.do_get_tasks();
    }

    /// Flip the status of the selected task in storage (a failure is
    /// swallowed, as the refresh shows the stored rows) and refresh.
    fn do_toggle_task_status(&mut self)
        requires
            old(self).state@.wf(),
        ensures
            final(self).state@.wf(),
            get_tasks_step(old(self).state@, final(self).state@),
            final(self).client == old(self).client,
    {
        let index = self.state.get_line();
        let len = self.state.get_task_list_length();
        if index < len {
            let id = self.state.task_list[index as usize].id;
            let _ = self.client.update_task(id, self.state.task_list[index as usize].status.as_str());
        }
        self.do_get_tasks();
    }

    /// Apply one action to the state, calling into storage and the cipher as
    /// the action asks. The relation pins down the next state for every
    /// storage outcome, and the state invariant is kept.
    pub fn handle_action(&mut self, action: Action)
        requires
            old(self).state@.wf(),
        ensures
            final(self).state@.wf(),
            dispatch_rel(old(self).state@, final(self).state@, action),
            action != Action::Exit ==> final(self).client == old(self).client,
            action == Action::Exit ==> final(self).client.connection is None,
    {
        match action {
            Action::Init => {
                self.state.set_is_running(true);
            },
            Action::Exit => {
                self.state.set_is_running(false);
                let _ = self.client.close_connection();
            },
            Action::GetTasks => {
                self.do_get_tasks();
            },
            Action::MenuDown => {
                let current_line = self.state.get_line();
                let len = self.state.get_task_list_length();
                if current_line < len - 1 {
                    self.state.set_line(current_line + 1);
                }
            },
            Action::MenuUp => {
                let current_line = self.state.get_line();
                if current_line > 0 {
                    self.state.set_line(current_line - 1);
                }
            },
            Action::OpenMainScreen => {
                self.do_open_main();
            },
            Action::OpenAddScreen => {
                self.state.set_screen(Screen::Add);
                self.do_reset_error();
            },
            Action::OpenGreetingsScreen => {
                self.state.set_screen(Screen::Greetings);
            },
            Action::CancelAddTask => {
                self.state.set_screen(Screen::Main);
                self.do_reset_error();
            },
            Action::InputChar(ch) => {
                string_push_char(&mut self.state.input, ch);
            },
            Action::InputMaskedChar(ch) => {
                if self.state.master_key.as_str().unicode_len() < MAX_MASTER_KEY_LENGTH {
                    string_push_char(&mut self.state.master_key, ch);
                }
            },
            Action::RemoveChar => {
                let _ = string_pop_char(&mut self.state.input);
            },
            Action::RemoveMaskedChar => {
                let _ = string_pop_char(&mut self.state.master_key);
            },
            Action::AddTask => {
                self.do_add_task();
            },
            Action::AddSecret => {
                self.do_add_secret();
            },
            Action::CheckSecret => {
                self.do_check_secret();
            },
            Action::RemoveTask => {
                self.do_remove_task();
            },
            Action::ToggleTaskStatus => {
                self.do_toggle_task_status();
            },
            Action::ResetError => {
                self.do_reset_error();
            },
            Action::Empty => {},
            Action::ExportCSV => {},
        }
    }

    /// Map one key to the action it means on the current screen.
    pub fn handle_key_stroke(&self, key: Key) -> (r: Action)
        ensures
            r == key_action(self.state@.screen, self.state@.is_first_time, key),
    {
        match self.state.screen {
            Screen::Main => match key {
                Key::Char(c) => if c == 'a' {
                    Action::OpenAddScreen
                } else if c == 'x' {
                    Action::RemoveTask
                } else {
                    Action::Empty
                },
                Key::Up => Action::MenuUp,
                Key::Down => Action::MenuDown,
                Key::Esc => Action::Exit,
                Key::Enter => Action::ToggleTaskStatus,
                _ => Action::Empty,
            },
            Screen::Add => match key {
                Key::Esc => Action::CancelAddTask,
                Key::Enter => Action::AddTask,
                Key::Char(c) => Action::InputChar(c),
                Key::Backspace => Action::RemoveChar,
                _ => Action::Empty,
            },
            Screen::Greetings => match key {
                Key::Esc => Action::Exit,
                Key::Char(c) => Action::InputMaskedChar(c),
                Key::Backspace => Action::RemoveMaskedChar,
                Key::Enter => if self.state.get_is_first_time() {
                    Action::AddSecret
                } else {
                    Action::OpenMainScreen
                },
                _ => Action::Empty,
            },
        }
    }

    /// The one-time startup protocol: remember the first-run decision, show
    /// the greetings screen, open the database file `DB_NAME` under
    /// `db_path`, create both tables if missing, and mark the loop running.
    /// The caller resolves the storage directory and decides first-run from
    /// the file's absence.
    pub fn init_controller(&mut self, db_path: &str, is_first_time: bool) -> (r: Result<
        (),
        StorageError,
    >)
        requires
            old(self).state@.wf(),
        ensures
            final(self).state@.wf(),
            r is Ok ==> final(self).state@ == (StateV {
                is_first_time: is_first_time,
                screen: Screen::Greetings,
                is_running: true,
                ..old(self).state@
            }) && final(self).client.connection is Some,
            r is Err ==> final(self).state@ == (StateV {
                is_first_time: is_first_time,
                screen: Screen::Greetings,
                ..old(self).state@
            }) && r->Err_0.message@.len() > 0,
    {
        self.state.set_is_first_time(is_first_time);
        self.handle_action(Action::OpenGreetingsScreen);
        match self.client.open_connection(db_path, DB_NAME) {
            Ok(()) => {},
            Err(e) => {
                return Err(e);
            },
        }
        match self.client.create_user_table() {
            Ok(_) => {},
            Err(e) => {
                return Err(e);
            },
        }
        match self.client.create_todos_table() {
            Ok(_) => {},
            Err(e) => {
                return Err(e);
            },
        }
        self.handle_action(Action::Init);
        Ok(())
    }

    /// Close the storage connection at shutdown.
    pub fn exit(&mut self) -> (r: Result<(), StorageError>)
        ensures
            final(self).client.connection is None,
            final(self).state == old(self).state,
            old(self).client.connection is None ==> r is Err,
            r is Err ==> r->Err_0.message@.len() > 0,
    {
        match self.client.close_connection() {
            Ok(()) => Ok(()),
            Err(e) => Err(e),
        }
    }
}

} // verus!
