use vstd::prelude::*;
use vstd::string::StringExecFns;

use crate::constants::{Screen, MAX_MASTER_KEY_LENGTH};
use crate::task::{Task, TaskV};

verus! {

/// Everything the state machine and the renderer need: the active screen, the
/// decrypted task list, the cursor line, the two text buffers, the transient
/// error message, the first-run flag, the running flag and the master key.
pub struct State {
    pub task_list: Vec<Task>,
    pub is_running: bool,
    pub screen: Screen,
    pub line: i32,
    pub input: String,
    pub error: String,
    pub is_first_time: bool,
    pub master_key: String,
}

/// Mathematical image of a `State`.
#[verifier::ext_equal]
pub struct StateV {
    pub task_list: Seq<TaskV>,
    pub is_running: bool,
    pub screen: Screen,
    pub line: int,
    pub input: Seq<char>,
    pub error: Seq<char>,
    pub is_first_time: bool,
    pub master_key: Seq<char>,
}

impl View for State {
    type V = StateV;

    open spec fn view(&self) -> StateV {
        StateV {
            task_list: self.task_list@.map_values(|t: Task| t@),
            is_running: self.is_running,
            screen: self.screen,
            line: self.line as int,
            input: self.input@,
            error: self.error@,
            is_first_time: self.is_first_time,
            master_key: self.master_key@,
        }
    }
}

impl StateV {
    /// The bootstrap state: nothing loaded, nothing typed, main screen, not
    /// running.
    pub open spec fn initial() -> StateV {
        StateV {
            task_list: Seq::<TaskV>::empty(),
            is_running: false,
            screen: Screen::Main,
            line: 0,
            input: Seq::<char>::empty(),
            error: Seq::<char>::empty(),
            is_first_time: false,
            master_key: Seq::<char>::empty(),
        }
    }

    /// The state the dispatcher keeps invariant: the cursor stays inside
    /// `[0, max(1, len(task_list)))`, the master key never exceeds its
    /// maximum length, and the task list stays addressable through an `i32`.
    pub open spec fn wf(self) -> bool {
        &&& 0 <= self.line
        &&& if self.task_list.len() == 0 {
            self.line == 0
        } else {
            self.line < self.task_list.len()
        }
        &&& self.master_key.len() <= MAX_MASTER_KEY_LENGTH
        &&& self.task_list.len() <= 0x7fff_ffff
    }
}

impl State {
    /// The bootstrap state: nothing loaded, nothing typed, main screen,
    /// not running.
    pub fn new() -> (s: State)
        ensures
            s@ == StateV::initial(),
            s@.wf(),
    {
        let s = State {
            task_list: Vec::new(),
            is_running: false,
            screen: Screen::Main,
            line: 0,
            input: String::new(),
            error: String::new(),
            is_first_time: false,
            master_key: String::new(),
        };
        proof {
            assert(s@.task_list =~= Seq::<TaskV>::empty());
        }
        s
    }

    pub fn get_error(&self) -> (r: &String)
        ensures
            r@ == self@.error,
    {
        &self.error
    }

    pub fn set_error(&mut self, error: String)
        ensures
            final(self)@ == (StateV { error: error@, ..old(self)@ }),
    {
        self.error = error;
    }

    pub fn get_input(&self) -> (r: &String)
        ensures
            r@ == self@.input,
    {
        &self.input
    }

    pub fn set_input(&mut self, input: &str)
        ensures
            final(self)@ == (StateV { input: input@, ..old(self)@ }),
    {
        self.input = String::from_str(input);
    }

    pub fn get_line(&self) -> (r: i32)
        ensures
            r as int == self@.line,
    {
        self.line
    }

    pub fn set_line(&mut self, line: i32)
        ensures
            final(self)@ == (StateV { line: line as int, ..old(self)@ }),
    {
        self.line = line;
    }

    pub fn get_screen(&self) -> (r: &Screen)
        ensures
            *r == self@.screen,
    {
        &self.screen
    }

    pub fn set_screen(&mut self, screen: Screen)
        ensures
            final(self)@ == (StateV { screen: screen, ..old(self)@ }),
    {
        self.screen = screen;
    }

    pub fn get_is_running(&self) -> (r: bool)
        ensures
            r == self@.is_running,
    {
        self.is_running
    }

    pub fn set_is_running(&mut self, is_running: bool)
        ensures
            final(self)@ == (StateV { is_running: is_running, ..old(self)@ }),
    {
        self.is_running = is_running;
    }

    pub fn get_task_list(&self) -> (r: &Vec<Task>)
        ensures
            r@.map_values(|t: Task| t@) == self@.task_list,
    {
        &self.task_list
    }

    pub fn set_task_list(&mut self, task_list: Vec<Task>)
        ensures
            final(self)@ == (StateV {
                task_list: task_list@.map_values(|t: Task| t@),
                ..old(self)@
            }),
    {
        self.task_list = task_list;
    }

    /// The number of tasks, as the cursor arithmetic uses it.
    pub fn get_task_list_length(&self) -> (r: i32)
        requires
            self@.task_list.len() <= 0x7fff_ffff,
        ensures
            r as int == self@.task_list.len(),
    {
        self.task_list.len() as i32
    }

    pub fn get_is_first_time(&self) -> (r: bool)
        ensures
            r == self@.is_first_time,
    {
        self.is_first_time
    }

    pub fn set_is_first_time(&mut self, is_first_time: bool)
        ensures
            final(self)@ == (StateV { is_first_time: is_first_time, ..old(self)@ }),
    {
        self.is_first_time = is_first_time;
    }

    pub fn get_master_key(&self) -> (r: &String)
        ensures
            r@ == self@.master_key,
    {
        &self.master_key
    }

    pub fn set_master_key(&mut self, master_key: String)
        ensures
            final(self)@ == (StateV { master_key: master_key@, ..old(self)@ }),
    {
        self.master_key = master_key;
    }
}

} // verus!
