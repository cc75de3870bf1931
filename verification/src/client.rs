use vstd::prelude::*;
use vstd::string::StringExecFns;

use crate::task::Task;
use crate::user::User;

verus! {

/// A storage failure: the connection is absent, a statement failed, or the
/// location cannot be opened. The message carries the underlying cause.
#[derive(Debug, Clone, PartialEq)]
pub struct StorageError {
    pub message: String,
}

/// rusqlite's connection handle; opaque here. Every statement the gateway
/// runs goes through it.
#[verifier::external_type_specification]
#[verifier::external_body]
pub struct ExConnection(rusqlite::Connection);

/// Relies on rusqlite's `Connection::open`: opens, creating it if missing,
/// the database file at the path; fails when the location cannot be opened.
#[verifier::external_body]
fn conn_open(path: &str) -> (r: Result<rusqlite::Connection, String>) {
    rusqlite::Connection::open(path).map_err(|e| format!("{}", e))
}

/// Relies on rusqlite's `Connection::open_in_memory`: opens a fresh database
/// that lives only in this process.
#[verifier::external_body]
fn conn_open_in_memory() -> (r: Result<rusqlite::Connection, String>) {
    rusqlite::Connection::open_in_memory().map_err(|e| format!("{}", e))
}

/// Relies on rusqlite's `Connection::close`: flushes and closes the handle.
#[verifier::external_body]
fn conn_close(conn: rusqlite::Connection) -> (r: Result<(), String>) {
    conn.close().map_err(|(_, e)| format!("{}", e))
}

/// Relies on rusqlite's `Connection::execute`, instantiated at a list of text
/// parameters.
#[verifier::external_body]
fn conn_execute(conn: &rusqlite::Connection, sql: &str, params: &Vec<String>) -> (r: Result<
    usize,
    String,
>) {
    conn.execute(sql, rusqlite::params_from_iter(params.iter())).map_err(|e| format!("{}", e))
}

/// Relies on rusqlite's `Connection::execute`, instantiated at one integer
/// parameter.
#[verifier::external_body]
fn conn_execute_int(conn: &rusqlite::Connection, sql: &str, param: i32) -> (r: Result<
    usize,
    String,
>) {
    conn.execute(sql, [param]).map_err(|e| format!("{}", e))
}

/// Relies on rusqlite's `Connection::execute`, instantiated at a text and an
/// integer parameter.
#[verifier::external_body]
fn conn_execute_str_int(conn: &rusqlite::Connection, sql: &str, text: &str, num: i32) -> (r: Result<
    usize,
    String,
>) {
    conn.execute(sql, (text, num)).map_err(|e| format!("{}", e))
}

/// Relies on rusqlite's `Statement::query_map` over a three-column row shape:
/// returns whatever task rows the database holds, in statement order.
#[verifier::external_body]
fn conn_query_tasks(conn: &rusqlite::Connection, sql: &str) -> (r: Result<Vec<Task>, String>) {
    let mut stmt = conn.prepare(sql).map_err(|e| format!("{}", e))?;
    let rows = stmt.query_map(
        [],
        |row| Ok(Task { id: row.get(0)?, title: row.get(1)?, status: row.get(2)? }),
    ).map_err(|e| format!("{}", e))?;
    rows.collect::<Result<Vec<Task>, _>>().map_err(|e| format!("{}", e))
}

/// Relies on rusqlite's `Statement::query_map` over a two-column row shape:
/// returns whatever secret rows the database holds, in statement order.
#[verifier::external_body]
fn conn_query_users(conn: &rusqlite::Connection, sql: &str) -> (r: Result<Vec<User>, String>) {
    let mut stmt = conn.prepare(sql).map_err(|e| format!("{}", e))?;
    let rows = stmt.query_map([], |row| Ok(User { id: row.get(0)?, secret: row.get(1)? })).map_err(
        |e| format!("{}", e),
    )?;
    rows.collect::<Result<Vec<User>, _>>().map_err(|e| format!("{}", e))
}

/// Prefix a storage failure message with what the gateway was doing.
fn storage_error(prefix: &str, cause: String) -> (r: StorageError)
    ensures
        r.message@ == prefix@ + cause@,
{
    let mut message = String::from_str(prefix);
    message.append(cause.as_str());
    StorageError { message }
}

/// The persistence gateway: one long-lived connection, opened at bootstrap,
/// absent before that and after closing.
pub struct Client {
    pub connection: Option<rusqlite::Connection>,
}

impl Default for Client {
    /// A gateway with no connection yet.
    fn default() -> (r: Self)
        ensures
            r.connection is None,
    {
        Client { connection: None }
    }
}

impl Client {
    /// The held connection itself, or a failure with its fixed message when
    /// none was opened.
    pub fn get_connection(&self) -> (r: Result<&rusqlite::Connection, StorageError>)
        ensures
            r is Ok <==> self.connection is Some,
            r is Ok ==> self.connection == Some(*r->Ok_0),
            r is Err ==> r->Err_0.message@ == "Could not open connection"@,
            r is Err ==> r->Err_0.message@.len() > 0,
    {
        match &self.connection {
            Some(connection) => Ok(connection),
            None => {
                proof {
                    reveal_strlit("Could not open connection");
                }
                Err(StorageError { message: String::from_str("Could not open connection") })
            },
        }
    }

    /// Open the database file `db_name` inside the directory `path`. Success
    /// leaves a connection in place; failure leaves the gateway as it was.
    pub fn open_connection(&mut self, path: &str, db_name: &str) -> (r: Result<(), StorageError>)
        ensures
            r is Ok ==> final(self).connection is Some,
            r is Err ==> *final(self) == *old(self),
            r is Err ==> r->Err_0.message@.len() > 0,
    {
        let mut full_path = String::from_str(path);
        full_path.append("/");
        full_path.append(db_name);
        match conn_open(full_path.as_str()) {
            Ok(connection) => {
                self.connection = Some(connection);
                Ok(())
            },
            Err(cause) => {
                proof {
                    reveal_strlit("Could not open connection, e: ");
                }
                Err(storage_error("Could not open connection, e: ", cause))
            },
        }
    }

    /// Open a connection to a database that lives only in this process; the
    /// reset and test path, where no file location is wanted.
    pub fn open_in_memory_connection(&mut self) -> (r: Result<(), StorageError>)
        ensures
            r is Ok ==> final(self).connection is Some,
            r is Err ==> *final(self) == *old(self),
            r is Err ==> r->Err_0.message@.len() > 0,
    {
        match conn_open_in_memory() {
            Ok(connection) => {
                self.connection = Some(connection);
                Ok(())
            },
            Err(cause) => {
                proof {
                    reveal_strlit("Could not open connection, e: ");
                }
                Err(storage_error("Could not open connection, e: ", cause))
            },
        }
    }

    /// Close and give up the connection. The connection is gone afterwards
    /// even when closing itself failed; closing without one is a failure.
    pub fn close_connection(&mut self) -> (r: Result<(), StorageError>)
        ensures
            final(self).connection is None,
            old(self).connection is None ==> r is Err,
            r is Err ==> r->Err_0.message@.len() > 0,
    {
        match self.connection.take() {
            Some(connection) => match conn_close(connection) {
                Ok(()) => Ok(()),
                Err(_) => {
                    proof {
                        reveal_strlit("Could not close connection");
                    }
                    Err(StorageError { message: String::from_str("Could not close connection") })
                },
            },
            None => {
                proof {
                    reveal_strlit("Could not find connection");
                }
                Err(StorageError { message: String::from_str("Could not find connection") })
            },
        }
    }

    /// Create the task table if it is missing; never destructive.
    pub fn create_todos_table(&self) -> (r: Result<usize, StorageError>)
        ensures
            self.connection is None ==> r is Err,
            r is Err ==> r->Err_0.message@.len() > 0,
    {
        let query = "CREATE TABLE IF NOT EXISTS todos (
                     id INTEGER NOT NULL PRIMARY KEY,
                     title TEXT,
                     status TEXT
                    );";
        match self.get_connection() {
            Ok(c) => match conn_execute(c, query, &Vec::new()) {
                Ok(n) => Ok(n),
                Err(cause) => {
                    proof {
                        reveal_strlit("Could not create todos table, e: ");
                    }
                    Err(storage_error("Could not create todos table, e: ", cause))
                },
            },
            Err(e) => Err(e),
        }
    }

    /// Create the secret table if it is missing; never destructive.
    pub fn create_user_table(&self) -> (r: Result<usize, StorageError>)
        ensures
            self.connection is None ==> r is Err,
            r is Err ==> r->Err_0.message@.len() > 0,
    {
        let query = "CREATE TABLE IF NOT EXISTS user (
                   id INTEGER NOT NULL PRIMARY KEY,
                   secret TEXT
                  );";
        match self.get_connection() {
            Ok(c) => match conn_execute(c, query, &Vec::new()) {
                Ok(n) => Ok(n),
                Err(cause) => {
                    proof {
                        reveal_strlit("Could not create user table, e: ");
                    }
                    Err(storage_error("Could not create user table, e: ", cause))
                },
            },
            Err(e) => Err(e),
        }
    }

    /// Every task row in storage, titles still encrypted.
    pub fn get_tasks(&self) -> (r: Result<Vec<Task>, StorageError>)
        ensures
            self.connection is None ==> r is Err,
            r is Err ==> r->Err_0.message@.len() > 0,
    {
        match self.get_connection() {
            Ok(c) => match conn_query_tasks(c, "SELECT * FROM todos") {
                Ok(tasks) => Ok(tasks),
                Err(cause) => {
                    proof {
                        reveal_strlit("Could not get tasks, e: ");
                    }
                    Err(storage_error("Could not get tasks, e: ", cause))
                },
            },
            Err(e) => Err(e),
        }
    }

    /// Insert a task with an encrypted title; the status starts in progress.
    pub fn create_task(&self, title: String) -> (r: Result<usize, StorageError>)
        ensures
            self.connection is None ==> r is Err,
            r is Err ==> r->Err_0.message@.len() > 0,
    {
        match self.get_connection() {
            Ok(c) => {
                let params = vec![title];
                match conn_execute(
                    c,
                    "INSERT INTO todos (title, status) VALUES(?1, 'in-progress')",
                    &params,
                ) {
                    Ok(n) => Ok(n),
                    Err(cause) => {
                        proof {
                            reveal_strlit("Could not insert task, e: ");
                        }
                        Err(storage_error("Could not insert task, e: ", cause))
                    },
                }
            },
            Err(e) => Err(e),
        }
    }

    /// Insert the secret row holding the encrypted sentinel.
    pub fn create_user(&self, secret: String) -> (r: Result<usize, StorageError>)
        ensures
            self.connection is None ==> r is Err,
            r is Err ==> r->Err_0.message@.len() > 0,
    {
        match self.get_connection() {
            Ok(c) => {
                let params = vec![secret];
                match conn_execute(c, "INSERT INTO user (secret) VALUES(?1)", &params) {
                    Ok(n) => Ok(n),
                    Err(cause) => {
                        proof {
                            reveal_strlit("Could not insert user, e: ");
                        }
                        Err(storage_error("Could not insert user, e: ", cause))
                    },
                }
            },
            Err(e) => Err(e),
        }
    }

    /// The secret row, as a list that is empty when none was created yet.
    pub fn get_user(&self) -> (r: Result<Vec<User>, StorageError>)
        ensures
            self.connection is None ==> r is Err,
            r is Err ==> r->Err_0.message@.len() > 0,
    {
        match self.get_connection() {
            Ok(c) => match conn_query_users(c, "SELECT * FROM user where id=1") {
                Ok(users) => Ok(users),
                Err(cause) => {
                    proof {
                        reveal_strlit("Could not get user, e: ");
                    }
                    Err(storage_error("Could not get user, e: ", cause))
                },
            },
            Err(e) => Err(e),
        }
    }

    /// Delete the task with the given id.
    pub fn remove_task(&self, id: i32) -> (r: Result<usize, StorageError>)
        ensures
            self.connection is None ==> r is Err,
            r is Err ==> r->Err_0.message@.len() > 0,
    {
        match self.get_connection() {
            Ok(c) => match conn_execute_int(c, "DELETE FROM todos where id=?1", id) {
                Ok(n) => Ok(n),
                Err(cause) => {
                    proof {
                        reveal_strlit("Could not remove task, e: ");
                    }
                    Err(storage_error("Could not remove task, e: ", cause))
                },
            },
            Err(e) => Err(e),
        }
    }

    /// Flip a status text: in progress becomes completed and anything else
    /// becomes in progress.
    pub fn next_status(current_status: &str) -> (r: &'static str)
        ensures
            current_status@ == "in-progress"@ ==> r@ == "completed"@,
            current_status@ != "in-progress"@ ==> r@ == "in-progress"@,
    {
        let current = String::from_str(current_status);
        let in_progress = String::from_str("in-progress");
        if current == in_progress {
            "completed"
        } else {
            "in-progress"
        }
    }

    /// Write the flipped status for the task with the given id.
    pub fn update_task(&self, id: i32, current_status: &str) -> (r: Result<usize, StorageError>)
        ensures
            self.connection is None ==> r is Err,
            r is Err ==> r->Err_0.message@.len() > 0,
    {
        let new_status = Self::next_status(current_status);
        match self.get_connection() {
            Ok(c) => match conn_execute_str_int(
                c,
                "UPDATE todos SET status=?1 WHERE id=?2",
                new_status,
                id,
            ) {
                Ok(n) => Ok(n),
                Err(cause) => {
                    proof {
                        reveal_strlit("Could not update task, e: ");
                    }
                    Err(storage_error("Could not update task, e: ", cause))
                },
            },
            Err(e) => Err(e),
        }
    }

    /// Delete every secret row; the reset path.
    pub fn remove_user(&self) -> (r: Result<usize, StorageError>)
        ensures
            self.connection is None ==> r is Err,
            r is Err ==> r->Err_0.message@.len() > 0,
    {
        match self.get_connection() {
            Ok(c) => match conn_execute(c, "DELETE FROM user", &Vec::new()) {
                Ok(n) => Ok(n),
                Err(cause) => {
                    proof {
                        reveal_strlit("Could not remove user, e: ");
                    }
                    Err(storage_error("Could not remove user, e: ", cause))
                },
            },
            Err(e) => Err(e),
        }
    }
}

} // verus!
