//! A single-user, local-first task manager core: an action-driven state
//! machine over screens, text buffers and an encrypted task store, gated by a
//! master-key-derived cipher.

pub mod client;
pub mod constants;
pub mod controller;
pub mod csv;
pub mod encdec;
pub mod hexstr;
pub mod state;
pub mod strutil;
pub mod task;
pub mod user;
