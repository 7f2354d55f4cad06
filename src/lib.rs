//! An in-memory store of life-management entries (tasks, appointments,
//! recurring reminders) with list / create / update / delete operations and
//! the snapshot that is mirrored to a backing file.

pub mod handlers;
pub mod lemmas;
pub mod model;
mod system;
