//! The operations that a user can ask for, one function each.

pub mod notices;
pub mod schedules;
pub mod system;
pub mod zones;
