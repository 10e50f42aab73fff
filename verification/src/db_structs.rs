//! The rows of the service's two tables: the people who may ping, and the pings.

pub mod pings;
pub mod users;
