//! Verified core of a small web service that lets friends "ping" a person by
//! briefly changing the colour of their smart lights.

pub mod clock;
pub mod db_structs;
pub mod helpers;
pub mod random;
pub mod routes;
pub mod settings;
pub mod text;
pub mod web;
