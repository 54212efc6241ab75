//! Request handling for a small student and group registry.
pub mod model;
pub mod number;
pub mod text;
pub mod form;
pub mod reply;
pub mod students;
pub mod groups;
pub mod config;
pub mod routes;
