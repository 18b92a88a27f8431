//! A REST service over todos, users and roles, kept in a remote record store.
//!
//! The library holds the service's decisions: which store call each request
//! makes, how the store's answers are read, the check-then-act protocols for
//! create, update and delete, and the reply that each outcome gets. Running
//! the store calls and speaking HTTP is left to the program around it.
pub mod clock;
pub mod flow;
pub mod laws;
pub mod model;
pub mod reply;
pub mod roles;
pub mod repository;
pub mod store;
pub mod todos;
pub mod users;
