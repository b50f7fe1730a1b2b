//! Core of a kanban service: the board data model, the rules by which the
//! server answers each request and keeps its read caches in agreement with
//! the database, and the request planning of the command-line client.

pub mod text;
pub mod clock;
pub use clock::now;
pub mod ids;
pub mod status;
pub mod model;
pub mod db;
pub mod cache;
pub mod coherence;
pub mod handlers;
pub mod cli;
pub mod exchange;
