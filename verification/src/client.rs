//! The client's side: what it asks of the server, what it makes of the
//! answers, and the state that its window shows.

pub mod models;
pub mod replies;
pub mod requests;
pub mod state;
