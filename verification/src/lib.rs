//! Request-handling rules of the chainpost server: session tokens, post
//! submission, rendering of a user's posts as HTML and CSV, the SQL
//! statements the handlers send, and the replies each handler gives.

pub mod api;
pub mod claims;
pub mod clock;
pub mod db;
pub mod laws;
pub mod services;
pub mod text;
pub mod pages;
pub mod render;
pub mod reading;
pub mod reply;
pub mod sheet;
