//! Rendering of accepted HTTP requests as text reports, together with the
//! decisions of the loop that prints them and answers each client.

pub mod cli;
pub mod dispatch;
pub mod error;
pub mod render;
pub mod request;
pub mod text;
