//! A verified hello-world web service.
//!
//! The service answers every `GET` request with one fixed HTML page. This
//! crate holds what the service decides: the page itself, the table of
//! routes that lead to it, the choice of the log filter and the address to
//! listen on. Starting the logger, binding the socket and serving are left
//! to the program that uses it.

pub mod handler;
pub mod router;
pub mod settings;
