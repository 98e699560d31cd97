//! The server bridge of the Tan language: it turns HTTP requests into
//! interpreter values, interpreter values into HTTP responses, and decides the
//! per-request route, all over a plain model of the interpreter's values.

pub mod value;
pub mod wire;
pub mod response;
pub mod request;
pub mod server;
pub mod form;
pub mod date;
pub mod laws;
