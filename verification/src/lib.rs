//! A minimal HTTP/1.1 request pipeline: byte-level request parsing, fixed-table
//! routing, handler logic, and response serialization, all verified. Socket and
//! filesystem work stays outside; the library turns a raw request buffer into
//! either a finished response or a filesystem action for the caller to perform.

pub mod ascii;
pub mod parse;
pub mod response;
pub mod router;
pub mod pipeline;
pub mod laws;
