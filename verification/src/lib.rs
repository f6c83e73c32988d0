//! Source attribution for a script debugger.
//!
//! A script engine reports every piece of source that it compiles. This
//! library decides whether such a source is worth showing to a debugging
//! session, settles its URL, and builds the record that is handed on.

pub mod event;
pub mod id;
pub mod policy;
pub mod resolver;
pub mod source;
pub mod source_url;
pub mod text;
pub mod thread_info;
