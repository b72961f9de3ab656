//! Invocation routing and background-batch coordination for a desktop image
//! compressor.
//!
//! The crate holds the decisions of the application as verified functions on
//! plain values: how a command line or a URL becomes an invocation, where an
//! invocation is routed, how a batch of concurrently running compressions is
//! accounted for and closed, and what is reported to the user. Windows,
//! network transfers and files are the caller's business: the caller performs
//! the effects that these functions return and reports back what happened.

pub mod settings;
pub mod text;
pub mod batch;
pub mod lifecycle;
pub mod invocation;
pub mod router;
pub mod paths;
pub mod percent;
pub mod query;
pub mod compress;
pub mod context_menu;
pub mod preview;
