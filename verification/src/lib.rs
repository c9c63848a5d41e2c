//! A composable validation/serialization engine core.
//!
//! Declarative schema descriptions are compiled into a tree of variant
//! nodes.  Each node validates dynamically-shaped input into typed values
//! and serializes typed values back out through an event sink, threading a
//! per-call validation state (recursion guard, exactness score, partial
//! mode) through the whole tree and reporting failures as located error
//! reports.

pub mod errors;
pub mod generator;
pub mod laws;
pub mod schema;
pub mod serializer;
pub mod state;
pub mod validator;
pub mod value;

pub use value::Value;
pub use value::ValueS;
