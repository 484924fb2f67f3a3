//! A bridge between PHP and the V8 JavaScript engine: the value mapping
//! rules, the bookkeeping of properties, callbacks and CommonJS modules,
//! and the decisions taken while a script runs under time and memory limits.
pub mod values;
pub mod convert;
pub mod table;
pub mod runtime;
pub mod bridge;
pub mod laws;
pub mod rules;
