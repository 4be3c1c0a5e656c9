//! Composes a parameterised-case test attribute stack with a log-capturing
//! test wrapper on a function item.
//!
//! The library works on a plain token model. The caller hands it the
//! function item already split into attributes, visibility, signature and
//! body. It gets back the rewritten item, or that item's flat token form.
pub mod tokens;
pub mod item;
pub mod compose;
pub mod emit;
