//! A module transition pipeline: named, pluggable policies that rewrite how a
//! single module is loaded, compiled and linked, composed around an external
//! default loader.
//!
//! The pipeline threads opaque values (sources, modules, configuration
//! handles) through a fixed sequence of hooks. Every operation is a pure
//! transformation from input values to output values, and every public
//! function carries a contract that pins its result down exactly.

pub mod builtin;
pub mod context;
pub mod global_hash;
pub mod registry;
pub mod transition;
pub mod values;
