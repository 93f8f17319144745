//! The opaque values that travel through the pipeline.
//!
//! Sources, modules and the three configuration records are owned by external
//! collaborators (the default loader and the computation engine that schedules
//! the hooks). The pipeline never inspects their internals: it only threads
//! them through hooks and the loader. Each is therefore modelled as a
//! content-identified handle, a plain value whose identity is all the
//! pipeline ever relies on.

use vstd::prelude::*;

verus! {

/// Handle to an unprocessed build input (a file's contents plus identity).
#[derive(Clone, Copy, Debug, PartialEq, Eq, Structural)]
pub struct Source {
    pub id: u64,
}

/// Handle to a compiled build unit, ready for graph linking.
#[derive(Clone, Copy, Debug, PartialEq, Eq, Structural)]
pub struct Module {
    pub id: u64,
}

/// Handle to the compile-time environment consulted while compiling
/// (target environment, platform defines).
#[derive(Clone, Copy, Debug, PartialEq, Eq, Structural)]
pub struct CompileTimeInfo {
    pub id: u64,
}

/// Handle to the configuration governing how a module is compiled
/// (enabled loaders and transforms).
#[derive(Clone, Copy, Debug, PartialEq, Eq, Structural)]
pub struct ModuleOptionsContext {
    pub id: u64,
}

/// Handle to the configuration governing how a module's imports are located
/// (extension and alias rules).
#[derive(Clone, Copy, Debug, PartialEq, Eq, Structural)]
pub struct ResolveOptionsContext {
    pub id: u64,
}

/// Why a module is being requested. The pipeline forwards this hint to the
/// default loader without inspecting it.
#[derive(Clone, Copy, Debug, PartialEq, Eq, Structural)]
pub enum ReferenceType {
    /// A static import.
    Static,
    /// A dynamic import.
    Dynamic,
    /// An entry point.
    Entry,
}

/// The outcome of one pipeline run: either a module was produced, or the
/// loader decided the asset should not become a module at all.
#[derive(Clone, Copy, Debug, PartialEq, Eq, Structural)]
pub enum ProcessResult {
    /// A module was produced by the default loader (and possibly rewritten
    /// afterwards by the active transition).
    Module(Module),
    /// The default loader decided to ignore the asset. This variant is
    /// final: no module-level rewriting is applied to it.
    Ignore,
}

/// An opaque failure raised by the default loader (an unresolvable source,
/// unsupported syntax). The pipeline propagates it to its caller unchanged:
/// it never retries and never downgrades a failure to a partial result.
#[derive(Clone, Copy, Debug, PartialEq, Eq, Structural)]
pub struct ProcessError {
    pub code: u64,
}

} // verus!
