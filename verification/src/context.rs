//! The module processing context: an immutable bundle of configuration that
//! travels with every module being processed.
//!
//! A context is constructed once per module-processing request, possibly
//! rebuilt with new field values by a transition during a pipeline run, and
//! discarded once the process result is produced. It is never mutated in
//! place: every "change" produces a new context value, so two contexts with
//! identical field contents are interchangeable.

use vstd::prelude::*;

use crate::registry::TransitionsByName;
use crate::values::CompileTimeInfo;
use crate::values::ModuleOptionsContext;
use crate::values::ResolveOptionsContext;

verus! {

/// The mathematical snapshot of a module processing context: the registry as
/// a mapping, the three configuration handles, and the layer tag as a
/// character sequence.
#[verifier::ext_equal]
pub ghost struct ContextView<T> {
    pub transitions: Map<Seq<char>, T>,
    pub compile_time_info: CompileTimeInfo,
    pub module_options_context: ModuleOptionsContext,
    pub resolve_options_context: ResolveOptionsContext,
    pub layer: Seq<char>,
}

/// An immutable snapshot of how a module should be built: the transitions
/// available to it, its compile-time environment, its module-level and
/// resolve-level option configuration, and the layer tag that partitions the
/// module graph so that the same source compiled under different transitions
/// does not collide.
pub struct ModuleAssetContext<T> {
    pub transitions: TransitionsByName<T>,
    pub compile_time_info: CompileTimeInfo,
    pub module_options_context: ModuleOptionsContext,
    pub resolve_options_context: ResolveOptionsContext,
    pub layer: String,
}

impl<T> View for ModuleAssetContext<T> {
    type V = ContextView<T>;

    open spec fn view(&self) -> ContextView<T> {
        ContextView {
            transitions: self.transitions@,
            compile_time_info: self.compile_time_info,
            module_options_context: self.module_options_context,
            resolve_options_context: self.resolve_options_context,
            layer: self.layer@,
        }
    }
}

impl<T> ModuleAssetContext<T> {
    /// A context is well formed when its registry is.
    pub open spec fn wf(&self) -> bool {
        self.transitions.wf()
    }

    /// Bundle the five fields into a fresh context value.
    pub fn new(
        transitions: TransitionsByName<T>,
        compile_time_info: CompileTimeInfo,
        module_options_context: ModuleOptionsContext,
        resolve_options_context: ResolveOptionsContext,
        layer: String,
    ) -> (r: Self)
        ensures
            r.transitions == transitions,
            r.compile_time_info == compile_time_info,
            r.module_options_context == module_options_context,
            r.resolve_options_context == resolve_options_context,
            r.layer == layer,
    {
        ModuleAssetContext {
            transitions,
            compile_time_info,
            module_options_context,
            resolve_options_context,
            layer,
        }
    }
}

} // verus!
