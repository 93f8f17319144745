//! Ready-made transitions and loaders.
//!
//! `NoopTransition` is the canonical identity transition: "run the pipeline
//! with no transition" is this value, not a separate code path, which keeps
//! the driver the single code path and makes the identity-pipeline law
//! directly applicable to it. The remaining types are small, concrete
//! policies and loaders that exercise one aspect of the pipeline each.

use vstd::prelude::*;
use vstd::string::StringExecFns;

use crate::context::ContextView;
use crate::context::ModuleAssetContext;
use crate::transition::lemma_identity_pipeline;
use crate::transition::spec_process;
use crate::transition::DefaultLoader;
use crate::transition::Transition;
use crate::values::CompileTimeInfo;
use crate::values::Module;
use crate::values::ModuleOptionsContext;
use crate::values::ProcessError;
use crate::values::ProcessResult;
use crate::values::ReferenceType;
use crate::values::ResolveOptionsContext;
use crate::values::Source;

verus! {

/// The identity transition: every hook, the layer hook included, returns
/// its input unchanged. Running the pipeline with this transition is the
/// untransformed default pipeline.
#[derive(Clone, Copy, Debug, PartialEq, Eq, Structural)]
pub struct NoopTransition;

impl Transition for NoopTransition {
    open spec fn spec_process_source(&self, source: Source) -> Source {
        source
    }

    open spec fn spec_process_compile_time_info(
        &self,
        compile_time_info: CompileTimeInfo,
    ) -> CompileTimeInfo {
        compile_time_info
    }

    open spec fn spec_process_layer(&self, layer: Seq<char>) -> Seq<char> {
        layer
    }

    open spec fn spec_process_module_options_context(
        &self,
        module_options_context: ModuleOptionsContext,
    ) -> ModuleOptionsContext {
        module_options_context
    }

    open spec fn spec_process_resolve_options_context(
        &self,
        resolve_options_context: ResolveOptionsContext,
    ) -> ResolveOptionsContext {
        resolve_options_context
    }

    open spec fn spec_process_module(&self, module: Module, context: ContextView<Self>) -> Module {
        module
    }

    fn process_source(&self, source: Source) -> (r: Source) {
        source
    }

    fn process_compile_time_info(&self, compile_time_info: CompileTimeInfo) -> (r:
        CompileTimeInfo) {
        compile_time_info
    }

    fn process_layer(&self, layer: String) -> (r: String) {
        layer
    }

    fn process_module_options_context(
        &self,
        module_options_context: ModuleOptionsContext,
    ) -> (r: ModuleOptionsContext) {
        module_options_context
    }

    fn process_resolve_options_context(
        &self,
        resolve_options_context: ResolveOptionsContext,
    ) -> (r: ResolveOptionsContext) {
        resolve_options_context
    }

    fn process_module(&self, module: Module, context: &ModuleAssetContext<Self>) -> (r: Module) {
        module
    }
}

/// Law, applied to the canonical identity transition: the pipeline run with
/// `NoopTransition` produces exactly the default loader's own result on the
/// original source, context and reference type.
pub proof fn lemma_noop_pipeline_is_default<L: DefaultLoader<NoopTransition>>(
    loader: L,
    source: Source,
    context: ContextView<NoopTransition>,
    reference_type: ReferenceType,
)
    ensures
        spec_process(NoopTransition, loader, source, context, reference_type)
            == loader.spec_process_default(context, source, reference_type),
{
    lemma_identity_pipeline(NoopTransition, loader, source, context, reference_type);
}

/// A transition that relabels the build layer by appending a fixed suffix
/// to it, and leaves everything else untouched: modules loaded under it end
/// up in their own layer bucket.
pub struct LayerSuffixTransition {
    pub suffix: String,
}

impl Transition for LayerSuffixTransition {
    open spec fn spec_process_source(&self, source: Source) -> Source {
        source
    }

    open spec fn spec_process_compile_time_info(
        &self,
        compile_time_info: CompileTimeInfo,
    ) -> CompileTimeInfo {
        compile_time_info
    }

    open spec fn spec_process_layer(&self, layer: Seq<char>) -> Seq<char> {
        layer + self.suffix@
    }

    open spec fn spec_process_module_options_context(
        &self,
        module_options_context: ModuleOptionsContext,
    ) -> ModuleOptionsContext {
        module_options_context
    }

    open spec fn spec_process_resolve_options_context(
        &self,
        resolve_options_context: ResolveOptionsContext,
    ) -> ResolveOptionsContext {
        resolve_options_context
    }

    open spec fn spec_process_module(&self, module: Module, context: ContextView<Self>) -> Module {
        module
    }

    fn process_source(&self, source: Source) -> (r: Source) {
        source
    }

    fn process_compile_time_info(&self, compile_time_info: CompileTimeInfo) -> (r:
        CompileTimeInfo) {
        compile_time_info
    }

    fn process_layer(&self, layer: String) -> (r: String) {
        layer.concat(self.suffix.as_str())
    }

    fn process_module_options_context(
        &self,
        module_options_context: ModuleOptionsContext,
    ) -> (r: ModuleOptionsContext) {
        module_options_context
    }

    fn process_resolve_options_context(
        &self,
        resolve_options_context: ResolveOptionsContext,
    ) -> (r: ResolveOptionsContext) {
        resolve_options_context
    }

    fn process_module(&self, module: Module, context: &ModuleAssetContext<Self>) -> (r: Module) {
        module
    }
}

/// A transition that swaps in a fixed compile-time environment and leaves
/// every other field — layer included — untouched.
#[derive(Clone, Copy, Debug, PartialEq, Eq, Structural)]
pub struct CompileTimeInfoTransition {
    pub compile_time_info: CompileTimeInfo,
}

impl Transition for CompileTimeInfoTransition {
    open spec fn spec_process_source(&self, source: Source) -> Source {
        source
    }

    open spec fn spec_process_compile_time_info(
        &self,
        compile_time_info: CompileTimeInfo,
    ) -> CompileTimeInfo {
        self.compile_time_info
    }

    open spec fn spec_process_layer(&self, layer: Seq<char>) -> Seq<char> {
        layer
    }

    open spec fn spec_process_module_options_context(
        &self,
        module_options_context: ModuleOptionsContext,
    ) -> ModuleOptionsContext {
        module_options_context
    }

    open spec fn spec_process_resolve_options_context(
        &self,
        resolve_options_context: ResolveOptionsContext,
    ) -> ResolveOptionsContext {
        resolve_options_context
    }

    open spec fn spec_process_module(&self, module: Module, context: ContextView<Self>) -> Module {
        module
    }

    fn process_source(&self, source: Source) -> (r: Source) {
        source
    }

    fn process_compile_time_info(&self, compile_time_info: CompileTimeInfo) -> (r:
        CompileTimeInfo) {
        self.compile_time_info
    }

    fn process_layer(&self, layer: String) -> (r: String) {
        layer
    }

    fn process_module_options_context(
        &self,
        module_options_context: ModuleOptionsContext,
    ) -> (r: ModuleOptionsContext) {
        module_options_context
    }

    fn process_resolve_options_context(
        &self,
        resolve_options_context: ResolveOptionsContext,
    ) -> (r: ResolveOptionsContext) {
        resolve_options_context
    }

    fn process_module(&self, module: Module, context: &ModuleAssetContext<Self>) -> (r: Module) {
        module
    }
}

/// A transition whose module hook replaces the loaded module with a fixed
/// one. Because the replacement is observable in the process result, this
/// transition makes visible whether the module hook ran at all — in
/// particular that it never runs on an ignore decision.
#[derive(Clone, Copy, Debug, PartialEq, Eq, Structural)]
pub struct ModuleReplaceTransition {
    pub module: Module,
}

impl Transition for ModuleReplaceTransition {
    open spec fn spec_process_source(&self, source: Source) -> Source {
        source
    }

    open spec fn spec_process_compile_time_info(
        &self,
        compile_time_info: CompileTimeInfo,
    ) -> CompileTimeInfo {
        compile_time_info
    }

    open spec fn spec_process_layer(&self, layer: Seq<char>) -> Seq<char> {
        layer
    }

    open spec fn spec_process_module_options_context(
        &self,
        module_options_context: ModuleOptionsContext,
    ) -> ModuleOptionsContext {
        module_options_context
    }

    open spec fn spec_process_resolve_options_context(
        &self,
        resolve_options_context: ResolveOptionsContext,
    ) -> ResolveOptionsContext {
        resolve_options_context
    }

    open spec fn spec_process_module(&self, module: Module, context: ContextView<Self>) -> Module {
        self.module
    }

    fn process_source(&self, source: Source) -> (r: Source) {
        source
    }

    fn process_compile_time_info(&self, compile_time_info: CompileTimeInfo) -> (r:
        CompileTimeInfo) {
        compile_time_info
    }

    fn process_layer(&self, layer: String) -> (r: String) {
        layer
    }

    fn process_module_options_context(
        &self,
        module_options_context: ModuleOptionsContext,
    ) -> (r: ModuleOptionsContext) {
        module_options_context
    }

    fn process_resolve_options_context(
        &self,
        resolve_options_context: ResolveOptionsContext,
    ) -> (r: ResolveOptionsContext) {
        resolve_options_context
    }

    fn process_module(&self, module: Module, context: &ModuleAssetContext<Self>) -> (r: Module) {
        self.module
    }
}

/// A loader that answers every request with the same fixed outcome,
/// whatever the context: the simplest deterministic collaborator.
#[derive(Clone, Copy, Debug)]
pub struct FixedOutcomeLoader {
    pub outcome: Result<ProcessResult, ProcessError>,
}

impl<T> DefaultLoader<T> for FixedOutcomeLoader {
    open spec fn spec_process_default(
        &self,
        context: ContextView<T>,
        source: Source,
        reference_type: ReferenceType,
    ) -> Result<ProcessResult, ProcessError> {
        self.outcome
    }

    fn process_default(
        &self,
        context: &ModuleAssetContext<T>,
        source: Source,
        reference_type: ReferenceType,
    ) -> (r: Result<ProcessResult, ProcessError>) {
        self.outcome
    }
}

/// A loader that produces a fixed module exactly when the context it
/// observes carries the expected layer, and an ignore decision otherwise:
/// it makes the layer the loader saw visible in the process result.
pub struct LayerKeyedLoader {
    pub expected_layer: String,
    pub module: Module,
}

impl<T> DefaultLoader<T> for LayerKeyedLoader {
    open spec fn spec_process_default(
        &self,
        context: ContextView<T>,
        source: Source,
        reference_type: ReferenceType,
    ) -> Result<ProcessResult, ProcessError> {
        if context.layer == self.expected_layer@ {
            Ok(ProcessResult::Module(self.module))
        } else {
            Ok(ProcessResult::Ignore)
        }
    }

    fn process_default(
        &self,
        context: &ModuleAssetContext<T>,
        source: Source,
        reference_type: ReferenceType,
    ) -> (r: Result<ProcessResult, ProcessError>) {
        if context.layer == self.expected_layer {
            Ok(ProcessResult::Module(self.module))
        } else {
            Ok(ProcessResult::Ignore)
        }
    }
}

} // verus!
