//! The transition contract and the pipeline driver.
//!
//! A transition is a named policy applied while one module is processed: it
//! may rewrite the source before loading, reshape the compile-time
//! environment, relabel the build layer, override the module and resolve
//! option configuration, and post-process the loaded module. The driver
//! `process` runs those hooks in a fixed order around a single delegation to
//! the external default loader.
//!
//! Every hook is referentially transparent: its result is a function of the
//! transition's identity and its own input, which is what lets an external
//! memoization engine cache hook results keyed on input identity. Each hook
//! therefore carries a specification function that pins its result down, and
//! the driver's contract composes those specifications.

use vstd::prelude::*;

use crate::context::ContextView;
use crate::context::ModuleAssetContext;
use crate::values::CompileTimeInfo;
use crate::values::Module;
use crate::values::ModuleOptionsContext;
use crate::values::ProcessError;
use crate::values::ProcessResult;
use crate::values::ReferenceType;
use crate::values::ResolveOptionsContext;
use crate::values::Source;

verus! {

/// A named, pluggable policy run during reference processing: for example, a
/// transition to a different environment on a specific kind of import.
///
/// Each hook is described twice: a specification function that says what the
/// hook returns, and the executable hook itself, whose contract ties it to
/// that description. An implementation that wants a hook to do nothing
/// states the identity, as [`crate::builtin::NoopTransition`] does for every
/// hook. `process_layer` in particular must always make an explicit
/// decision: layer identity is the mechanism by which modules processed
/// under different transitions are kept in different logical buckets.
pub trait Transition: Sized {
    /// What `process_source` returns for a given source.
    spec fn spec_process_source(&self, source: Source) -> Source;

    /// What `process_compile_time_info` returns for a given environment.
    spec fn spec_process_compile_time_info(&self, compile_time_info: CompileTimeInfo) -> CompileTimeInfo;

    /// What `process_layer` returns for a given layer tag.
    spec fn spec_process_layer(&self, layer: Seq<char>) -> Seq<char>;

    /// What `process_module_options_context` returns for a given module
    /// option configuration.
    spec fn spec_process_module_options_context(
        &self,
        module_options_context: ModuleOptionsContext,
    ) -> ModuleOptionsContext;

    /// What `process_resolve_options_context` returns for a given resolve
    /// option configuration.
    spec fn spec_process_resolve_options_context(
        &self,
        resolve_options_context: ResolveOptionsContext,
    ) -> ResolveOptionsContext;

    /// What `process_module` returns for a given module and processed
    /// context.
    spec fn spec_process_module(&self, module: Module, context: ContextView<Self>) -> Module;

    /// Apply modifications or wrapping to the source asset before it
    /// reaches the default loader.
    fn process_source(&self, source: Source) -> (r: Source)
        ensures
            r == self.spec_process_source(source),
    ;

    /// Apply modifications to the compile-time information.
    fn process_compile_time_info(&self, compile_time_info: CompileTimeInfo) -> (r: CompileTimeInfo)
        ensures
            r == self.spec_process_compile_time_info(compile_time_info),
    ;

    /// Apply modifications to the layer tag. Every transition decides
    /// explicitly how it relabels the build layer.
    fn process_layer(&self, layer: String) -> (r: String)
        ensures
            r@ == self.spec_process_layer(layer@),
    ;

    /// Apply modifications or wrapping to the module options context.
    fn process_module_options_context(
        &self,
        module_options_context: ModuleOptionsContext,
    ) -> (r: ModuleOptionsContext)
        ensures
            r == self.spec_process_module_options_context(module_options_context),
    ;

    /// Apply modifications or wrapping to the resolve options context.
    fn process_resolve_options_context(
        &self,
        resolve_options_context: ResolveOptionsContext,
    ) -> (r: ResolveOptionsContext)
        ensures
            r == self.spec_process_resolve_options_context(resolve_options_context),
    ;

    /// Apply modifications or wrapping to the final module, given the
    /// already-transitioned context. Only invoked when the loader produced
    /// a module.
    fn process_module(&self, module: Module, context: &ModuleAssetContext<Self>) -> (r: Module)
        ensures
            r == self.spec_process_module(module, context@),
    ;
}

/// The external default loader: the single point where a raw source becomes
/// a compiled module, or an explicit decision to ignore the asset. The
/// pipeline delegates to it exactly once per run and reimplements none of
/// its loading, parsing or resolution.
///
/// The loader, too, answers as a function of its inputs: the incremental
/// computation engine that hosts the pipeline caches its results keyed on
/// the (context, source, reference type) triple.
pub trait DefaultLoader<T>: Sized {
    /// What `process_default` returns for a given context, source and
    /// reference type: a module, an ignore decision, or a failure.
    spec fn spec_process_default(
        &self,
        context: ContextView<T>,
        source: Source,
        reference_type: ReferenceType,
    ) -> Result<ProcessResult, ProcessError>;

    /// Turn a source into a module (or an ignore decision) under the given
    /// context. A failure is the loader's own; the pipeline propagates it
    /// unchanged.
    fn process_default(
        &self,
        context: &ModuleAssetContext<T>,
        source: Source,
        reference_type: ReferenceType,
    ) -> (r: Result<ProcessResult, ProcessError>)
        ensures
            r == self.spec_process_default(context@, source, reference_type),
    ;
}

/// The context a transition derives from `context`: each of the four
/// rewritable fields is read from the input context and passed through its
/// own hook, and the transition registry is carried over unchanged. Each
/// hook sees only its own field, never the whole context.
pub open spec fn spec_process_context<T: Transition>(
    transition: T,
    context: ContextView<T>,
) -> ContextView<T> {
    ContextView {
        transitions: context.transitions,
        compile_time_info: transition.spec_process_compile_time_info(context.compile_time_info),
        module_options_context: transition.spec_process_module_options_context(
            context.module_options_context,
        ),
        resolve_options_context: transition.spec_process_resolve_options_context(
            context.resolve_options_context,
        ),
        layer: transition.spec_process_layer(context.layer),
    }
}

/// Apply a transition's field hooks to a context and rebuild it, carrying
/// the registry through unchanged. This composition is deliberately not a
/// hook of its own: keeping it a plain function enforces by construction
/// that no transition can make one field's rewrite depend on another
/// field's value.
pub fn process_context<T: Transition>(
    transition: &T,
    context: ModuleAssetContext<T>,
) -> (r: ModuleAssetContext<T>)
    ensures
        r@ == spec_process_context(*transition, context@),
        r.transitions == context.transitions,
        context.wf() ==> r.wf(),
{
    let ModuleAssetContext {
        transitions,
        compile_time_info,
        module_options_context,
        resolve_options_context,
        layer,
    } = context;
    let compile_time_info = transition.process_compile_time_info(compile_time_info);
    let module_options_context = transition.process_module_options_context(module_options_context);
    let resolve_options_context = transition.process_resolve_options_context(
        resolve_options_context,
    );
    let layer = transition.process_layer(layer);
    let r = ModuleAssetContext::new(
        transitions,
        compile_time_info,
        module_options_context,
        resolve_options_context,
        layer,
    );
    proof {
        assert(r@ =~= spec_process_context(*transition, context@));
    }
    r
}

/// The result one pipeline run produces: the source passed through the
/// source hook, the context fully transitioned, the default loader's answer
/// on those, and — only when the loader produced a module — that module
/// passed through the module hook. An ignore decision and a loader failure
/// both pass through untouched.
pub open spec fn spec_process<T: Transition, L: DefaultLoader<T>>(
    transition: T,
    loader: L,
    source: Source,
    context: ContextView<T>,
    reference_type: ReferenceType,
) -> Result<ProcessResult, ProcessError> {
    let processed_source = transition.spec_process_source(source);
    let processed_context = spec_process_context(transition, context);
    match loader.spec_process_default(processed_context, processed_source, reference_type) {
        Ok(ProcessResult::Module(module)) => Ok(
            ProcessResult::Module(transition.spec_process_module(module, processed_context)),
        ),
        Ok(ProcessResult::Ignore) => Ok(ProcessResult::Ignore),
        Err(failure) => Err(failure),
    }
}

/// Run the pipeline: rewrite the source, derive the transitioned context,
/// delegate to the default loader, and post-process a produced module. The
/// context the loader and the module hook observe is always the fully
/// transitioned one, never the original. A loader failure is returned to
/// the caller unmodified: there is no retry and no partial result.
pub fn process<T: Transition, L: DefaultLoader<T>>(
    transition: &T,
    loader: &L,
    source: Source,
    context: ModuleAssetContext<T>,
    reference_type: ReferenceType,
) -> (r: Result<ProcessResult, ProcessError>)
    ensures
        r == spec_process(*transition, *loader, source, context@, reference_type),
{
    let source = transition.process_source(source);
    let context = process_context(transition, context);
    let outcome = loader.process_default(&context, source, reference_type);
    match outcome {
        Ok(ProcessResult::Module(module)) => Ok(
            ProcessResult::Module(transition.process_module(module, &context)),
        ),
        Ok(ProcessResult::Ignore) => Ok(ProcessResult::Ignore),
        Err(failure) => Err(failure),
    }
}

/// Law: the identity pipeline. Running the pipeline with a transition all
/// of whose hooks are the identity — including a layer hook supplied as the
/// identity — produces exactly the default loader's own result on the
/// original source, context and reference type.
pub proof fn lemma_identity_pipeline<T: Transition, L: DefaultLoader<T>>(
    transition: T,
    loader: L,
    source: Source,
    context: ContextView<T>,
    reference_type: ReferenceType,
)
    requires
        forall|s: Source| #[trigger] transition.spec_process_source(s) == s,
        forall|i: CompileTimeInfo| #[trigger] transition.spec_process_compile_time_info(i) == i,
        forall|l: Seq<char>| #[trigger] transition.spec_process_layer(l) == l,
        forall|o: ModuleOptionsContext|
            #[trigger] transition.spec_process_module_options_context(o) == o,
        forall|o: ResolveOptionsContext|
            #[trigger] transition.spec_process_resolve_options_context(o) == o,
        forall|m: Module, c: ContextView<T>| #[trigger] transition.spec_process_module(m, c) == m,
    ensures
        spec_process(transition, loader, source, context, reference_type)
            == loader.spec_process_default(context, source, reference_type),
{
    assert(spec_process_context(transition, context) =~= context);
}

/// Law: context field independence. A transition that leaves the layer hook
/// and both option hooks at the identity — whatever its compile-time-info
/// hook does — derives a context whose module options, resolve options,
/// layer and registry are exactly the input context's.
pub proof fn lemma_context_field_independence<T: Transition>(
    transition: T,
    context: ContextView<T>,
)
    requires
        forall|l: Seq<char>| #[trigger] transition.spec_process_layer(l) == l,
        forall|o: ModuleOptionsContext|
            #[trigger] transition.spec_process_module_options_context(o) == o,
        forall|o: ResolveOptionsContext|
            #[trigger] transition.spec_process_resolve_options_context(o) == o,
    ensures
        spec_process_context(transition, context).module_options_context
            == context.module_options_context,
        spec_process_context(transition, context).resolve_options_context
            == context.resolve_options_context,
        spec_process_context(transition, context).layer == context.layer,
        spec_process_context(transition, context).transitions == context.transitions,
{
}

/// Law: the ignore short-circuit. When the default loader decides to ignore
/// the asset, the pipeline's result is that ignore decision, whatever the
/// transition's module hook would have returned: the module hook plays no
/// part in this case.
pub proof fn lemma_ignore_short_circuit<T: Transition, L: DefaultLoader<T>>(
    transition: T,
    loader: L,
    source: Source,
    context: ContextView<T>,
    reference_type: ReferenceType,
)
    requires
        loader.spec_process_default(
            spec_process_context(transition, context),
            transition.spec_process_source(source),
            reference_type,
        ) == Ok::<ProcessResult, ProcessError>(ProcessResult::Ignore),
    ensures
        spec_process(transition, loader, source, context, reference_type)
            == Ok::<ProcessResult, ProcessError>(ProcessResult::Ignore),
{
}

/// Law: referential transparency of the pipeline. Any two runs of `process`
/// on equal transitions, loaders, sources, contexts and reference types are
/// observationally equivalent: by the contract of `process`, each run's
/// result equals the same mathematical function of those inputs.
pub proof fn lemma_process_deterministic<T: Transition, L: DefaultLoader<T>>(
    transition: T,
    loader: L,
    source: Source,
    context: ContextView<T>,
    reference_type: ReferenceType,
    first: Result<ProcessResult, ProcessError>,
    second: Result<ProcessResult, ProcessError>,
)
    requires
        first == spec_process(transition, loader, source, context, reference_type),
        second == spec_process(transition, loader, source, context, reference_type),
    ensures
        first == second,
{
}

} // verus!
