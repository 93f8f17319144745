use turbo_transition::builtin::CompileTimeInfoTransition;
use turbo_transition::builtin::FixedOutcomeLoader;
use turbo_transition::builtin::LayerKeyedLoader;
use turbo_transition::builtin::LayerSuffixTransition;
use turbo_transition::builtin::ModuleReplaceTransition;
use turbo_transition::builtin::NoopTransition;
use turbo_transition::context::ModuleAssetContext;
use turbo_transition::registry::TransitionsByName;
use turbo_transition::transition::process;
use turbo_transition::transition::process_context;
use turbo_transition::transition::DefaultLoader;
use turbo_transition::values::CompileTimeInfo;
use turbo_transition::values::Module;
use turbo_transition::values::ModuleOptionsContext;
use turbo_transition::values::ProcessError;
use turbo_transition::values::ProcessResult;
use turbo_transition::values::ReferenceType;
use turbo_transition::values::ResolveOptionsContext;
use turbo_transition::values::Source;

fn context_with_layer<T>(layer: &str) -> ModuleAssetContext<T> {
    ModuleAssetContext::new(
        TransitionsByName::value_default(),
        CompileTimeInfo { id: 1 },
        ModuleOptionsContext { id: 2 },
        ResolveOptionsContext { id: 3 },
        layer.to_string(),
    )
}

#[test]
fn identity_pipeline_matches_default_loader() {
    let loader = FixedOutcomeLoader { outcome: Ok(ProcessResult::Module(Module { id: 7 })) };
    let source = Source { id: 1 };
    let direct = loader.process_default(
        &context_with_layer::<NoopTransition>("app"),
        source,
        ReferenceType::Static,
    );
    let piped = process(
        &NoopTransition,
        &loader,
        source,
        context_with_layer("app"),
        ReferenceType::Static,
    );
    assert_eq!(piped, direct);
    assert_eq!(piped, Ok(ProcessResult::Module(Module { id: 7 })));
}

#[test]
fn ignore_short_circuits_past_module_hook() {
    let transition = ModuleReplaceTransition { module: Module { id: 99 } };
    let loader = FixedOutcomeLoader { outcome: Ok(ProcessResult::Ignore) };
    let result = process(
        &transition,
        &loader,
        Source { id: 1 },
        context_with_layer("app"),
        ReferenceType::Static,
    );
    assert_eq!(result, Ok(ProcessResult::Ignore));
}

#[test]
fn module_hook_rewrites_produced_module() {
    let transition = ModuleReplaceTransition { module: Module { id: 99 } };
    let loader = FixedOutcomeLoader { outcome: Ok(ProcessResult::Module(Module { id: 7 })) };
    let result = process(
        &transition,
        &loader,
        Source { id: 1 },
        context_with_layer("app"),
        ReferenceType::Static,
    );
    assert_eq!(result, Ok(ProcessResult::Module(Module { id: 99 })));
}

#[test]
fn registry_default_is_empty_and_every_lookup_misses() {
    let registry: TransitionsByName<NoopTransition> = TransitionsByName::value_default();
    assert_eq!(registry.len(), 0);
    assert!(registry.get(&"client".to_string()).is_none());
    assert!(registry.get(&"".to_string()).is_none());
    assert!(registry.get(&"anything-at-all".to_string()).is_none());
}

#[test]
fn registry_insert_then_get_and_replace() {
    let mut registry: TransitionsByName<Module> = TransitionsByName::value_default();
    registry.insert("client".to_string(), Module { id: 1 });
    registry.insert("server".to_string(), Module { id: 2 });
    assert_eq!(registry.len(), 2);
    assert_eq!(registry.get(&"client".to_string()), Some(&Module { id: 1 }));
    assert_eq!(registry.get(&"server".to_string()), Some(&Module { id: 2 }));
    assert!(registry.get(&"edge".to_string()).is_none());
    registry.insert("client".to_string(), Module { id: 3 });
    assert_eq!(registry.len(), 2);
    assert_eq!(registry.get(&"client".to_string()), Some(&Module { id: 3 }));
}

#[test]
fn layer_suffix_scenario_produces_the_keyed_module() {
    let transition = LayerSuffixTransition { suffix: "/client".to_string() };
    let loader = LayerKeyedLoader {
        expected_layer: "app/client".to_string(),
        module: Module { id: 42 },
    };
    let result = process(
        &transition,
        &loader,
        Source { id: 5 },
        context_with_layer("app"),
        ReferenceType::Static,
    );
    assert_eq!(result, Ok(ProcessResult::Module(Module { id: 42 })));
}

#[test]
fn layer_suffix_rewrites_only_the_layer() {
    let transition = LayerSuffixTransition { suffix: "/client".to_string() };
    let derived = process_context(&transition, context_with_layer::<LayerSuffixTransition>("app"));
    assert_eq!(derived.layer, "app/client".to_string());
    assert_eq!(derived.compile_time_info, CompileTimeInfo { id: 1 });
    assert_eq!(derived.module_options_context, ModuleOptionsContext { id: 2 });
    assert_eq!(derived.resolve_options_context, ResolveOptionsContext { id: 3 });
    assert_eq!(derived.transitions.len(), 0);
}

#[test]
fn unrelabeled_layer_is_not_served_by_the_keyed_loader() {
    let loader = LayerKeyedLoader {
        expected_layer: "app/client".to_string(),
        module: Module { id: 42 },
    };
    let result = process(
        &NoopTransition,
        &loader,
        Source { id: 5 },
        context_with_layer("app"),
        ReferenceType::Static,
    );
    assert_eq!(result, Ok(ProcessResult::Ignore));
}

#[test]
fn compile_time_info_override_leaves_other_fields_alone() {
    let transition = CompileTimeInfoTransition { compile_time_info: CompileTimeInfo { id: 77 } };
    let derived = process_context(
        &transition,
        context_with_layer::<CompileTimeInfoTransition>("app"),
    );
    assert_eq!(derived.compile_time_info, CompileTimeInfo { id: 77 });
    assert_eq!(derived.layer, "app".to_string());
    assert_eq!(derived.module_options_context, ModuleOptionsContext { id: 2 });
    assert_eq!(derived.resolve_options_context, ResolveOptionsContext { id: 3 });
    assert_eq!(derived.transitions.len(), 0);
}

#[test]
fn two_identical_runs_are_observationally_equivalent() {
    let transition = LayerSuffixTransition { suffix: "/client".to_string() };
    let loader = LayerKeyedLoader {
        expected_layer: "app/client".to_string(),
        module: Module { id: 42 },
    };
    let first = process(
        &transition,
        &loader,
        Source { id: 5 },
        context_with_layer("app"),
        ReferenceType::Dynamic,
    );
    let second = process(
        &transition,
        &loader,
        Source { id: 5 },
        context_with_layer("app"),
        ReferenceType::Dynamic,
    );
    assert_eq!(first, second);
}

#[test]
fn loader_failure_propagates_unchanged() {
    let transition = ModuleReplaceTransition { module: Module { id: 99 } };
    let loader = FixedOutcomeLoader { outcome: Err(ProcessError { code: 3 }) };
    let result = process(
        &transition,
        &loader,
        Source { id: 1 },
        context_with_layer("app"),
        ReferenceType::Entry,
    );
    assert_eq!(result, Err(ProcessError { code: 3 }));
}
