use pop_pallet_engine::dependency::{Dependency, Features};
use pop_pallet_engine::engine::{
    run_steps, ApplyError, Diagnostic, PalletEngine, PrepareError, Project, RunError, State,
};
use pop_pallet_engine::registry::{place_entry, AddPalletEntry, PlacementError, RegistryRecord};
use pop_pallet_engine::steps::{step_builder, AddPallet, Steps};

fn empty_project() -> Project {
    Project {
        imports: Vec::new(),
        configs: Vec::new(),
        registry: Vec::new(),
        benchmarks: Vec::new(),
        runtime_manifest: Vec::new(),
        node_manifest: Vec::new(),
        genesis_configs: Vec::new(),
        genesis_imports: Vec::new(),
    }
}

fn record(index: u8, name: &str) -> RegistryRecord {
    RegistryRecord { index, path: format!("pallet_{}", name.to_lowercase()), name: name.to_string() }
}

fn feature_names(d: &Dependency) -> Vec<String> {
    d.features.iter().map(|f| f.name()).collect()
}

#[test]
fn template_plan_order() {
    let steps = step_builder(AddPallet::Template).unwrap();
    assert_eq!(steps.len(), 5);
    assert!(matches!(steps[0], Steps::RuntimePalletDependency(_)));
    assert!(matches!(steps[1], Steps::RuntimePalletImport(_)));
    assert!(matches!(steps[2], Steps::RuntimePalletConfiguration(_)));
    assert!(matches!(steps[3], Steps::ConstructRuntimeEntry(_)));
    assert!(matches!(steps[4], Steps::NodePalletDependency(_)));
}

#[test]
fn template_plan_is_deterministic() {
    let a = step_builder(AddPallet::Template).unwrap();
    let b = step_builder(AddPallet::Template).unwrap();
    assert_eq!(a.len(), b.len());
    for (x, y) in a.iter().zip(b.iter()) {
        match (x, y) {
            (Steps::RuntimePalletImport(p), Steps::RuntimePalletImport(q)) => assert_eq!(p, q),
            (Steps::RuntimePalletConfiguration(p), Steps::RuntimePalletConfiguration(q)) => {
                assert_eq!(p, q)
            },
            (Steps::RuntimePalletDependency(p), Steps::RuntimePalletDependency(q))
            | (Steps::NodePalletDependency(p), Steps::NodePalletDependency(q)) => {
                assert_eq!(feature_names(p), feature_names(q));
                assert_eq!(p.path, q.path);
                assert_eq!(p.no_default_features, q.no_default_features);
            },
            (Steps::ConstructRuntimeEntry(p), Steps::ConstructRuntimeEntry(q)) => {
                assert_eq!(p.index, q.index);
                assert_eq!(p.name, q.name);
                assert_eq!(p.path, q.path);
            },
            _ => panic!("plans differ"),
        }
    }
}

#[test]
fn frame_recipe_unsupported() {
    let r = step_builder(AddPallet::Frame("pallet_balances".to_string()));
    assert!(matches!(r, Err(e) if e == pop_pallet_engine::steps::BuildError::UnsupportedRecipe));
}

#[test]
fn next_free_index_after_three() {
    let reg = vec![record(0, "System"), record(1, "Timestamp"), record(2, "Balances")];
    let e = AddPalletEntry::new(None, "pallet_parachain_template", "Template");
    assert_eq!(place_entry(&reg, &e), Ok(3));
}

#[test]
fn next_free_index_uses_largest() {
    let reg = vec![record(10, "System"), record(3, "Timestamp")];
    let e = AddPalletEntry::new(None, "pallet_parachain_template", "Template");
    assert_eq!(place_entry(&reg, &e), Ok(11));
}

#[test]
fn empty_registry_allocates_zero() {
    let e = AddPalletEntry::new(None, "pallet_parachain_template", "Template");
    assert_eq!(place_entry(&Vec::new(), &e), Ok(0));
}

#[test]
fn duplicate_name_conflicts() {
    let reg = vec![record(0, "System"), record(1, "Template")];
    let free = AddPalletEntry::new(Some(7), "pallet_parachain_template", "Template");
    assert_eq!(place_entry(&reg, &free), Err(PlacementError::NameConflict));
    let taken = AddPalletEntry::new(Some(0), "pallet_parachain_template", "Template");
    assert_eq!(place_entry(&reg, &taken), Err(PlacementError::NameConflict));
    let none = AddPalletEntry::new(None, "pallet_parachain_template", "Template");
    assert_eq!(place_entry(&reg, &none), Err(PlacementError::NameConflict));
}

#[test]
fn explicit_index_conflicts() {
    let reg = vec![record(0, "System"), record(1, "Timestamp")];
    let e = AddPalletEntry::new(Some(1), "pallet_parachain_template", "Template");
    assert_eq!(place_entry(&reg, &e), Err(PlacementError::IndexConflict));
    let f = AddPalletEntry::new(Some(42), "pallet_parachain_template", "Template");
    assert_eq!(place_entry(&reg, &f), Ok(42));
}

#[test]
fn index_exhausted() {
    let reg = vec![record(255, "System")];
    let e = AddPalletEntry::new(None, "pallet_parachain_template", "Template");
    assert_eq!(place_entry(&reg, &e), Err(PlacementError::IndexExhausted));
}

#[test]
fn late_import_skipped_and_run_continues() {
    let steps = vec![
        Steps::RuntimePalletImport("pub use a;".to_string()),
        Steps::RuntimePalletConfiguration("impl a::Config for Runtime {}".to_string()),
        Steps::RuntimePalletImport("pub use b;".to_string()),
        Steps::ConstructRuntimeEntry(AddPalletEntry::new(None, "a", "A")),
        Steps::NodePalletDependency(Dependency::node_template()),
    ];
    let pe = run_steps(PalletEngine::new(empty_project()), steps).unwrap();
    assert_eq!(pe.project.imports, vec!["pub use a;".to_string()]);
    assert_eq!(pe.project.configs.len(), 1);
    assert_eq!(pe.project.registry.len(), 1);
    assert_eq!(pe.project.registry[0].index, 0);
    assert_eq!(pe.project.node_manifest.len(), 1);
    assert_eq!(pe.state, State::RegistryEntry);
    assert_eq!(pe.diagnostics, vec![Diagnostic::SkippedStep { position: 2, state: State::Config }]);
}

#[test]
fn import_in_config_state_is_illegal() {
    let mut pe = PalletEngine::new(empty_project());
    pe.prepare_output().unwrap();
    pe.apply(Steps::RuntimePalletConfiguration("impl x".to_string())).unwrap();
    assert_eq!(pe.state, State::Config);
    let r = pe.apply(Steps::RuntimePalletImport("pub use x;".to_string()));
    assert_eq!(r, Err(ApplyError::IllegalState { state: State::Config }));
    assert!(pe.project.imports.is_empty());
}

#[test]
fn dependency_merge_twice_gives_two_entries() {
    let mut pe = PalletEngine::new(empty_project());
    pe.prepare_output().unwrap();
    pe.apply(Steps::RuntimePalletDependency(Dependency::runtime_template())).unwrap();
    pe.apply(Steps::RuntimePalletDependency(Dependency::runtime_template())).unwrap();
    assert_eq!(pe.project.runtime_manifest.len(), 2);
    assert_eq!(
        feature_names(&pe.project.runtime_manifest[0]),
        feature_names(&pe.project.runtime_manifest[1])
    );
}

#[test]
fn unprepared_engine_prepares_itself_once() {
    let mut pe = PalletEngine::new(empty_project());
    pe.apply(Steps::RuntimePalletImport("pub use a;".to_string())).unwrap();
    pe.apply(Steps::RuntimePalletImport("pub use b;".to_string())).unwrap();
    assert_eq!(pe.state, State::Import);
    assert_eq!(pe.diagnostics, vec![Diagnostic::NotPrepared]);
    assert_eq!(pe.project.imports.len(), 2);
}

#[test]
fn unhandled_step_is_not_implemented() {
    let mut pe = PalletEngine::new(empty_project());
    pe.prepare_output().unwrap();
    assert_eq!(pe.apply(Steps::ListBenchmarks("Template".to_string())), Err(ApplyError::NotImplemented));
    let steps = vec![
        Steps::RuntimePalletImport("pub use a;".to_string()),
        Steps::ChainspecGenesisConfig("template: Default::default()".to_string()),
    ];
    let r = run_steps(PalletEngine::new(empty_project()), steps);
    assert!(matches!(
        r,
        Err(RunError::Step { position: 1, error: ApplyError::NotImplemented })
    ));
}

#[test]
fn registry_conflict_stops_run() {
    let mut project = empty_project();
    project.registry.push(record(0, "Template"));
    let steps = step_builder(AddPallet::Template).unwrap();
    let r = run_steps(PalletEngine::new(project), steps);
    assert!(matches!(
        r,
        Err(RunError::Step { position: 3, error: ApplyError::Placement(PlacementError::NameConflict) })
    ));
}

#[test]
fn finished_engine_refuses_steps() {
    let mut pe = PalletEngine::new(empty_project());
    pe.prepare_output().unwrap();
    pe.finish();
    let r = pe.apply(Steps::NodePalletDependency(Dependency::node_template()));
    assert_eq!(r, Err(ApplyError::IllegalState { state: State::Done }));
}

#[test]
fn prepare_errors() {
    let mut pe = PalletEngine::new(empty_project());
    pe.prepare_output().unwrap();
    assert_eq!(pe.prepare_output(), Err(PrepareError::AlreadyPrepared));
    let mut project = empty_project();
    project.registry.push(record(0, "System"));
    project.registry.push(record(0, "Timestamp"));
    let r = run_steps(PalletEngine::new(project), Vec::new());
    assert!(matches!(r, Err(RunError::Prepare(PrepareError::MalformedRegistry))));
    let mut project = empty_project();
    project.registry.push(record(0, "System"));
    project.registry.push(record(1, "System"));
    let mut pe = PalletEngine::new(project);
    assert_eq!(pe.prepare_output(), Err(PrepareError::MalformedRegistry));
}

#[test]
fn template_integration_end_to_end() {
    let steps = step_builder(AddPallet::Template).unwrap();
    let pe = run_steps(PalletEngine::new(empty_project()), steps).unwrap();
    let p = &pe.project;
    assert_eq!(p.runtime_manifest.len(), 1);
    assert_eq!(
        feature_names(&p.runtime_manifest[0]),
        vec!["runtime-benchmarks", "try-runtime", "std"]
    );
    assert!(p.runtime_manifest[0].no_default_features);
    assert_eq!(p.runtime_manifest[0].path, "path = \"../pallets/template\"");
    assert_eq!(p.imports, vec!["pub use pallet_parachain_template;".to_string()]);
    assert_eq!(p.configs.len(), 1);
    assert!(p.configs[0].contains("impl pallet_parachain_template::Config for Runtime"));
    assert_eq!(p.registry.len(), 1);
    assert_eq!(p.registry[0].index, 0);
    assert_eq!(p.registry[0].name, "Template");
    assert_eq!(p.registry[0].path, "pallet_parachain_template");
    assert_eq!(p.node_manifest.len(), 1);
    assert_eq!(feature_names(&p.node_manifest[0]), vec!["runtime-benchmarks", "try-runtime"]);
    assert!(!p.node_manifest[0].no_default_features);
    assert!(pe.diagnostics.is_empty());
    assert_eq!(pe.state, State::RegistryEntry);
}

#[test]
fn custom_feature_name() {
    assert_eq!(Features::Custom("experimental".to_string()).name(), "experimental");
    assert_eq!(Features::Std.name(), "std");
}

#[test]
fn render_runtime_dependency() {
    assert_eq!(
        Dependency::runtime_template().render(),
        "{ path = \"../pallets/template\", default-features = false, features = [\"runtime-benchmarks\", \"try-runtime\", \"std\"] }"
    );
}

#[test]
fn render_node_dependency() {
    assert_eq!(
        Dependency::node_template().render(),
        "{ path = \"../pallets/template\", features = [\"runtime-benchmarks\", \"try-runtime\"] }"
    );
}

#[test]
fn render_without_features() {
    let d = Dependency { features: Vec::new(), path: "git = \"x\"".to_string(), no_default_features: false };
    assert_eq!(d.render(), "{ git = \"x\", features = [] }");
}
