use vstd::prelude::*;
use crate::dependency::{Dependency, DependencyView};
use crate::registry::{
    lemma_max_index_bounds, index_taken, name_taken, place_entry, placement, records_view, PlacementError, RecordView, RegistryRecord,
};
use crate::steps::{StepView, Steps, steps_view};

verus! {

/// Where the engine stands in an integration. It only moves forward.
#[derive(Debug, Clone, Copy, PartialEq, Eq, Structural)]
pub enum State {
    Init,
    Import,
    Config,
    Dependency,
    RegistryEntry,
    Done,
}

pub open spec fn rank(s: State) -> int {
    match s {
        State::Init => 0,
        State::Import => 1,
        State::Config => 2,
        State::Dependency => 3,
        State::RegistryEntry => 4,
        State::Done => 5,
    }
}

fn rank_of(s: State) -> (r: u8)
    ensures
        r as int == rank(s),
{
    match s {
        State::Init => 0,
        State::Import => 1,
        State::Config => 2,
        State::Dependency => 3,
        State::RegistryEntry => 4,
        State::Done => 5,
    }
}

/// The contents of a target project that an integration may edit.
pub struct Project {
    /// Import statements of the runtime source.
    pub imports: Vec<String>,
    /// Pallet configuration blocks of the runtime source.
    pub configs: Vec<String>,
    /// The runtime's registry of pallets.
    pub registry: Vec<RegistryRecord>,
    /// Benchmark listings of the runtime source.
    pub benchmarks: Vec<String>,
    /// Dependency entries of the runtime manifest.
    pub runtime_manifest: Vec<Dependency>,
    /// Dependency entries of the node manifest.
    pub node_manifest: Vec<Dependency>,
    /// Genesis configuration of the chain specification source.
    pub genesis_configs: Vec<String>,
    /// Imports of the chain specification source.
    pub genesis_imports: Vec<String>,
}

pub struct ProjectView {
    pub imports: Seq<Seq<char>>,
    pub configs: Seq<Seq<char>>,
    pub registry: Seq<RecordView>,
    pub benchmarks: Seq<Seq<char>>,
    pub runtime_manifest: Seq<DependencyView>,
    pub node_manifest: Seq<DependencyView>,
    pub genesis_configs: Seq<Seq<char>>,
    pub genesis_imports: Seq<Seq<char>>,
}

pub open spec fn texts_view(v: Seq<String>) -> Seq<Seq<char>> {
    v.map_values(|s: String| s@)
}

pub open spec fn deps_view(v: Seq<Dependency>) -> Seq<DependencyView> {
    v.map_values(|d: Dependency| d@)
}

impl View for Project {
    type V = ProjectView;

    open spec fn view(&self) -> ProjectView {
        ProjectView {
            imports: texts_view(self.imports@),
            configs: texts_view(self.configs@),
            registry: records_view(self.registry@),
            benchmarks: texts_view(self.benchmarks@),
            runtime_manifest: deps_view(self.runtime_manifest@),
            node_manifest: deps_view(self.node_manifest@),
            genesis_configs: texts_view(self.genesis_configs@),
            genesis_imports: texts_view(self.genesis_imports@),
        }
    }
}

/// Something the engine reports without stopping.
#[derive(Debug, Clone, Copy, PartialEq, Eq, Structural)]
pub enum Diagnostic {
    /// A step arrived before the engine was prepared; the engine prepared itself.
    NotPrepared,
    /// The step at this position was not allowed in this state and was skipped.
    SkippedStep { position: usize, state: State },
}

/// Why a step was not applied.
#[derive(Debug, Clone, Copy, PartialEq, Eq, Structural)]
pub enum ApplyError {
    /// The step's kind is not allowed in the engine's current state.
    IllegalState { state: State },
    /// The step's kind has no handler.
    NotImplemented,
    /// The registry entry could not be placed.
    Placement(PlacementError),
}

/// Why an engine could not be prepared.
#[derive(Debug, Clone, Copy, PartialEq, Eq, Structural)]
pub enum PrepareError {
    /// The engine has left its initial state already.
    AlreadyPrepared,
    /// Two pallets of the registry share a name or an index.
    MalformedRegistry,
}

/// Why a run of steps stopped.
#[derive(Debug, Clone, Copy, PartialEq, Eq, Structural)]
pub enum RunError {
    Prepare(PrepareError),
    Step { position: usize, error: ApplyError },
}

/// Names and indices of the registry are each unique.
pub open spec fn registry_well_formed(reg: Seq<RecordView>) -> bool {
    forall|i: int, j: int|
        #![trigger reg[i], reg[j]]
        0 <= i < j < reg.len() ==> reg[i].name != reg[j].name && reg[i].index != reg[j].index
}

/// The engine that applies steps to a project.
pub struct PalletEngine {
    pub state: State,
    pub project: Project,
    pub diagnostics: Vec<Diagnostic>,
}

pub struct EngineView {
    pub state: State,
    pub project: ProjectView,
    pub diagnostics: Seq<Diagnostic>,
}

impl View for PalletEngine {
    type V = EngineView;

    open spec fn view(&self) -> EngineView {
        EngineView { state: self.state, project: self.project@, diagnostics: self.diagnostics@ }
    }
}

/// The state a step's kind moves the engine to; `None` for a kind that
/// edits a manifest and leaves the state as it is.
pub open spec fn target_state(s: StepView) -> Option<State> {
    match s {
        StepView::RuntimePalletImport(_) => Some(State::Import),
        StepView::RuntimePalletConfiguration(_) => Some(State::Config),
        StepView::ConstructRuntimeEntry(_) => Some(State::RegistryEntry),
        _ => None,
    }
}

/// Whether a step's kind has a handler.
pub open spec fn implemented(s: StepView) -> bool {
    match s {
        StepView::ListBenchmarks(_) => false,
        StepView::ChainspecGenesisConfig(_) => false,
        StepView::ChainspecGenesisImport(_) => false,
        _ => true,
    }
}

/// Whether a step may be applied in a state: never once done, and never
/// one that would move the state backwards.
pub open spec fn permitted(state: State, s: StepView) -> bool {
    state != State::Done && match target_state(s) {
        Some(t) => rank(state) <= rank(t),
        None => true,
    }
}

/// The outcome of preparing an engine.
pub open spec fn prepare_spec(e: EngineView) -> Result<EngineView, PrepareError> {
    if e.state != State::Init {
        Err(PrepareError::AlreadyPrepared)
    } else if !registry_well_formed(e.project.registry) {
        Err(PrepareError::MalformedRegistry)
    } else {
        Ok(EngineView { state: State::Import, ..e })
    }
}

/// The engine after one step, and whether the step was applied. An engine
/// that was never prepared prepares itself first and says so.
pub open spec fn apply_spec(e: EngineView, s: StepView) -> (EngineView, Result<(), ApplyError>) {
    if !implemented(s) {
        (e, Err(ApplyError::NotImplemented))
    } else {
        let e1 = if e.state == State::Init {
            EngineView {
                state: State::Import,
                diagnostics: e.diagnostics.push(Diagnostic::NotPrepared),
                ..e
            }
        } else {
            e
        };
        let p = e1.project;
        if !permitted(e1.state, s) {
            (e1, Err(ApplyError::IllegalState { state: e1.state }))
        } else {
            match s {
                StepView::RuntimePalletImport(t) => (
                    EngineView {
                        state: State::Import,
                        project: ProjectView { imports: p.imports.push(t), ..p },
                        ..e1
                    },
                    Ok(()),
                ),
                StepView::RuntimePalletConfiguration(t) => (
                    EngineView {
                        state: State::Config,
                        project: ProjectView { configs: p.configs.push(t), ..p },
                        ..e1
                    },
                    Ok(()),
                ),
                StepView::RuntimePalletDependency(d) => (
                    EngineView {
                        project: ProjectView { runtime_manifest: p.runtime_manifest.push(d), ..p },
                        ..e1
                    },
                    Ok(()),
                ),
                StepView::ConstructRuntimeEntry(en) => match placement(p.registry, en) {
                    Ok(k) => (
                        EngineView {
                            state: State::RegistryEntry,
                            project: ProjectView {
                                registry: p.registry.push(
                                    RecordView { index: k, path: en.path, name: en.name },
                                ),
                                ..p
                            },
                            ..e1
                        },
                        Ok(()),
                    ),
                    Err(err) => (e1, Err(ApplyError::Placement(err))),
                },
                StepView::NodePalletDependency(d) => (
                    EngineView {
                        project: ProjectView { node_manifest: p.node_manifest.push(d), ..p },
                        ..e1
                    },
                    Ok(()),
                ),
                _ => (e1, Ok(())),
            }
        }
    }
}

/// The outcome of applying steps in order from position `pos` on: a step
/// that is not allowed in the current state is recorded and skipped, any
/// other failure stops the run.
pub open spec fn run_spec(e: EngineView, s: Seq<StepView>, pos: int) -> Result<EngineView, RunError>
    decreases s.len(),
{
    if s.len() == 0 {
        Ok(e)
    } else {
        let (e1, r) = apply_spec(e, s[0]);
        match r {
            Ok(_) => run_spec(e1, s.drop_first(), pos + 1),
            Err(ApplyError::IllegalState { state }) => run_spec(
                EngineView {
                    diagnostics: e1.diagnostics.push(
                        Diagnostic::SkippedStep { position: pos as usize, state },
                    ),
                    ..e1
                },
                s.drop_first(),
                pos + 1,
            ),
            Err(err) => Err(RunError::Step { position: pos as usize, error: err }),
        }
    }
}

fn registry_is_well_formed(reg: &Vec<RegistryRecord>) -> (r: bool)
    ensures
        r == registry_well_formed(records_view(reg@)),
{
    let ghost rv = records_view(reg@);
    let mut a: usize = 0;
    while a < reg.len()
        invariant
            0 <= a <= reg.len(),
            rv == records_view(reg@),
            forall|i: int, j: int|
                #![trigger rv[i], rv[j]]
                0 <= i < a && i < j < rv.len() ==> rv[i].name != rv[j].name && rv[i].index != rv[j].index,
        decreases reg.len() - a,
    {
        let mut b: usize = a + 1;
        while b < reg.len()
            invariant
                a < reg.len(),
                a + 1 <= b <= reg.len(),
                rv == records_view(reg@),
                forall|i: int, j: int|
                    #![trigger rv[i], rv[j]]
                    0 <= i < a && i < j < rv.len() ==> rv[i].name != rv[j].name && rv[i].index != rv[j].index,
                forall|j: int|
                    #![trigger rv[j]]
                    a < j < b ==> rv[a as int].name != rv[j].name && rv[a as int].index != rv[j].index,
            decreases reg.len() - b,
        {
            if reg[a].name == reg[b].name || reg[a].index == reg[b].index {
                assert(rv[a as int].name == rv[b as int].name || rv[a as int].index == rv[b as int].index);
                return false;
            }
            assert(rv[a as int].name != rv[b as int].name && rv[a as int].index != rv[b as int].index);
            b = b + 1;
        }
        assert forall|i: int, j: int|
            #![trigger rv[i], rv[j]]
            0 <= i < a + 1 && i < j < rv.len() implies rv[i].name != rv[j].name && rv[i].index != rv[j].index by {
            if i == a {
                assert(rv[j].name != rv[a as int].name);
            }
        }
        a = a + 1;
    }
    true
}

impl PalletEngine {
    /// An engine over a project, not yet prepared.
    pub fn new(project: Project) -> (r: Self)
        ensures
            r@ == (EngineView { state: State::Init, project: project@, diagnostics: Seq::empty() }),
    {
        PalletEngine { state: State::Init, project, diagnostics: Vec::new() }
    }

    /// Checks the project and makes the engine ready for steps.
    pub fn prepare_output(&mut self) -> (r: Result<(), PrepareError>)
        ensures
            match prepare_spec(old(self)@) {
                Ok(e) => r is Ok && final(self)@ == e,
                Err(err) => r == Err::<(), PrepareError>(err) && final(self)@ == old(self)@,
            },
    {
        if self.state != State::Init {
            return Err(PrepareError::AlreadyPrepared);
        }
        if !registry_is_well_formed(&self.project.registry) {
            return Err(PrepareError::MalformedRegistry);
        }
        self.state = State::Import;
        Ok(())
    }

    /// Marks the integration as finished; no step applies afterwards.
    pub fn finish(&mut self)
        ensures
            final(self)@ == (EngineView { state: State::Done, ..old(self)@ }),
    {
        self.state = State::Done;
    }

    /// Applies one step to the project, if its kind has a handler and is
    /// allowed in the current state.
    pub fn apply(&mut self, step: Steps) -> (r: Result<(), ApplyError>)
        ensures
            (final(self)@, r) == apply_spec(old(self)@, step@),
            registry_well_formed(old(self)@.project.registry)
                ==> registry_well_formed(final(self)@.project.registry),
            rank(old(self)@.state) <= rank(final(self)@.state),
    {
        let handled = match &step {
            Steps::ListBenchmarks(_) => false,
            Steps::ChainspecGenesisConfig(_) => false,
            Steps::ChainspecGenesisImport(_) => false,
            _ => true,
        };
        if !handled {
            return Err(ApplyError::NotImplemented);
        }
        if self.state == State::Init {
            self.state = State::Import;
            self.diagnostics.push(Diagnostic::NotPrepared);
        }
        let ghost e1 = self@;
        let target: Option<State> = match &step {
            Steps::RuntimePalletImport(_) => Some(State::Import),
            Steps::RuntimePalletConfiguration(_) => Some(State::Config),
            Steps::ConstructRuntimeEntry(_) => Some(State::RegistryEntry),
            _ => None,
        };
        let allowed = match target {
            Some(t) => rank_of(self.state) <= rank_of(t),
            None => true,
        };
        if self.state == State::Done || !allowed {
            return Err(ApplyError::IllegalState { state: self.state });
        }
        match step {
            Steps::RuntimePalletImport(t) => {
                let ghost tv = t@;
                self.project.imports.push(t);
                self.state = State::Import;
                assert(self@.project.imports =~= e1.project.imports.push(tv));
                Ok(())
            },
            Steps::RuntimePalletConfiguration(t) => {
                let ghost tv = t@;
                self.project.configs.push(t);
                self.state = State::Config;
                assert(self@.project.configs =~= e1.project.configs.push(tv));
                Ok(())
            },
            Steps::RuntimePalletDependency(d) => {
                let ghost dv = d@;
                self.project.runtime_manifest.push(d);
                assert(self@.project.runtime_manifest =~= e1.project.runtime_manifest.push(dv));
                Ok(())
            },
            Steps::ConstructRuntimeEntry(en) => {
                match place_entry(&self.project.registry, &en) {
                    Ok(k) => {
                        let ghost rec = RecordView { index: k, path: en.path@, name: en.name@ };
                        let ghost old_reg = e1.project.registry;
                        self.project.registry.push(
                            RegistryRecord { index: k, path: en.path, name: en.name },
                        );
                        self.state = State::RegistryEntry;
                        assert(self@.project.registry =~= old_reg.push(rec));
                        proof {
                            if registry_well_formed(old_reg) {
                                let nr = old_reg.push(rec);
                                lemma_max_index_bounds(old_reg);
                                assert(!name_taken(old_reg, en.name@));
                                assert forall|i: int, j: int|
                                    #![trigger nr[i], nr[j]]
                                    0 <= i < j < nr.len() implies nr[i].name != nr[j].name
                                        && nr[i].index != nr[j].index by {
                                    if j == old_reg.len() {
                                        assert(nr[i] == old_reg[i]);
                                        assert(old_reg[i].name != en.name@);
                                        if en.index is Some {
                                            assert(!index_taken(old_reg, k));
                                            assert(old_reg[i].index != k);
                                        }
                                    } else {
                                        assert(nr[i] == old_reg[i] && nr[j] == old_reg[j]);
                                    }
                                }
                            }
                        }
                        Ok(())
                    },
                    Err(err) => Err(ApplyError::Placement(err)),
                }
            },
            Steps::NodePalletDependency(d) => {
                let ghost dv = d@;
                self.project.node_manifest.push(d);
                assert(self@.project.node_manifest =~= e1.project.node_manifest.push(dv));
                Ok(())
            },
            _ => Ok(()),
        }
    }
}

/// Prepares the engine and applies the steps in order. A step that is not
/// allowed in the engine's state is recorded among the diagnostics and
/// skipped; any other failure stops the run, and the engine, with every edit
/// made so far, is dropped.
pub fn run_steps(engine: PalletEngine, steps: Vec<Steps>) -> (r: Result<PalletEngine, RunError>)
    ensures
        match prepare_spec(engine@) {
            Err(err) => r == Err::<PalletEngine, RunError>(RunError::Prepare(err)),
            Ok(e) => match run_spec(e, steps_view(steps@), 0) {
                Ok(v) => r is Ok && r->Ok_0@ == v,
                Err(err) => r == Err::<PalletEngine, RunError>(err),
            },
        },
{
    let ghost p0 = engine@;
    let mut pe = engine;
    match pe.prepare_output() {
        Err(err) => {
            return Err(RunError::Prepare(err));
        },
        Ok(_) => {},
    }
    let ghost e0 = pe@;
    let ghost all = steps_view(steps@);
    let mut rest = steps;
    let n: usize = rest.len();
    let mut i: usize = 0;
    while rest.len() > 0
        invariant
            prepare_spec(p0) == Ok::<EngineView, PrepareError>(e0),
            p0 == engine@,
            all == steps_view(steps@),
            all.len() == n,
            i + rest@.len() == n,
            run_spec(e0, all, 0) == run_spec(pe@, steps_view(rest@), i as int),
        decreases rest.len(),
    {
        let ghost rv = steps_view(rest@);
        let step = rest.remove(0);
        assert(steps_view(rest@) =~= rv.drop_first());
        assert(rv[0] == step@);
        let ghost pre = pe@;
        let r = pe.apply(step);
        match r {
            Ok(_) => {},
            Err(ApplyError::IllegalState { state }) => {
                pe.diagnostics.push(Diagnostic::SkippedStep { position: i, state });
            },
            Err(err) => {
                assert(run_spec(pre, rv, i as int) == Err::<EngineView, RunError>(
                    RunError::Step { position: i, error: err },
                ));
                return Err(RunError::Step { position: i, error: err });
            },
        }
        i = i + 1;
    }
    Ok(pe)
}

/// An import that arrives once configuration has begun is reported and
/// skipped without changing the project, and the run goes on with the next
/// step as though the import had not been there.
pub proof fn lemma_late_import_skipped(e: EngineView, t: Seq<char>, rest: Seq<StepView>, pos: int)
    requires
        e.state == State::Config,
    ensures
        apply_spec(e, StepView::RuntimePalletImport(t)) == (
            e,
            Err::<(), ApplyError>(ApplyError::IllegalState { state: State::Config }),
        ),
        run_spec(e, seq![StepView::RuntimePalletImport(t)] + rest, pos) == run_spec(
            EngineView {
                diagnostics: e.diagnostics.push(
                    Diagnostic::SkippedStep { position: pos as usize, state: State::Config },
                ),
                ..e
            },
            rest,
            pos + 1,
        ),
{
    let s = seq![StepView::RuntimePalletImport(t)] + rest;
    assert(s[0] == StepView::RuntimePalletImport(t));
    assert(s.drop_first() =~= rest);
}

/// Merging the same runtime dependency twice leaves two equal entries in
/// the runtime manifest: the merge appends and does not look for duplicates.
pub proof fn lemma_dependency_merge_appends(e: EngineView, d: DependencyView)
    requires
        e.state != State::Init,
        e.state != State::Done,
    ensures
        ({
            let (e1, r1) = apply_spec(e, StepView::RuntimePalletDependency(d));
            let (e2, r2) = apply_spec(e1, StepView::RuntimePalletDependency(d));
            r1 is Ok && r2 is Ok && e2.project.runtime_manifest == e.project.runtime_manifest.push(
                d,
            ).push(d) && e2.state == e.state
        }),
{
}

} // verus!
