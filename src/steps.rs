use vstd::prelude::*;
use crate::dependency::{
    Dependency, DependencyView, node_template_spec, runtime_template_spec,
};
use crate::registry::{AddPalletEntry, EntryView};

verus! {

/// The pallet to integrate into a runtime.
pub enum AddPallet {
    /// The parachain template pallet.
    Template,
    /// A FRAME pallet, named.
    Frame(String),
}

/// One edit of a pallet integration.
pub enum Steps {
    /// Import statements for the pallet.
    RuntimePalletImport(String),
    /// The pallet's `Config` implementation for the runtime.
    RuntimePalletConfiguration(String),
    /// The runtime manifest's dependency on the pallet.
    RuntimePalletDependency(Dependency),
    /// The pallet's entry in the runtime's registry.
    ConstructRuntimeEntry(AddPalletEntry),
    /// A benchmark listing entry.
    ListBenchmarks(String),
    /// The pallet's genesis configuration.
    ChainspecGenesisConfig(String),
    /// Imports that the genesis configuration needs.
    ChainspecGenesisImport(String),
    /// The node manifest's dependency on the pallet.
    NodePalletDependency(Dependency),
}

/// The mathematical value of a step.
pub enum StepView {
    RuntimePalletImport(Seq<char>),
    RuntimePalletConfiguration(Seq<char>),
    RuntimePalletDependency(DependencyView),
    ConstructRuntimeEntry(EntryView),
    ListBenchmarks(Seq<char>),
    ChainspecGenesisConfig(Seq<char>),
    ChainspecGenesisImport(Seq<char>),
    NodePalletDependency(DependencyView),
}

impl View for Steps {
    type V = StepView;

    open spec fn view(&self) -> StepView {
        match self {
            Steps::RuntimePalletImport(s) => StepView::RuntimePalletImport(s@),
            Steps::RuntimePalletConfiguration(s) => StepView::RuntimePalletConfiguration(s@),
            Steps::RuntimePalletDependency(d) => StepView::RuntimePalletDependency(d@),
            Steps::ConstructRuntimeEntry(e) => StepView::ConstructRuntimeEntry(e@),
            Steps::ListBenchmarks(s) => StepView::ListBenchmarks(s@),
            Steps::ChainspecGenesisConfig(s) => StepView::ChainspecGenesisConfig(s@),
            Steps::ChainspecGenesisImport(s) => StepView::ChainspecGenesisImport(s@),
            Steps::NodePalletDependency(d) => StepView::NodePalletDependency(d@),
        }
    }
}

pub open spec fn steps_view(v: Seq<Steps>) -> Seq<StepView> {
    v.map_values(|s: Steps| s@)
}

/// Why no plan can be made for a pallet.
#[derive(Debug, Clone, Copy, PartialEq, Eq, Structural)]
pub enum BuildError {
    /// The pallet kind has no integration recipe yet.
    UnsupportedRecipe,
}

pub open spec fn template_import() -> Seq<char> {
    "pub use pallet_parachain_template;"@
}

pub open spec fn template_configuration() -> Seq<char> {
    "/// Configure the pallet template in pallets/template.\nimpl pallet_parachain_template::Config for Runtime {\n    type RuntimeEvent = RuntimeEvent;\n}"@
}

pub open spec fn template_entry() -> EntryView {
    EntryView { index: None, path: "pallet_parachain_template"@, name: "Template"@ }
}

/// The edits that integrate the parachain template pallet, in order.
pub open spec fn template_plan() -> Seq<StepView> {
    seq![
        StepView::RuntimePalletDependency(runtime_template_spec()),
        StepView::RuntimePalletImport(template_import()),
        StepView::RuntimePalletConfiguration(template_configuration()),
        StepView::ConstructRuntimeEntry(template_entry()),
        StepView::NodePalletDependency(node_template_spec()),
    ]
}

/// Plans the edits that integrate a pallet.
pub fn step_builder(pallet: AddPallet) -> (r: Result<Vec<Steps>, BuildError>)
    ensures
        match pallet {
            AddPallet::Template => r is Ok && steps_view(r->Ok_0@) == template_plan(),
            AddPallet::Frame(_) => r == Err::<Vec<Steps>, BuildError>(BuildError::UnsupportedRecipe),
        },
{
    match pallet {
        AddPallet::Template => {
            let mut steps: Vec<Steps> = Vec::new();
            steps.push(Steps::RuntimePalletDependency(Dependency::runtime_template()));
            steps.push(Steps::RuntimePalletImport("pub use pallet_parachain_template;".to_owned()));
            steps.push(
                Steps::RuntimePalletConfiguration(
                    "/// Configure the pallet template in pallets/template.\nimpl pallet_parachain_template::Config for Runtime {\n    type RuntimeEvent = RuntimeEvent;\n}".to_owned(),
                ),
            );
            steps.push(
                Steps::ConstructRuntimeEntry(
                    AddPalletEntry::new(None, "pallet_parachain_template", "Template"),
                ),
            );
            steps.push(Steps::NodePalletDependency(Dependency::node_template()));
            assert(steps_view(steps@) =~= template_plan());
            Ok(steps)
        },
        AddPallet::Frame(_) => Err(BuildError::UnsupportedRecipe),
    }
}

/// In the template plan every import comes before every configuration that
/// relies on it, and there is at least one of each.
pub proof fn lemma_template_plan_imports_first()
    ensures
        exists|i: int| 0 <= i < template_plan().len() && #[trigger] template_plan()[i] is RuntimePalletImport,
        exists|i: int| 0 <= i < template_plan().len() && #[trigger] template_plan()[i] is RuntimePalletConfiguration,
        forall|i: int, j: int|
            0 <= i < template_plan().len() && 0 <= j < template_plan().len()
                && #[trigger] template_plan()[i] is RuntimePalletImport
                && #[trigger] template_plan()[j] is RuntimePalletConfiguration ==> i < j,
{
    assert(template_plan()[1] is RuntimePalletImport);
    assert(template_plan()[2] is RuntimePalletConfiguration);
}

} // verus!
