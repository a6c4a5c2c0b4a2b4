use vstd::prelude::*;
use vstd::string::StringExecFns;

verus! {

/// A feature flag enabled on a manifest dependency.
pub enum Features {
    Std,
    RuntimeBenchmarks,
    TryRuntime,
    Custom(String),
}

/// The mathematical value of a feature flag.
pub enum FeatureView {
    Std,
    RuntimeBenchmarks,
    TryRuntime,
    Custom(Seq<char>),
}

impl View for Features {
    type V = FeatureView;

    open spec fn view(&self) -> FeatureView {
        match self {
            Features::Std => FeatureView::Std,
            Features::RuntimeBenchmarks => FeatureView::RuntimeBenchmarks,
            Features::TryRuntime => FeatureView::TryRuntime,
            Features::Custom(s) => FeatureView::Custom(s@),
        }
    }
}

/// The name a feature carries in a manifest.
pub open spec fn feature_name(f: FeatureView) -> Seq<char> {
    match f {
        FeatureView::Std => "std"@,
        FeatureView::RuntimeBenchmarks => "runtime-benchmarks"@,
        FeatureView::TryRuntime => "try-runtime"@,
        FeatureView::Custom(s) => s,
    }
}

impl Features {
    /// The name under which the feature is written in a manifest.
    pub fn name(&self) -> (r: String)
        ensures
            r@ == feature_name(self@),
    {
        match self {
            Features::Std => "std".to_owned(),
            Features::RuntimeBenchmarks => "runtime-benchmarks".to_owned(),
            Features::TryRuntime => "try-runtime".to_owned(),
            Features::Custom(s) => s.clone(),
        }
    }
}

/// A manifest entry to be merged into a target manifest.
pub struct Dependency {
    pub features: Vec<Features>,
    pub path: String,
    pub no_default_features: bool,
}

/// The mathematical value of a manifest entry.
pub struct DependencyView {
    pub features: Seq<FeatureView>,
    pub path: Seq<char>,
    pub no_default_features: bool,
}

impl View for Dependency {
    type V = DependencyView;

    open spec fn view(&self) -> DependencyView {
        DependencyView {
            features: self.features@.map_values(|f: Features| f@),
            path: self.path@,
            no_default_features: self.no_default_features,
        }
    }
}

/// Where the template pallet lives, relative to the runtime and node crates.
pub open spec fn template_path() -> Seq<char> {
    "path = \"../pallets/template\""@
}

/// The runtime-side entry of the template pallet.
pub open spec fn runtime_template_spec() -> DependencyView {
    DependencyView {
        features: seq![FeatureView::RuntimeBenchmarks, FeatureView::TryRuntime, FeatureView::Std],
        path: template_path(),
        no_default_features: true,
    }
}

/// The node-side entry of the template pallet.
pub open spec fn node_template_spec() -> DependencyView {
    DependencyView {
        features: seq![FeatureView::RuntimeBenchmarks, FeatureView::TryRuntime],
        path: template_path(),
        no_default_features: false,
    }
}

impl Dependency {
    /// Dependency required for adding the parachain template pallet to a runtime.
    pub fn runtime_template() -> (r: Self)
        ensures
            r@ == runtime_template_spec(),
    {
        let r = Dependency {
            features: vec![Features::RuntimeBenchmarks, Features::TryRuntime, Features::Std],
            path: "path = \"../pallets/template\"".to_owned(),
            no_default_features: true,
        };
        assert(r@.features =~= runtime_template_spec().features);
        r
    }

    /// Dependency required for adding the parachain template pallet to a node.
    pub fn node_template() -> (r: Self)
        ensures
            r@ == node_template_spec(),
    {
        let r = Dependency {
            features: vec![Features::RuntimeBenchmarks, Features::TryRuntime],
            path: "path = \"../pallets/template\"".to_owned(),
            no_default_features: false,
        };
        assert(r@.features =~= node_template_spec().features);
        r
    }
}

/// A feature name as a quoted manifest string.
pub open spec fn quoted(f: FeatureView) -> Seq<char> {
    "\""@ + feature_name(f) + "\""@
}

/// The feature names, quoted and separated by commas.
pub open spec fn feature_list(fs: Seq<FeatureView>) -> Seq<char>
    decreases fs.len(),
{
    if fs.len() == 0 {
        Seq::empty()
    } else if fs.len() == 1 {
        quoted(fs[0])
    } else {
        feature_list(fs.drop_last()) + ", "@ + quoted(fs.last())
    }
}

/// A dependency written as an inline manifest table: its source, whether
/// default features are off, and its features.
pub open spec fn render_spec(d: DependencyView) -> Seq<char> {
    "{ "@ + d.path + (if d.no_default_features {
        ", default-features = false"@
    } else {
        Seq::empty()
    }) + ", features = ["@ + feature_list(d.features) + "] }"@
}

impl Dependency {
    /// The dependency as an inline table of the target manifest.
    pub fn render(&self) -> (r: String)
        ensures
            r@ == render_spec(self@),
    {
        let mut r = "{ ".to_owned();
        r.append(self.path.as_str());
        if self.no_default_features {
            r.append(", default-features = false");
        }
        r.append(", features = [");
        let ghost head = r@;
        let ghost fv = self@.features;
        let mut i: usize = 0;
        while i < self.features.len()
            invariant
                0 <= i <= self.features.len(),
                fv == self@.features,
                fv.len() == self.features@.len(),
                r@ == head + feature_list(fv.subrange(0, i as int)),
            decreases self.features.len() - i,
        {
            let ghost pre = fv.subrange(0, i as int);
            let ghost cur = fv.subrange(0, i as int + 1);
            assert(cur.drop_last() =~= pre);
            assert(cur.last() == self.features@[i as int]@);
            if i > 0 {
                r.append(", ");
            }
            r.append("\"");
            let name = self.features[i].name();
            r.append(name.as_str());
            r.append("\"");
            if i == 0 {
                assert(pre =~= Seq::<FeatureView>::empty());
            }
            assert(r@ =~= head + feature_list(cur));
            i = i + 1;
        }
        assert(fv.subrange(0, self.features.len() as int) =~= fv);
        r.append("] }");
        r
    }
}

} // verus!
