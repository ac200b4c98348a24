//! Named bundles of features.

use vstd::prelude::*;
use super::feature::Feature;
use crate::text::{chars_of, same_text};

verus! {

/// A named bundle of features.
#[derive(Debug, Clone, Copy, PartialEq, Eq, Structural)]
pub enum FeatureSet {
    All,
    Core,
    CorePlus,
}

impl FeatureSet {
    /// The features of this bundle, in catalog order.
    pub open spec fn features(self) -> Seq<Feature> {
        match self {
            FeatureSet::All => Feature::catalog(),
            FeatureSet::Core => seq![Feature::Core],
            FeatureSet::CorePlus => seq![Feature::Core, Feature::Option, Feature::Result],
        }
    }

    /// The name this bundle is known by.
    pub open spec fn name(self) -> Seq<char> {
        match self {
            FeatureSet::All => "All"@,
            FeatureSet::Core => "Core"@,
            FeatureSet::CorePlus => "CorePlus"@,
        }
    }

    /// The bundle known by `name`, if there is one.
    pub open spec fn named(name: Seq<char>) -> Option<FeatureSet> {
        if name == "All"@ {
            Some(FeatureSet::All)
        } else if name == "Core"@ {
            Some(FeatureSet::Core)
        } else if name == "CorePlus"@ {
            Some(FeatureSet::CorePlus)
        } else {
            None
        }
    }

    /// The features of this bundle, in catalog order.
    pub fn get_feature_list(&self) -> (list: Vec<Feature>)
        ensures
            list@ == self.features(),
    {
        match self {
            FeatureSet::All => Feature::get_all(),
            FeatureSet::Core => {
                let mut list: Vec<Feature> = Vec::new();
                list.push(Feature::Core);
                assert(list@ =~= seq![Feature::Core]);
                list
            },
            FeatureSet::CorePlus => {
                let mut list: Vec<Feature> = Vec::new();
                list.push(Feature::Core);
                list.push(Feature::Option);
                list.push(Feature::Result);
                assert(list@ =~= seq![Feature::Core, Feature::Option, Feature::Result]);
                list
            },
        }
    }

    /// The name this bundle is known by.
    pub fn get_name(&self) -> (name: &'static str)
        ensures
            name@ == self.name(),
    {
        match self {
            FeatureSet::All => "All",
            FeatureSet::Core => "Core",
            FeatureSet::CorePlus => "CorePlus",
        }
    }

    /// The bundle known by `name`, if there is one.
    pub fn from_name(name: &str) -> (set: Option<FeatureSet>)
        ensures
            set == FeatureSet::named(name@),
    {
        let name = chars_of(name);
        if same_text(&name, &chars_of("All")) {
            Some(FeatureSet::All)
        } else if same_text(&name, &chars_of("Core")) {
            Some(FeatureSet::Core)
        } else if same_text(&name, &chars_of("CorePlus")) {
            Some(FeatureSet::CorePlus)
        } else {
            None
        }
    }
}

/// A bundle holds no feature twice, and holds its features in the order of
/// the catalog: it is the catalog narrowed to them.
pub proof fn lemma_bundle_follows_catalog(set: FeatureSet)
    ensures
        set.features().no_duplicates(),
        set.features() == Feature::catalog().filter(|f: Feature| set.features().contains(f)),
{
    let member = |f: Feature| set.features().contains(f);
    let catalog = Feature::catalog();
    reveal_with_fuel(Seq::filter, 6);
    match set {
        FeatureSet::All => {
            assert(forall|i: int| 0 <= i < 5 ==> member(#[trigger] catalog[i])) by {
                assert(set.features()[0] == catalog[0]);
                assert(set.features()[1] == catalog[1]);
                assert(set.features()[2] == catalog[2]);
                assert(set.features()[3] == catalog[3]);
                assert(set.features()[4] == catalog[4]);
            }
        },
        FeatureSet::Core => {
            assert(set.features()[0] == Feature::Core);
        },
        FeatureSet::CorePlus => {
            assert(set.features()[0] == Feature::Core);
            assert(set.features()[1] == Feature::Option);
            assert(set.features()[2] == Feature::Result);
        },
    }
    let c0 = catalog.drop_last();
    let c1 = c0.drop_last();
    let c2 = c1.drop_last();
    let c3 = c2.drop_last();
    let c4 = c3.drop_last();
    assert(c0 =~= seq![Feature::Core, Feature::Example, Feature::Option, Feature::Result]);
    assert(c1 =~= seq![Feature::Core, Feature::Example, Feature::Option]);
    assert(c2 =~= seq![Feature::Core, Feature::Example]);
    assert(c3 =~= seq![Feature::Core]);
    assert(c4 =~= Seq::<Feature>::empty());
    assert(member(Feature::Core));
    assert(c3.filter(member) =~= seq![Feature::Core]);
    assert(set.features() =~= catalog.filter(member));
}

} // verus!
