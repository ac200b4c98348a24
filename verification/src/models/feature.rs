//! The catalog of template modules.

use vstd::prelude::*;
use crate::templates;
use crate::text::{chars_of, same_text};

verus! {

/// One selectable template module.
#[derive(Debug, Clone, Copy, PartialEq, Eq, Structural, Hash)]
pub enum Feature {
    Core,
    Example,
    Option,
    Result,
    Parsers,
}

impl Feature {
    /// Every feature, in catalog order.
    pub open spec fn catalog() -> Seq<Feature> {
        seq![Feature::Core, Feature::Example, Feature::Option, Feature::Result, Feature::Parsers]
    }

    /// The text of this feature's template.
    pub open spec fn payload(self) -> Seq<char> {
        match self {
            Feature::Core => templates::CORE_FUNCTIONS@,
            Feature::Example => templates::EXAMPLE@,
            Feature::Option => templates::OPTION@,
            Feature::Result => templates::RESULT@,
            Feature::Parsers => templates::PARSERS@,
        }
    }

    /// The name of the file this feature is written to.
    pub open spec fn file_name(self) -> Seq<char> {
        match self {
            Feature::Core => "core.ts"@,
            Feature::Example => "example.ts"@,
            Feature::Option => "option.ts"@,
            Feature::Result => "result.ts"@,
            Feature::Parsers => "parsers.ts"@,
        }
    }

    /// Whether this feature works under Deno only.
    pub open spec fn deno_only(self) -> bool {
        self == Feature::Parsers
    }

    /// The features that `included` lacks, in catalog order.
    pub open spec fn complement(included: Seq<Feature>) -> Seq<Feature> {
        Feature::catalog().filter(|f: Feature| !included.contains(f))
    }

    /// The name this feature is known by.
    pub open spec fn name(self) -> Seq<char> {
        match self {
            Feature::Core => "Core"@,
            Feature::Example => "Example"@,
            Feature::Option => "Option"@,
            Feature::Result => "Result"@,
            Feature::Parsers => "Parsers"@,
        }
    }

    /// The feature known by `name`, if there is one.
    pub open spec fn named(name: Seq<char>) -> Option<Feature> {
        if name == "Core"@ {
            Some(Feature::Core)
        } else if name == "Example"@ {
            Some(Feature::Example)
        } else if name == "Option"@ {
            Some(Feature::Option)
        } else if name == "Result"@ {
            Some(Feature::Result)
        } else if name == "Parsers"@ {
            Some(Feature::Parsers)
        } else {
            None
        }
    }

    /// The name this feature is known by.
    pub fn get_name(&self) -> (name: &'static str)
        ensures
            name@ == self.name(),
    {
        match self {
            Feature::Core => "Core",
            Feature::Example => "Example",
            Feature::Option => "Option",
            Feature::Result => "Result",
            Feature::Parsers => "Parsers",
        }
    }

    /// The feature known by `name`, if there is one.
    pub fn from_name(name: &str) -> (feature: Option<Feature>)
        ensures
            feature == Feature::named(name@),
    {
        let name = chars_of(name);
        if same_text(&name, &chars_of("Core")) {
            Some(Feature::Core)
        } else if same_text(&name, &chars_of("Example")) {
            Some(Feature::Example)
        } else if same_text(&name, &chars_of("Option")) {
            Some(Feature::Option)
        } else if same_text(&name, &chars_of("Result")) {
            Some(Feature::Result)
        } else if same_text(&name, &chars_of("Parsers")) {
            Some(Feature::Parsers)
        } else {
            None
        }
    }

    /// Every feature, in catalog order.
    pub fn get_all() -> (all: Vec<Feature>)
        ensures
            all@ == Feature::catalog(),
    {
        let mut all: Vec<Feature> = Vec::new();
        all.push(Feature::Core);
        all.push(Feature::Example);
        all.push(Feature::Option);
        all.push(Feature::Result);
        all.push(Feature::Parsers);
        assert(all@ =~= Feature::catalog());
        all
    }

    /// The features that `included` lacks, in catalog order.
    pub fn get_complements(included: &Vec<Feature>) -> (rest: Vec<Feature>)
        ensures
            rest@ == Feature::complement(included@),
    {
        let all = Feature::get_all();
        let ghost lacking = |f: Feature| !included@.contains(f);
        let mut rest: Vec<Feature> = Vec::new();
        let mut i: usize = 0;
        assert(all@.take(0).filter(lacking) =~= Seq::<Feature>::empty()) by {
            reveal(Seq::filter);
        }
        while i < all.len()
            invariant
                i <= all.len(),
                all@ == Feature::catalog(),
                lacking == |f: Feature| !included@.contains(f),
                rest@ == all@.take(i as int).filter(lacking),
            decreases all.len() - i,
        {
            let feature = all[i];
            proof {
                assert(all@.take(i + 1) =~= all@.take(i as int).push(feature));
                all@.take(i as int).lemma_filter_push(feature, lacking);
            }
            if !has_feature(included, feature) {
                rest.push(feature);
            }
            i += 1;
        }
        assert(all@.take(all.len() as int) =~= all@);
        rest
    }

    /// Whether this feature works under Deno only.
    pub fn is_deno_only(&self) -> (only: bool)
        ensures
            only == self.deno_only(),
    {
        *self == Feature::Parsers
    }

    /// The name of the file this feature is written to.
    pub fn get_file_name(&self) -> (name: &'static str)
        ensures
            name@ == self.file_name(),
    {
        match self {
            Feature::Core => "core.ts",
            Feature::Example => "example.ts",
            Feature::Option => "option.ts",
            Feature::Result => "result.ts",
            Feature::Parsers => "parsers.ts",
        }
    }

    /// The text of this feature's template.
    pub fn get_implementation(&self) -> (text: &'static str)
        ensures
            text@ == self.payload(),
    {
        match self {
            Feature::Core => templates::CORE_FUNCTIONS,
            Feature::Example => templates::EXAMPLE,
            Feature::Option => templates::OPTION,
            Feature::Result => templates::RESULT,
            Feature::Parsers => templates::PARSERS,
        }
    }
}

/// The catalog holds every feature, and each once.
pub proof fn lemma_catalog_is_complete()
    ensures
        forall|feature: Feature| Feature::catalog().contains(feature),
        Feature::catalog().no_duplicates(),
{
    let catalog = Feature::catalog();
    assert forall|feature: Feature| catalog.contains(feature) by {
        match feature {
            Feature::Core => assert(catalog[0] == feature),
            Feature::Example => assert(catalog[1] == feature),
            Feature::Option => assert(catalog[2] == feature),
            Feature::Result => assert(catalog[3] == feature),
            Feature::Parsers => assert(catalog[4] == feature),
        }
    }
}

/// A sequence drawn from one without duplicates by a test has none either.
pub proof fn lemma_filter_keeps_distinct(all: Seq<Feature>, test: spec_fn(Feature) -> bool)
    requires
        all.no_duplicates(),
    ensures
        all.filter(test).no_duplicates(),
    decreases all.len(),
{
    reveal(Seq::filter);
    if all.len() > 0 {
        let front = all.drop_last();
        lemma_filter_keeps_distinct(front, test);
        if test(all.last()) {
            let kept = front.filter(test);
            assert forall|i: int| 0 <= i < kept.len() implies kept[i] != all.last() by {
                assert(kept.contains(kept[i]));
                front.lemma_filter_contains_rev(test, kept[i]);
                let j = choose|j: int| 0 <= j < front.len() && front[j] == kept[i];
                assert(all[j] == kept[i]);
            }
        }
    }
}

/// The complement of a selection and the selection share no feature, and
/// together they hold the whole catalog. The complement holds no feature
/// twice.
pub proof fn lemma_complement_partitions_catalog(included: Seq<Feature>)
    ensures
        Feature::complement(included).to_set().union(included.to_set())
            == Feature::catalog().to_set(),
        Feature::complement(included).to_set().intersect(included.to_set())
            == Set::<Feature>::empty(),
        Feature::complement(included).no_duplicates(),
{
    let lacking = |f: Feature| !included.contains(f);
    let catalog = Feature::catalog();
    let rest = Feature::complement(included);
    lemma_catalog_is_complete();
    lemma_filter_keeps_distinct(catalog, lacking);
    assert forall|feature: Feature| rest.contains(feature) <==> !included.contains(feature) by {
        if rest.contains(feature) {
            let i = choose|i: int| 0 <= i < rest.len() && rest[i] == feature;
            catalog.lemma_filter_pred(lacking, i);
        }
        if !included.contains(feature) {
            let i = choose|i: int| 0 <= i < catalog.len() && catalog[i] == feature;
            catalog.lemma_filter_contains(lacking, i);
        }
    }
    assert(rest.to_set().union(included.to_set()) =~= catalog.to_set());
    assert(rest.to_set().intersect(included.to_set()) =~= Set::<Feature>::empty());
}

/// Whether `list` holds `feature`.
pub fn has_feature(list: &Vec<Feature>, feature: Feature) -> (found: bool)
    ensures
        found == list@.contains(feature),
{
    let mut i: usize = 0;
    while i < list.len()
        invariant
            i <= list.len(),
            forall|k: int| 0 <= k < i ==> list@[k] != feature,
        decreases list.len() - i,
    {
        if list[i] == feature {
            return true;
        }
        i += 1;
    }
    false
}

/// A copy of `list`.
pub fn copy_features(list: &Vec<Feature>) -> (copy: Vec<Feature>)
    ensures
        copy@ == list@,
{
    let mut copy: Vec<Feature> = Vec::new();
    let mut i: usize = 0;
    while i < list.len()
        invariant
            i <= list.len(),
            copy@ == list@.take(i as int),
        decreases list.len() - i,
    {
        copy.push(list[i]);
        assert(list@.take(i + 1) =~= list@.take(i as int).push(list@[i as int]));
        i += 1;
    }
    assert(list@.take(list.len() as int) =~= list@);
    copy
}

} // verus!
