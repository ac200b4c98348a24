//! How a project's choices are written as a JSON value, and read back.
//!
//! The record is an object with the members `runtime`, `chosen_directory`,
//! `feature_set` and `modularity`. The runtime, the modularity, a bundle and
//! a feature are written as their names. The features are an object of one
//! member: `Preset`, an object whose `preset_name` is a bundle; or `Custom`,
//! an object whose `features` is an array of features.

use vstd::prelude::*;
use serde_json::Value;
use super::json::{
    array_value, empty_object, items, items_of, member, member_count, member_of, members_of,
    set_member, text, text_of, text_value,
};
use crate::models::{
    Choices, ChosenFeatures, Feature, FeatureSet, Modularity, ProjectChoices, Runtime, Selection,
};

verus! {

/// The feature that `value` names, if it names one.
pub open spec fn decoded_feature(value: Value) -> Option<Feature> {
    match text_of(value) {
        Some(name) => Feature::named(name),
        None => None,
    }
}

/// The features that `items` name, if each of them names one.
pub open spec fn decoded_features(items: Seq<Value>) -> Option<Seq<Feature>> {
    if forall|i: int| 0 <= i < items.len() ==> decoded_feature(#[trigger] items[i]) is Some {
        Some(Seq::new(items.len(), |i: int| decoded_feature(items[i])->0))
    } else {
        None
    }
}

/// The bundle that the object `inner` names under `preset_name`.
pub open spec fn decoded_preset(inner: Value) -> Option<Selection> {
    match member_of(inner, "preset_name"@) {
        Some(name) => match text_of(name) {
            Some(name) => match FeatureSet::named(name) {
                Some(preset_name) => Some(Selection::Preset { preset_name }),
                None => None,
            },
            None => None,
        },
        None => None,
    }
}

/// The list that the object `inner` holds under `features`.
pub open spec fn decoded_custom(inner: Value) -> Option<Selection> {
    match member_of(inner, "features"@) {
        Some(list) => match items_of(list) {
            Some(items) => match decoded_features(items) {
                Some(features) => Some(Selection::Custom { features }),
                None => None,
            },
            None => None,
        },
        None => None,
    }
}

/// The choice of features that `value` holds: an object of exactly one
/// member, `Preset` or `Custom`.
pub open spec fn decoded_selection(value: Value) -> Option<Selection> {
    match members_of(value) {
        Some(members) => if members.dom().finite() && members.dom().len() == 1 {
            if members.contains_key("Preset"@) {
                decoded_preset(members["Preset"@])
            } else if members.contains_key("Custom"@) {
                decoded_custom(members["Custom"@])
            } else {
                None
            }
        } else {
            None
        },
        None => None,
    }
}

/// The name that `value` holds under `key`.
pub open spec fn decoded_text(value: Value, key: Seq<char>) -> Option<Seq<char>> {
    match member_of(value, key) {
        Some(inner) => text_of(inner),
        None => None,
    }
}

/// The choices that `value` records, if it is a well-formed record.
/// Members that a record does not have are passed over.
pub open spec fn decoded(value: Value) -> Option<Choices> {
    match (
        decoded_text(value, "runtime"@),
        decoded_text(value, "chosen_directory"@),
        member_of(value, "feature_set"@),
        decoded_text(value, "modularity"@),
    ) {
        (Some(runtime), Some(chosen_directory), Some(feature_set), Some(modularity)) => match (
            Runtime::named(runtime),
            decoded_selection(feature_set),
            Modularity::named(modularity),
        ) {
            (Some(runtime), Some(feature_set), Some(modularity)) => Some(
                Choices { runtime, chosen_directory, feature_set, modularity },
            ),
            _ => None,
        },
        _ => None,
    }
}

/// Whether `value` is a string of the characters `text`.
pub open spec fn is_text(value: Value, text: Seq<char>) -> bool {
    text_of(value) == Some(text)
}

/// Whether `value` is the array of the names of `features`.
pub open spec fn encodes_features(value: Value, features: Seq<Feature>) -> bool {
    &&& items_of(value) matches Some(items)
    &&& items.len() == features.len()
    &&& forall|i: int| 0 <= i < items.len() ==> is_text(#[trigger] items[i], features[i].name())
}

/// Whether `value` is an object whose one member, under `key`, is `inner`.
pub open spec fn wraps(value: Value, key: Seq<char>, inner: Value) -> bool {
    &&& members_of(value) matches Some(members)
    &&& members.dom() =~= set![key]
    &&& members[key] == inner
}

/// Whether `value` is the record's form of the choice `selection`.
pub open spec fn encodes_selection(value: Value, selection: Selection) -> bool {
    match selection {
        Selection::Preset { preset_name } => {
            &&& members_of(value) matches Some(members)
            &&& members.dom() =~= set!["Preset"@]
            &&& members_of(members["Preset"@]) matches Some(inner)
            &&& inner.dom() =~= set!["preset_name"@]
            &&& is_text(inner["preset_name"@], preset_name.name())
        },
        Selection::Custom { features } => {
            &&& members_of(value) matches Some(members)
            &&& members.dom() =~= set!["Custom"@]
            &&& members_of(members["Custom"@]) matches Some(inner)
            &&& inner.dom() =~= set!["features"@]
            &&& encodes_features(inner["features"@], features)
        },
    }
}

/// Whether `value` is the record of `choices`: an object of exactly the
/// four members, each in the record's form.
pub open spec fn encodes(value: Value, choices: Choices) -> bool {
    &&& members_of(value) matches Some(members)
    &&& members.dom() =~= set![
        "runtime"@,
        "chosen_directory"@,
        "feature_set"@,
        "modularity"@,
    ]
    &&& is_text(members["runtime"@], choices.runtime.name())
    &&& is_text(members["chosen_directory"@], choices.chosen_directory)
    &&& encodes_selection(members["feature_set"@], choices.feature_set)
    &&& is_text(members["modularity"@], choices.modularity.name())
}

/// Every feature is the one that its name names.
pub proof fn lemma_feature_name_round_trip(feature: Feature)
    ensures
        Feature::named(feature.name()) == Some(feature),
{
    reveal_strlit("Core");
    reveal_strlit("Example");
    reveal_strlit("Option");
    reveal_strlit("Result");
    reveal_strlit("Parsers");
    assert("Option"@[0] != "Result"@[0]);
    assert("Example"@[0] != "Parsers"@[0]);
}

/// Every bundle is the one that its name names.
pub proof fn lemma_feature_set_name_round_trip(set: FeatureSet)
    ensures
        FeatureSet::named(set.name()) == Some(set),
{
    reveal_strlit("All");
    reveal_strlit("Core");
    reveal_strlit("CorePlus");
    assert("All"@.len() == 3 && "Core"@.len() == 4 && "CorePlus"@.len() == 8);
}

/// Every runtime is the one that its name names.
pub proof fn lemma_runtime_name_round_trip(runtime: Runtime)
    ensures
        Runtime::named(runtime.name()) == Some(runtime),
{
    reveal_strlit("Deno");
    reveal_strlit("NodeJs");
    reveal_strlit("ClientSide");
    assert("Deno"@.len() == 4 && "NodeJs"@.len() == 6 && "ClientSide"@.len() == 10);
}

/// Every modularity is the one that its name names.
pub proof fn lemma_modularity_name_round_trip(modularity: Modularity)
    ensures
        Modularity::named(modularity.name()) == Some(modularity),
{
    reveal_strlit("SingleFile");
    reveal_strlit("SplitFiles");
    assert("SingleFile"@[1] != "SplitFiles"@[1]);
}

/// The record's form of a choice of features reads back as that choice.
pub proof fn lemma_selection_round_trip(value: Value, selection: Selection)
    requires
        encodes_selection(value, selection),
    ensures
        decoded_selection(value) == Some(selection),
{
    reveal_strlit("Preset");
    reveal_strlit("Custom");
    assert("Preset"@[0] != "Custom"@[0]);
    let members = members_of(value)->0;
    match selection {
        Selection::Preset { preset_name } => {
            assert(members.dom() =~= Set::<Seq<char>>::empty().insert("Preset"@));
            assert(members.contains_key("Preset"@));
            lemma_feature_set_name_round_trip(preset_name);
            let inner = members_of(members["Preset"@])->0;
            assert(inner.contains_key("preset_name"@));
        },
        Selection::Custom { features } => {
            assert(members.dom() =~= Set::<Seq<char>>::empty().insert("Custom"@));
            assert(members.contains_key("Custom"@));
            assert(!members.contains_key("Preset"@));
            let inner = members_of(members["Custom"@])->0;
            assert(inner.contains_key("features"@));
            let items = items_of(inner["features"@])->0;
            assert forall|i: int| 0 <= i < items.len() implies decoded_feature(
                #[trigger] items[i],
            ) == Some(features[i]) by {
                lemma_feature_name_round_trip(features[i]);
            }
            assert(decoded_features(items)->0 =~= features);
        },
    }
}

/// A record reads back as the choices it was written from.
pub proof fn lemma_record_round_trip(value: Value, choices: Choices)
    requires
        encodes(value, choices),
    ensures
        decoded(value) == Some(choices),
{
    let members = members_of(value)->0;
    assert(members.contains_key("runtime"@));
    assert(members.contains_key("chosen_directory"@));
    assert(members.contains_key("feature_set"@));
    assert(members.contains_key("modularity"@));
    lemma_runtime_name_round_trip(choices.runtime);
    lemma_modularity_name_round_trip(choices.modularity);
    lemma_selection_round_trip(members["feature_set"@], choices.feature_set);
}

/// The name that `value` holds under `key`.
fn decode_text<'a>(value: &'a Value, key: &str) -> (found: Option<&'a str>)
    ensures
        match found {
            Some(name) => decoded_text(*value, key@) == Some(name@),
            None => decoded_text(*value, key@) is None,
        },
{
    match member(value, key) {
        Some(inner) => text(inner),
        None => None,
    }
}

/// The features that `list` names, if each of its elements names one.
fn decode_features(list: &Vec<Value>) -> (found: Option<Vec<Feature>>)
    ensures
        match found {
            Some(features) => decoded_features(list@) == Some(features@),
            None => decoded_features(list@) is None,
        },
{
    let mut features: Vec<Feature> = Vec::new();
    let mut i: usize = 0;
    while i < list.len()
        invariant
            i <= list.len(),
            features@.len() == i,
            forall|k: int| 0 <= k < i ==> decoded_feature(#[trigger] list@[k]) == Some(features@[k]),
        decreases list.len() - i,
    {
        let feature = match text(&list[i]) {
            Some(name) => Feature::from_name(name),
            None => None,
        };
        match feature {
            Some(feature) => {
                features.push(feature);
            },
            None => {
                assert(decoded_feature(list@[i as int]) is None);
                return None;
            },
        }
        i += 1;
    }
    assert(decoded_features(list@)->0 =~= features@);
    Some(features)
}

/// The choice of features that `value` holds.
fn decode_selection(value: &Value) -> (found: Option<ChosenFeatures>)
    ensures
        match found {
            Some(selection) => decoded_selection(*value) == Some(selection@),
            None => decoded_selection(*value) is None,
        },
{
    match member_count(value) {
        Some(1) => {},
        _ => { return None; },
    }
    if let Some(inner) = member(value, "Preset") {
        let name = match decode_text(inner, "preset_name") {
            Some(name) => name,
            None => { return None; },
        };
        match FeatureSet::from_name(name) {
            Some(preset_name) => Some(ChosenFeatures::Preset { preset_name }),
            None => None,
        }
    } else if let Some(inner) = member(value, "Custom") {
        let list = match member(inner, "features") {
            Some(list) => list,
            None => { return None; },
        };
        let list = match items(list) {
            Some(list) => list,
            None => { return None; },
        };
        match decode_features(list) {
            Some(features) => Some(ChosenFeatures::Custom { features }),
            None => None,
        }
    } else {
        None
    }
}

/// The choices that `value` records, if it is a well-formed record.
pub fn decode(value: &Value) -> (found: Option<ProjectChoices>)
    ensures
        match found {
            Some(choices) => decoded(*value) == Some(choices@),
            None => decoded(*value) is None,
        },
{
    let runtime = match decode_text(value, "runtime") {
        Some(name) => name,
        None => { return None; },
    };
    let chosen_directory = match decode_text(value, "chosen_directory") {
        Some(name) => name,
        None => { return None; },
    };
    let feature_set = match member(value, "feature_set") {
        Some(inner) => inner,
        None => { return None; },
    };
    let modularity = match decode_text(value, "modularity") {
        Some(name) => name,
        None => { return None; },
    };
    let runtime = match Runtime::from_name(runtime) {
        Some(runtime) => runtime,
        None => { return None; },
    };
    let feature_set = match decode_selection(feature_set) {
        Some(feature_set) => feature_set,
        None => { return None; },
    };
    let modularity = match Modularity::from_name(modularity) {
        Some(modularity) => modularity,
        None => { return None; },
    };
    Some(
        ProjectChoices {
            runtime,
            chosen_directory: chosen_directory.to_owned(),
            feature_set,
            modularity,
        },
    )
}

/// The array of the names of `features`.
fn encode_features(features: &Vec<Feature>) -> (value: Value)
    ensures
        encodes_features(value, features@),
{
    let mut names: Vec<Value> = Vec::new();
    let mut i: usize = 0;
    while i < features.len()
        invariant
            i <= features.len(),
            names@.len() == i,
            forall|k: int| 0 <= k < i ==> is_text(#[trigger] names@[k], features@[k].name()),
        decreases features.len() - i,
    {
        names.push(text_value(features[i].get_name()));
        i += 1;
    }
    array_value(names)
}

/// An object whose one member, under `key`, is `inner`.
fn wrap(key: &str, inner: Value) -> (value: Value)
    ensures
        wraps(value, key@, inner),
{
    let mut value = empty_object();
    set_member(&mut value, key, inner);
    value
}

/// The record's form of the choice `selection`.
fn encode_selection(selection: &ChosenFeatures) -> (value: Value)
    ensures
        encodes_selection(value, selection@),
{
    match selection {
        ChosenFeatures::Preset { preset_name } => wrap(
            "Preset",
            wrap("preset_name", text_value(preset_name.get_name())),
        ),
        ChosenFeatures::Custom { features } => wrap(
            "Custom",
            wrap("features", encode_features(features)),
        ),
    }
}

/// The record of `choices`.
pub fn encode(choices: &ProjectChoices) -> (value: Value)
    ensures
        encodes(value, choices@),
{
    let mut value = empty_object();
    set_member(&mut value, "runtime", text_value(choices.runtime.get_name()));
    set_member(&mut value, "chosen_directory", text_value(choices.chosen_directory.as_str()));
    set_member(&mut value, "feature_set", encode_selection(&choices.feature_set));
    set_member(&mut value, "modularity", text_value(choices.modularity.get_name()));
    proof {
        reveal_strlit("runtime");
        reveal_strlit("chosen_directory");
        reveal_strlit("feature_set");
        reveal_strlit("modularity");
        assert("runtime"@.len() == 7 && "chosen_directory"@.len() == 16 && "feature_set"@.len()
            == 11 && "modularity"@.len() == 10);
    }
    value
}

} // verus!
