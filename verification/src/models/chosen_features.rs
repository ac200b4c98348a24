//! The features a project chose, by bundle or one by one.

use vstd::prelude::*;
use super::feature::{copy_features, Feature};
use super::feature_set::FeatureSet;

verus! {

/// The features a project chose.
#[derive(Debug, Clone, PartialEq)]
pub enum ChosenFeatures {
    /// A named bundle.
    Preset { preset_name: FeatureSet },
    /// A list picked by hand, in the order given.
    Custom { features: Vec<Feature> },
}

/// What a `ChosenFeatures` stands for.
pub enum Selection {
    Preset { preset_name: FeatureSet },
    Custom { features: Seq<Feature> },
}

impl Selection {
    /// The features chosen: the bundle's, or the list as it stands.
    pub open spec fn resolved(self) -> Seq<Feature> {
        match self {
            Selection::Preset { preset_name } => preset_name.features(),
            Selection::Custom { features } => features,
        }
    }
}

impl View for ChosenFeatures {
    type V = Selection;

    open spec fn view(&self) -> Selection {
        match self {
            ChosenFeatures::Preset { preset_name } => Selection::Preset {
                preset_name: *preset_name,
            },
            ChosenFeatures::Custom { features } => Selection::Custom { features: features@ },
        }
    }
}

impl ChosenFeatures {
    /// The features chosen: the bundle's, or the list as it stands.
    pub fn get_feature_list(&self) -> (list: Vec<Feature>)
        ensures
            list@ == self@.resolved(),
    {
        match self {
            ChosenFeatures::Custom { features } => copy_features(features),
            ChosenFeatures::Preset { preset_name } => preset_name.get_feature_list(),
        }
    }

    /// A copy of this choice.
    pub fn duplicate(&self) -> (copy: ChosenFeatures)
        ensures
            copy@ == self@,
    {
        match self {
            ChosenFeatures::Custom { features } => ChosenFeatures::Custom {
                features: copy_features(features),
            },
            ChosenFeatures::Preset { preset_name } => ChosenFeatures::Preset {
                preset_name: *preset_name,
            },
        }
    }
}

} // verus!
