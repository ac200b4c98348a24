//! Collects the four choices one by one.

use vstd::prelude::*;
use super::chosen_features::{ChosenFeatures, Selection};
use super::project_choices::{Choices, ProjectChoices};
use super::{Modularity, Runtime};

verus! {

/// A choice that was never made.
#[derive(Debug, Clone, Copy, PartialEq, Eq, Structural)]
pub enum MissingField {
    Runtime,
    ChosenDirectory,
    FeatureSet,
    Modularity,
}

impl MissingField {
    /// The word by which this choice is named.
    pub open spec fn name(self) -> Seq<char> {
        match self {
            MissingField::Runtime => "runtime"@,
            MissingField::ChosenDirectory => "destination"@,
            MissingField::FeatureSet => "feature-set"@,
            MissingField::Modularity => "modularity"@,
        }
    }

    /// The word by which this choice is named.
    pub fn get_name(&self) -> (name: &'static str)
        ensures
            name@ == self.name(),
    {
        match self {
            MissingField::Runtime => "runtime",
            MissingField::ChosenDirectory => "destination",
            MissingField::FeatureSet => "feature-set",
            MissingField::Modularity => "modularity",
        }
    }
}

/// Collects the four choices one by one and yields them only when all are
/// there.
#[derive(Debug, Clone)]
pub struct ProjectBuilder {
    runtime: Option<Runtime>,
    chosen_directory: Option<String>,
    feature_set: Option<ChosenFeatures>,
    modularity: Option<Modularity>,
}

/// What a `ProjectBuilder` stands for: the choices made so far.
pub struct Draft {
    pub runtime: Option<Runtime>,
    pub chosen_directory: Option<Seq<char>>,
    pub feature_set: Option<Selection>,
    pub modularity: Option<Modularity>,
}

impl Draft {
    /// The first choice that is still missing, in the order runtime,
    /// destination, features, modularity.
    pub open spec fn first_missing(self) -> Option<MissingField> {
        if self.runtime is None {
            Some(MissingField::Runtime)
        } else if self.chosen_directory is None {
            Some(MissingField::ChosenDirectory)
        } else if self.feature_set is None {
            Some(MissingField::FeatureSet)
        } else if self.modularity is None {
            Some(MissingField::Modularity)
        } else {
            None
        }
    }

    /// The choices, once all four are made.
    pub open spec fn complete(self) -> Choices
        recommends
            self.first_missing() is None,
    {
        Choices {
            runtime: self.runtime->0,
            chosen_directory: self.chosen_directory->0,
            feature_set: self.feature_set->0,
            modularity: self.modularity->0,
        }
    }
}

impl View for ProjectBuilder {
    type V = Draft;

    closed spec fn view(&self) -> Draft {
        Draft {
            runtime: self.runtime,
            chosen_directory: match self.chosen_directory {
                Some(dir) => Some(dir@),
                None => None,
            },
            feature_set: match self.feature_set {
                Some(set) => Some(set@),
                None => None,
            },
            modularity: self.modularity,
        }
    }
}

impl Default for ProjectBuilder {
    fn default() -> (builder: ProjectBuilder)
        ensures
            builder@ == (Draft {
                runtime: None,
                chosen_directory: None,
                feature_set: None,
                modularity: None,
            }),
    {
        ProjectBuilder { runtime: None, chosen_directory: None, feature_set: None, modularity: None }
    }
}

impl ProjectBuilder {
    /// A builder with no choice made.
    pub fn new() -> (builder: ProjectBuilder)
        ensures
            builder@ == (Draft {
                runtime: None,
                chosen_directory: None,
                feature_set: None,
                modularity: None,
            }),
    {
        ProjectBuilder { runtime: None, chosen_directory: None, feature_set: None, modularity: None }
    }

    /// Chooses the runtime.
    pub fn set_runtime(self, chosen_runtime: Runtime) -> (builder: ProjectBuilder)
        ensures
            builder@ == (Draft { runtime: Some(chosen_runtime), ..self@ }),
    {
        let mut builder = self;
        builder.runtime = Some(chosen_runtime);
        builder
    }

    /// Chooses the destination directory.
    pub fn set_chosen_dir(self, chosen_directory: String) -> (builder: ProjectBuilder)
        ensures
            builder@ == (Draft { chosen_directory: Some(chosen_directory@), ..self@ }),
    {
        let mut builder = self;
        builder.chosen_directory = Some(chosen_directory);
        builder
    }

    /// Chooses the features.
    pub fn set_feature_set(self, chosen_feature_set: ChosenFeatures) -> (builder: ProjectBuilder)
        ensures
            builder@ == (Draft { feature_set: Some(chosen_feature_set@), ..self@ }),
    {
        let mut builder = self;
        builder.feature_set = Some(chosen_feature_set);
        builder
    }

    /// Chooses the modularity.
    pub fn set_modularity(self, modularity: Modularity) -> (builder: ProjectBuilder)
        ensures
            builder@ == (Draft { modularity: Some(modularity), ..self@ }),
    {
        let mut builder = self;
        builder.modularity = Some(modularity);
        builder
    }

    /// The choices, if all four were made; else the first that is missing.
    pub fn build(self) -> (built: Result<ProjectChoices, MissingField>)
        ensures
            match self@.first_missing() {
                Some(field) => built == Err::<ProjectChoices, MissingField>(field),
                None => built matches Ok(choices) && choices@ == self@.complete(),
            },
    {
        let runtime = match self.runtime {
            Some(runtime) => runtime,
            None => { return Err(MissingField::Runtime); },
        };
        let chosen_directory = match self.chosen_directory {
            Some(chosen_directory) => chosen_directory,
            None => { return Err(MissingField::ChosenDirectory); },
        };
        let feature_set = match self.feature_set {
            Some(feature_set) => feature_set,
            None => { return Err(MissingField::FeatureSet); },
        };
        let modularity = match self.modularity {
            Some(modularity) => modularity,
            None => { return Err(MissingField::Modularity); },
        };
        Ok(ProjectChoices { runtime, chosen_directory, feature_set, modularity })
    }
}

} // verus!
