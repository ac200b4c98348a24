//! What a project chose.

use vstd::prelude::*;

use crate::text::{chars_of, same_text};

pub mod chosen_features;
pub mod feature;
pub mod feature_set;
pub mod project_builder;
pub mod project_choices;

pub use chosen_features::{ChosenFeatures, Selection};
pub use feature::Feature;
pub use feature_set::FeatureSet;
pub use project_builder::{Draft, MissingField, ProjectBuilder};
pub use project_choices::{parse_path, Choices, ProjectChoices};

verus! {

/// Where the generated code will run.
#[derive(Debug, Clone, Copy, PartialEq, Eq, Structural)]
pub enum Runtime {
    Deno,
    NodeJs,
    ClientSide,
}

/// Whether the modules go into one merged file or into one file each.
#[derive(Debug, Clone, Copy, PartialEq, Eq, Structural)]
pub enum Modularity {
    SingleFile,
    SplitFiles,
}

impl Runtime {
    /// The name this runtime is known by.
    pub open spec fn name(self) -> Seq<char> {
        match self {
            Runtime::Deno => "Deno"@,
            Runtime::NodeJs => "NodeJs"@,
            Runtime::ClientSide => "ClientSide"@,
        }
    }

    /// The runtime known by `name`, if there is one.
    pub open spec fn named(name: Seq<char>) -> Option<Runtime> {
        if name == "Deno"@ {
            Some(Runtime::Deno)
        } else if name == "NodeJs"@ {
            Some(Runtime::NodeJs)
        } else if name == "ClientSide"@ {
            Some(Runtime::ClientSide)
        } else {
            None
        }
    }

    /// The name this runtime is known by.
    pub fn get_name(&self) -> (name: &'static str)
        ensures
            name@ == self.name(),
    {
        match self {
            Runtime::Deno => "Deno",
            Runtime::NodeJs => "NodeJs",
            Runtime::ClientSide => "ClientSide",
        }
    }

    /// The runtime known by `name`, if there is one.
    pub fn from_name(name: &str) -> (runtime: Option<Runtime>)
        ensures
            runtime == Runtime::named(name@),
    {
        let name = chars_of(name);
        if same_text(&name, &chars_of("Deno")) {
            Some(Runtime::Deno)
        } else if same_text(&name, &chars_of("NodeJs")) {
            Some(Runtime::NodeJs)
        } else if same_text(&name, &chars_of("ClientSide")) {
            Some(Runtime::ClientSide)
        } else {
            None
        }
    }
}

impl Modularity {
    /// The name this modularity is known by.
    pub open spec fn name(self) -> Seq<char> {
        match self {
            Modularity::SingleFile => "SingleFile"@,
            Modularity::SplitFiles => "SplitFiles"@,
        }
    }

    /// The modularity known by `name`, if there is one.
    pub open spec fn named(name: Seq<char>) -> Option<Modularity> {
        if name == "SingleFile"@ {
            Some(Modularity::SingleFile)
        } else if name == "SplitFiles"@ {
            Some(Modularity::SplitFiles)
        } else {
            None
        }
    }

    /// The name this modularity is known by.
    pub fn get_name(&self) -> (name: &'static str)
        ensures
            name@ == self.name(),
    {
        match self {
            Modularity::SingleFile => "SingleFile",
            Modularity::SplitFiles => "SplitFiles",
        }
    }

    /// The modularity known by `name`, if there is one.
    pub fn from_name(name: &str) -> (modularity: Option<Modularity>)
        ensures
            modularity == Modularity::named(name@),
    {
        let name = chars_of(name);
        if same_text(&name, &chars_of("SingleFile")) {
            Some(Modularity::SingleFile)
        } else if same_text(&name, &chars_of("SplitFiles")) {
            Some(Modularity::SplitFiles)
        } else {
            None
        }
    }
}

} // verus!
