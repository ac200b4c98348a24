//! Everything a project chose.

use vstd::prelude::*;
use super::chosen_features::{ChosenFeatures, Selection};
use super::feature::Feature;
use super::{Modularity, Runtime};
use crate::actions::{push_action, steps, FileAction, Plan, Step};
use crate::settings_finder::{save_settings, saves, start_of, text_view, FILE_NAME};
use crate::merge::{merge_files, merged};
use crate::text::{chars_of, concat3, has_char, slices, strings};

verus! {

/// Everything a project chose: the unit that is recorded and materialized.
#[derive(Debug, Clone, PartialEq)]
pub struct ProjectChoices {
    pub runtime: Runtime,
    pub chosen_directory: String,
    pub feature_set: ChosenFeatures,
    pub modularity: Modularity,
}

/// What a `ProjectChoices` stands for.
pub struct Choices {
    pub runtime: Runtime,
    pub chosen_directory: Seq<char>,
    pub feature_set: Selection,
    pub modularity: Modularity,
}

impl View for ProjectChoices {
    type V = Choices;

    open spec fn view(&self) -> Choices {
        Choices {
            runtime: self.runtime,
            chosen_directory: self.chosen_directory@,
            feature_set: self.feature_set@,
            modularity: self.modularity,
        }
    }
}

/// The directory `dir` names, without a separator at its end.
pub open spec fn path_stem(dir: Seq<char>) -> Seq<char> {
    if dir.len() > 0 && (dir.last() == '/' || dir.last() == '\\') {
        dir.drop_last()
    } else {
        dir
    }
}

/// The separator that `dir` is written with: the one at its end; else a
/// slash, unless `dir` holds backslashes and no slash.
pub open spec fn path_separator(dir: Seq<char>) -> Seq<char> {
    if dir.len() > 0 && dir.last() == '/' {
        "/"@
    } else if dir.len() > 0 && dir.last() == '\\' {
        "\\"@
    } else if dir.contains('/') || !dir.contains('\\') {
        "/"@
    } else {
        "\\"@
    }
}

/// `name` directly under the directory `dir`.
pub open spec fn path_under(dir: Seq<char>, name: Seq<char>) -> Seq<char> {
    path_stem(dir) + path_separator(dir) + name
}

/// The texts of the templates of `features`, in their order.
pub open spec fn payloads(features: Seq<Feature>) -> Seq<Seq<char>> {
    features.map_values(|feature: Feature| feature.payload())
}

/// The test for features that work under `runtime`.
pub open spec fn working_under(runtime: Runtime) -> spec_fn(Feature) -> bool {
    |feature: Feature| runtime == Runtime::Deno || !feature.deno_only()
}

/// The operation that writes the template of `feature` into the directory
/// `dir`, whose separator is `separator`.
pub open spec fn template_step(dir: Seq<char>, separator: Seq<char>, feature: Feature) -> Step {
    Step::WriteFile { path: dir + separator + feature.file_name(), contents: feature.payload() }
}

impl Choices {
    /// The features whose templates go into the merged file: those chosen,
    /// without the ones that do not work under the runtime.
    pub open spec fn merged_features(self) -> Seq<Feature> {
        self.feature_set.resolved().filter(working_under(self.runtime))
    }

    /// The path of the merged file.
    pub open spec fn single_file_path(self) -> Seq<char> {
        path_under(self.chosen_directory, "crabSafe.ts"@)
    }

    /// The path of the directory that holds one file per feature.
    pub open spec fn split_directory_path(self) -> Seq<char> {
        path_under(self.chosen_directory, "crabSafe"@)
    }

    /// The text of the merged file.
    pub open spec fn single_file_text(self) -> Seq<char> {
        merged(self.runtime, payloads(self.merged_features()))
    }

    /// The operations that write one file per chosen feature.
    pub open spec fn template_steps(self) -> Seq<Step> {
        self.feature_set.resolved().map_values(
            |feature: Feature|
                template_step(
                    self.split_directory_path(),
                    path_separator(self.chosen_directory),
                    feature,
                ),
        )
    }

    /// The operations that bring the generated code into being: one merged
    /// file, written over what is there; or a new directory and in it one
    /// file per chosen feature.
    pub open spec fn artifact_steps(self) -> Seq<Step> {
        match self.modularity {
            Modularity::SingleFile => seq![
                Step::WriteFile { path: self.single_file_path(), contents: self.single_file_text() },
            ],
            Modularity::SplitFiles => seq![Step::CreateDir { path: self.split_directory_path() }]
                + self.template_steps(),
        }
    }

    /// The paths that the generated code takes up: the merged file; or the
    /// directory and after it the file of each chosen feature.
    pub open spec fn destination_paths(self) -> Seq<Seq<char>> {
        self.artifact_steps().map_values(|step: Step| step.path())
    }

    /// The operation that removes the generated code, whether or not it is
    /// still there.
    pub open spec fn discard_step(self) -> Step {
        match self.modularity {
            Modularity::SingleFile => Step::DiscardFile { path: self.single_file_path() },
            Modularity::SplitFiles => Step::DiscardDir {
                path: self.split_directory_path() + path_separator(self.chosen_directory),
            },
        }
    }
}

/// Outside Deno, no feature that works under Deno only goes into the merged
/// file; under Deno all chosen features do.
pub proof fn lemma_merged_features_work(choices: Choices)
    ensures
        choices.runtime != Runtime::Deno ==> forall|i: int|
            0 <= i < choices.merged_features().len() ==> !(
            #[trigger] choices.merged_features()[i]).deno_only(),
        choices.runtime == Runtime::Deno ==> choices.merged_features()
            == choices.feature_set.resolved(),
{
    let chosen = choices.feature_set.resolved();
    let working = working_under(choices.runtime);
    if choices.runtime != Runtime::Deno {
        assert forall|i: int| 0 <= i < choices.merged_features().len() implies !(
        #[trigger] choices.merged_features()[i]).deno_only() by {
            chosen.lemma_filter_pred(working, i);
        }
    } else {
        lemma_filter_all(chosen, working);
    }
}

/// A test that every element passes keeps the whole sequence.
proof fn lemma_filter_all(all: Seq<Feature>, test: spec_fn(Feature) -> bool)
    requires
        forall|i: int| 0 <= i < all.len() ==> test(#[trigger] all[i]),
    ensures
        all.filter(test) == all,
    decreases all.len(),
{
    reveal(Seq::filter);
    if all.len() > 0 {
        assert forall|i: int| 0 <= i < all.drop_last().len() implies test(
            #[trigger] all.drop_last()[i],
        ) by {
            assert(all.drop_last()[i] == all[i]);
        }
        lemma_filter_all(all.drop_last(), test);
        assert(test(all[all.len() - 1]));
        assert(all.drop_last().push(all.last()) =~= all);
    }
}

/// Parts `chosen_directory` into the directory without a separator at its
/// end, and the separator it is written with.
pub fn parse_path<'a>(chosen_directory: &'a str) -> (parts: (&'a str, &'static str))
    ensures
        parts.0@ == path_stem(chosen_directory@),
        parts.1@ == path_separator(chosen_directory@),
{
    let len = chosen_directory.unicode_len();
    if len > 0 {
        let last = chosen_directory.get_char(len - 1);
        if last == '/' {
            return (chosen_directory.substring_char(0, len - 1), "/");
        }
        if last == '\\' {
            return (chosen_directory.substring_char(0, len - 1), "\\");
        }
    }
    let chars = chars_of(chosen_directory);
    if has_char(&chars, '/') || !has_char(&chars, '\\') {
        (chosen_directory, "/")
    } else {
        (chosen_directory, "\\")
    }
}

impl ProjectChoices {
    /// The text of the file into which the templates `relevant_files` merge
    /// under this runtime.
    pub fn gen_single_filedata(&self, relevant_files: Vec<&str>) -> (text: String)
        ensures
            text@ == merged(self.runtime, slices(relevant_files@)),
    {
        merge_files(self.runtime, &relevant_files)
    }

    /// A copy of these choices.
    pub fn duplicate(&self) -> (copy: ProjectChoices)
        ensures
            copy@ == self@,
    {
        ProjectChoices {
            runtime: self.runtime,
            chosen_directory: self.chosen_directory.clone(),
            feature_set: self.feature_set.duplicate(),
            modularity: self.modularity,
        }
    }

    /// The operations that bring the generated code into being.
    pub fn artifact_actions(&self) -> (actions: Vec<FileAction>)
        ensures
            steps(actions@) == self@.artifact_steps(),
    {
        let features = self.feature_set.get_feature_list();
        let (dir_path, sep) = parse_path(self.chosen_directory.as_str());
        let mut actions: Vec<FileAction> = Vec::new();
        assert(steps(actions@) =~= Seq::<Step>::empty());
        match self.modularity {
            Modularity::SingleFile => {
                let ghost working = working_under(self.runtime);
                let mut relevant_files: Vec<&str> = Vec::new();
                let ghost mut merged_features = Seq::<Feature>::empty();
                let mut i: usize = 0;
                proof {
                    reveal(Seq::filter);
                    assert(features@.take(0).filter(working) =~= merged_features);
                    assert(slices(relevant_files@) =~= payloads(merged_features));
                }
                while i < features.len()
                    invariant
                        i <= features.len(),
                        working == working_under(self.runtime),
                        merged_features == features@.take(i as int).filter(working),
                        slices(relevant_files@) == payloads(merged_features),
                    decreases features.len() - i,
                {
                    let feature = features[i];
                    proof {
                        assert(features@.take(i + 1) =~= features@.take(i as int).push(feature));
                        features@.take(i as int).lemma_filter_push(feature, working);
                    }
                    if self.runtime == Runtime::Deno || !feature.is_deno_only() {
                        let text = feature.get_implementation();
                        proof {
                            assert(slices(relevant_files@.push(text)) =~= slices(
                                relevant_files@,
                            ).push(text@));
                            assert(payloads(merged_features.push(feature)) =~= payloads(
                                merged_features,
                            ).push(feature.payload()));
                            merged_features = merged_features.push(feature);
                        }
                        relevant_files.push(text);
                    }
                    i += 1;
                }
                assert(features@.take(features.len() as int) =~= features@);
                let contents = self.gen_single_filedata(relevant_files);
                let path = concat3(dir_path, sep, "crabSafe.ts");
                push_action(&mut actions, FileAction::WriteFile { path, contents });
                assert(steps(actions@) =~= self@.artifact_steps());
            },
            Modularity::SplitFiles => {
                let fin_dir = concat3(dir_path, sep, "crabSafe");
                push_action(&mut actions, FileAction::CreateDir { path: fin_dir.clone() });
                let mut i: usize = 0;
                assert(self@.template_steps().take(0) =~= Seq::<Step>::empty());
                while i < features.len()
                    invariant
                        i <= features.len(),
                        features@ == self@.feature_set.resolved(),
                        fin_dir@ == self@.split_directory_path(),
                        sep@ == path_separator(self@.chosen_directory),
                        steps(actions@) == seq![
                            Step::CreateDir { path: self@.split_directory_path() },
                        ] + self@.template_steps().take(i as int),
                    decreases features.len() - i,
                {
                    let feature = features[i];
                    let path = concat3(fin_dir.as_str(), sep, feature.get_file_name());
                    let contents = feature.get_implementation().to_owned();
                    proof {
                        let next = template_step(fin_dir@, sep@, feature);
                        assert(self@.template_steps().take(i + 1) =~= self@.template_steps().take(
                            i as int,
                        ).push(next));
                    }
                    push_action(&mut actions, FileAction::WriteFile { path, contents });
                    i += 1;
                }
                assert(self@.template_steps().take(features.len() as int)
                    =~= self@.template_steps());
            },
        }
        actions
    }

    /// The paths that the generated code takes up: the merged file; or the
    /// directory and after it the file of each chosen feature.
    pub fn destination_paths(&self) -> (paths: Vec<String>)
        ensures
            strings(paths@) == self@.destination_paths(),
    {
        let actions = self.artifact_actions();
        let mut paths: Vec<String> = Vec::new();
        let mut i: usize = 0;
        while i < actions.len()
            invariant
                i <= actions.len(),
                steps(actions@) == self@.artifact_steps(),
                strings(paths@) == self@.destination_paths().take(i as int),
            decreases actions.len() - i,
        {
            let path = actions[i].path().clone();
            proof {
                assert(steps(actions@)[i as int] == actions@[i as int]@);
                assert(strings(paths@.push(path)) =~= strings(paths@).push(path@));
                assert(self@.destination_paths().take(i + 1) =~= self@.destination_paths().take(
                    i as int,
                ).push(path@));
            }
            paths.push(path);
            i += 1;
        }
        assert(self@.destination_paths().take(actions.len() as int)
            =~= self@.destination_paths());
        paths
    }

    /// The path of the directory that holds one file per feature.
    pub fn split_directory(&self) -> (path: String)
        ensures
            path@ == self@.split_directory_path(),
    {
        let (dir_path, sep) = parse_path(self.chosen_directory.as_str());
        concat3(dir_path, sep, "crabSafe")
    }

    /// The operations that bring the generated code into being and then
    /// save these choices, `contents` being the text of the settings file,
    /// or nothing where there is no file yet. The settings are written
    /// last. Where the settings file is out of order, the plan still holds
    /// the operations for the code, and names the failure.
    pub fn handle(&self, contents: Option<&str>) -> (plan: Plan)
        ensures
            match start_of(text_view(contents)) {
                Ok(_) => plan.failure is None && exists|text: Seq<char>| #[trigger]
                    saves(self@, text_view(contents), text) && steps(plan.actions@)
                        == self@.artifact_steps().push(
                        Step::WriteFile { path: FILE_NAME@, contents: text },
                    ),
                Err(cause) => plan.failure == Some(cause) && steps(plan.actions@)
                    == self@.artifact_steps(),
            },
    {
        let mut actions = self.artifact_actions();
        match save_settings(self, contents) {
            Ok(text) => {
                let ghost saved = text@;
                push_action(
                    &mut actions,
                    FileAction::WriteFile { path: FILE_NAME.to_owned(), contents: text },
                );
                assert(saves(self@, text_view(contents), saved));
                Plan { actions, failure: None }
            },
            Err(error) => Plan { actions, failure: Some(error) },
        }
    }

    /// The operation that removes the generated code, whether or not it is
    /// still there.
    pub fn discard_action(&self) -> (action: FileAction)
        ensures
            action@ == self@.discard_step(),
    {
        let (dir_path, sep) = parse_path(self.chosen_directory.as_str());
        match self.modularity {
            Modularity::SingleFile => FileAction::DiscardFile {
                path: concat3(dir_path, sep, "crabSafe.ts"),
            },
            Modularity::SplitFiles => {
                let dir = concat3(dir_path, sep, "crabSafe");
                let path = concat3(dir.as_str(), sep, "");
                proof {
                    reveal_strlit("");
                    assert(path@ =~= dir@ + sep@);
                }
                FileAction::DiscardDir { path }
            },
        }
    }
}

} // verus!
