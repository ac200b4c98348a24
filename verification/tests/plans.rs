use copy_crab::actions::{FileAction, Plan};
use copy_crab::merge::merge_files;
use copy_crab::models::{
    ChosenFeatures, Feature, FeatureSet, Modularity, ProjectChoices, Runtime,
};
use copy_crab::modify::{
    add_features, difference_of, recreate, remove_features, union_of, Removal, Update,
};
use copy_crab::settings_finder::{find_settings, save_settings, SettingsError};
use copy_crab::templates;

fn choices(
    runtime: Runtime,
    dir: &str,
    features: Vec<Feature>,
    modularity: Modularity,
) -> ProjectChoices {
    ProjectChoices {
        runtime,
        chosen_directory: dir.to_string(),
        feature_set: ChosenFeatures::Custom { features },
        modularity,
    }
}

fn write(path: &str, contents: &str) -> FileAction {
    FileAction::WriteFile { path: path.to_string(), contents: contents.to_string() }
}

fn import_lines(text: &str) -> Vec<&str> {
    text.split("\n").filter(|line| line.trim().starts_with("import")).collect()
}

#[test]
fn single_file_for_node_leaves_parsers_out() {
    let c = choices(
        Runtime::NodeJs,
        "out",
        vec![Feature::Core, Feature::Parsers],
        Modularity::SingleFile,
    );
    let actions = c.artifact_actions();
    assert_eq!(actions.len(), 1);
    let (path, text) = match &actions[0] {
        FileAction::WriteFile { path, contents } => (path, contents),
        other => panic!("a file is to be written, not {:?}", other),
    };
    assert_eq!(path, "out/crabSafe.ts");
    assert_eq!(text, &merge_files(Runtime::NodeJs, &vec![templates::CORE_FUNCTIONS]));
    assert_eq!(text, templates::CORE_FUNCTIONS.trim());
    assert!(!text.contains("parseToml"));
    assert!(!text.contains("Deno.readTextFile"));
    for line in text.split("\n") {
        if line.trim().starts_with("import") {
            assert!(!line.contains("http"));
            assert!(!line.contains("\"./"));
        }
    }
}

#[test]
fn single_file_never_imports_siblings_and_outside_deno_nothing_remote() {
    for runtime in [Runtime::Deno, Runtime::NodeJs, Runtime::ClientSide] {
        let c = choices(runtime, "out/", Feature::get_all(), Modularity::SingleFile);
        let text = c.gen_single_filedata(
            Feature::get_all().iter().map(|f| f.get_implementation()).collect(),
        );
        for line in import_lines(&text) {
            assert!(!line.contains("\"./"), "{}", line);
            if runtime != Runtime::Deno {
                assert!(!line.contains("http"), "{}", line);
            }
        }
    }
}

#[test]
fn single_file_for_deno_keeps_parsers_and_its_remote_import() {
    let c = choices(
        Runtime::Deno,
        "out/",
        vec![Feature::Core, Feature::Parsers],
        Modularity::SingleFile,
    );
    let actions = c.artifact_actions();
    let expected = merge_files(
        Runtime::Deno,
        &vec![templates::CORE_FUNCTIONS, templates::PARSERS],
    );
    assert_eq!(actions, vec![write("out/crabSafe.ts", &expected)]);
    assert!(expected.starts_with(
        "import { parse } from \"https://deno.land/std/encoding/toml.ts\";\n\n// Shared helpers"
    ));
    assert!(expected.contains("parseToml"));
    assert_eq!(
        import_lines(&expected),
        vec!["import { parse } from \"https://deno.land/std/encoding/toml.ts\";"]
    );
}

#[test]
fn split_files_for_deno_hold_core_and_parsers() {
    let c = choices(
        Runtime::Deno,
        "out/",
        vec![Feature::Core, Feature::Parsers],
        Modularity::SplitFiles,
    );
    assert_eq!(
        c.artifact_actions(),
        vec![
            FileAction::CreateDir { path: "out/crabSafe".to_string() },
            write("out/crabSafe/core.ts", templates::CORE_FUNCTIONS),
            write("out/crabSafe/parsers.ts", templates::PARSERS),
        ]
    );
}

#[test]
fn split_files_keep_parsers_outside_deno_too() {
    let c = choices(
        Runtime::NodeJs,
        "C:\\p",
        vec![Feature::Parsers, Feature::Option],
        Modularity::SplitFiles,
    );
    assert_eq!(
        c.artifact_actions(),
        vec![
            FileAction::CreateDir { path: "C:\\p\\crabSafe".to_string() },
            write("C:\\p\\crabSafe\\parsers.ts", templates::PARSERS),
            write("C:\\p\\crabSafe\\option.ts", templates::OPTION),
        ]
    );
}

#[test]
fn destination_paths_name_what_is_written() {
    let single = choices(Runtime::Deno, "out/", vec![Feature::Core], Modularity::SingleFile);
    assert_eq!(single.destination_paths(), vec!["out/crabSafe.ts".to_string()]);
    let split = ProjectChoices {
        runtime: Runtime::Deno,
        chosen_directory: "out".to_string(),
        feature_set: ChosenFeatures::Preset { preset_name: FeatureSet::CorePlus },
        modularity: Modularity::SplitFiles,
    };
    assert_eq!(
        split.destination_paths(),
        vec![
            "out/crabSafe".to_string(),
            "out/crabSafe/core.ts".to_string(),
            "out/crabSafe/option.ts".to_string(),
            "out/crabSafe/result.ts".to_string(),
        ]
    );
}

#[test]
fn handle_writes_the_settings_last() {
    let c = choices(Runtime::Deno, "out/", vec![Feature::Core], Modularity::SplitFiles);
    let plan = c.handle(Some("{\"other\": 1}"));
    assert_eq!(plan.failure, None);
    let mut expected = c.artifact_actions();
    expected.push(write(
        "copy-paste.json",
        &save_settings(&c, Some("{\"other\": 1}")).unwrap(),
    ));
    assert_eq!(plan.actions, expected);
    match plan.actions.last() {
        Some(FileAction::WriteFile { contents, .. }) => {
            assert_eq!(find_settings(Some(contents)), Ok(Some(c.clone())));
        }
        other => panic!("the settings are to be written last, not {:?}", other),
    }
    assert_eq!(c.handle(None).actions.len(), 3);
}

#[test]
fn handle_plans_the_code_even_where_the_settings_fail() {
    let c = choices(Runtime::Deno, "out/", vec![Feature::Core], Modularity::SingleFile);
    assert_eq!(
        c.handle(Some("{oops")),
        Plan { actions: c.artifact_actions(), failure: Some(SettingsError::Malformed) }
    );
    assert_eq!(
        c.handle(Some("[]")),
        Plan { actions: c.artifact_actions(), failure: Some(SettingsError::NotAnObject) }
    );
}

#[test]
fn duplicate_copies_every_choice() {
    let c = choices(Runtime::ClientSide, "d", vec![Feature::Result], Modularity::SplitFiles);
    assert_eq!(c.duplicate(), c);
}

#[test]
fn recreate_removes_and_makes_anew() {
    assert_eq!(
        recreate("out/dir"),
        vec![
            FileAction::RemoveDirAll { path: "out/dir".to_string() },
            FileAction::CreateDir { path: "out/dir".to_string() },
        ]
    );
}

#[test]
fn union_appends_what_is_new_once() {
    assert_eq!(
        union_of(
            &vec![Feature::Core, Feature::Option],
            &vec![Feature::Option, Feature::Parsers, Feature::Parsers, Feature::Core]
        ),
        vec![Feature::Core, Feature::Option, Feature::Parsers]
    );
    assert_eq!(union_of(&vec![], &vec![]), vec![]);
    assert_eq!(union_of(&vec![Feature::Core], &vec![]), vec![Feature::Core]);
    assert_eq!(
        union_of(&vec![], &vec![Feature::Result, Feature::Core]),
        vec![Feature::Result, Feature::Core]
    );
}

#[test]
fn difference_keeps_the_order_of_what_stays() {
    assert_eq!(
        difference_of(
            &vec![Feature::Parsers, Feature::Core, Feature::Option],
            &vec![Feature::Core, Feature::Example]
        ),
        vec![Feature::Parsers, Feature::Option]
    );
    assert_eq!(difference_of(&vec![Feature::Core], &vec![Feature::Core]), vec![]);
    assert_eq!(difference_of(&vec![Feature::Core], &vec![]), vec![Feature::Core]);
}

#[test]
fn adding_features_makes_a_custom_list_and_writes_anew() {
    let before = ProjectChoices {
        runtime: Runtime::NodeJs,
        chosen_directory: "out/".to_string(),
        feature_set: ChosenFeatures::Preset { preset_name: FeatureSet::CorePlus },
        modularity: Modularity::SingleFile,
    };
    let settings = save_settings(&before, Some("{\"other\": 1}")).unwrap();
    let update = add_features(&before, &vec![Feature::Example, Feature::Core], Some(&settings));
    let after = choices(
        Runtime::NodeJs,
        "out/",
        vec![Feature::Core, Feature::Option, Feature::Result, Feature::Example],
        Modularity::SingleFile,
    );
    assert_eq!(update, Update { choices: after.clone(), plan: after.handle(Some(&settings)) });
    assert_eq!(update.plan.failure, None);
    assert_eq!(update.plan.actions.len(), 2);
}

#[test]
fn adding_what_the_complement_offers_brings_no_feature_twice() {
    let before = choices(
        Runtime::Deno,
        "out",
        vec![Feature::Option, Feature::Core],
        Modularity::SplitFiles,
    );
    let offered = Feature::get_complements(&before.feature_set.get_feature_list());
    let update = add_features(&before, &offered, None);
    let list = update.choices.feature_set.get_feature_list();
    assert_eq!(
        list,
        vec![Feature::Option, Feature::Core, Feature::Example, Feature::Result, Feature::Parsers]
    );
}

#[test]
fn removing_every_feature_plans_nothing() {
    let c = choices(
        Runtime::Deno,
        "out/",
        vec![Feature::Core, Feature::Option],
        Modularity::SplitFiles,
    );
    let all_gone =
        remove_features(&c, &vec![Feature::Option, Feature::Core], Some("{\"crabSafe\": 1}"));
    assert_eq!(all_gone, Removal::NothingLeft);
    let preset = ProjectChoices {
        runtime: Runtime::NodeJs,
        chosen_directory: "out/".to_string(),
        feature_set: ChosenFeatures::Preset { preset_name: FeatureSet::All },
        modularity: Modularity::SingleFile,
    };
    assert_eq!(remove_features(&preset, &Feature::get_all(), None), Removal::NothingLeft);
    let empty = choices(Runtime::Deno, "out/", vec![], Modularity::SingleFile);
    assert_eq!(remove_features(&empty, &vec![], None), Removal::NothingLeft);
}

#[test]
fn removing_from_split_files_empties_their_directory_only() {
    let c = choices(
        Runtime::Deno,
        "out/",
        vec![Feature::Core, Feature::Option, Feature::Parsers],
        Modularity::SplitFiles,
    );
    let after = choices(
        Runtime::Deno,
        "out/",
        vec![Feature::Core, Feature::Parsers],
        Modularity::SplitFiles,
    );
    let mut actions = vec![
        FileAction::RemoveDirAll { path: "out/crabSafe".to_string() },
        FileAction::CreateDir { path: "out/crabSafe".to_string() },
        write("out/crabSafe/core.ts", templates::CORE_FUNCTIONS),
        write("out/crabSafe/parsers.ts", templates::PARSERS),
    ];
    actions.push(write("copy-paste.json", &save_settings(&after, None).unwrap()));
    let removal = remove_features(&c, &vec![Feature::Option], None);
    assert_eq!(
        removal,
        Removal::Rewrite(Update {
            choices: after.clone(),
            plan: Plan { actions: actions.clone(), failure: None }
        })
    );
    assert_eq!(actions[..2], recreate("out/crabSafe")[..]);
    assert_eq!(actions[1..], after.handle(None).actions[..]);
    for action in actions.iter() {
        assert!(action.path() == "copy-paste.json" || action.path().starts_with("out/crabSafe"));
    }
}

#[test]
fn removing_from_split_files_plans_the_code_even_where_the_settings_fail() {
    let c = choices(
        Runtime::NodeJs,
        "proj",
        vec![Feature::Core, Feature::Option],
        Modularity::SplitFiles,
    );
    match remove_features(&c, &vec![Feature::Option], Some("[]")) {
        Removal::Rewrite(update) => {
            assert_eq!(update.plan.failure, Some(SettingsError::NotAnObject));
            assert_eq!(
                update.plan.actions,
                vec![
                    FileAction::RemoveDirAll { path: "proj/crabSafe".to_string() },
                    FileAction::CreateDir { path: "proj/crabSafe".to_string() },
                    write("proj/crabSafe/core.ts", templates::CORE_FUNCTIONS),
                ]
            );
        }
        Removal::NothingLeft => panic!("one feature is left"),
    }
}

#[test]
fn a_directory_without_separator_gets_a_slash() {
    let single = choices(Runtime::Deno, "out", vec![Feature::Core], Modularity::SingleFile);
    assert_eq!(single.destination_paths(), vec!["out/crabSafe.ts".to_string()]);
    assert_eq!(
        single.discard_action(),
        FileAction::DiscardFile { path: "out/crabSafe.ts".to_string() }
    );
    let split = choices(Runtime::Deno, "out", vec![Feature::Core], Modularity::SplitFiles);
    assert_eq!(split.split_directory(), "out/crabSafe");
    assert_eq!(
        split.discard_action(),
        FileAction::DiscardDir { path: "out/crabSafe/".to_string() }
    );
    let windows = choices(Runtime::Deno, "C:\\p", vec![Feature::Core], Modularity::SplitFiles);
    assert_eq!(windows.split_directory(), "C:\\p\\crabSafe");
}

#[test]
fn plans_name_no_failure_where_the_settings_are_in_order() {
    for modularity in [Modularity::SingleFile, Modularity::SplitFiles] {
        for runtime in [Runtime::Deno, Runtime::NodeJs, Runtime::ClientSide] {
            let c = choices(runtime, "out/", vec![Feature::Core, Feature::Parsers], modularity);
            for contents in [None, Some("{}"), Some("null"), Some("{\"other\": 1}")] {
                assert_eq!(c.handle(contents).failure, None);
                assert!(save_settings(&c, contents).is_ok());
                let added = add_features(&c, &vec![Feature::Option], contents);
                assert_eq!(added.plan.failure, None);
            }
        }
    }
}

#[test]
fn removing_from_a_single_file_writes_over_it() {
    let c = ProjectChoices {
        runtime: Runtime::ClientSide,
        chosen_directory: "out".to_string(),
        feature_set: ChosenFeatures::Preset { preset_name: FeatureSet::CorePlus },
        modularity: Modularity::SingleFile,
    };
    let after = choices(
        Runtime::ClientSide,
        "out",
        vec![Feature::Core, Feature::Result],
        Modularity::SingleFile,
    );
    assert_eq!(
        remove_features(&c, &vec![Feature::Option, Feature::Parsers], Some("{}")),
        Removal::Rewrite(Update { choices: after.clone(), plan: after.handle(Some("{}")) })
    );
    match remove_features(&c, &vec![Feature::Option], Some("nope")) {
        Removal::Rewrite(update) => {
            assert_eq!(update.plan.failure, Some(SettingsError::Malformed));
            assert_eq!(update.plan.actions.len(), 1);
        }
        Removal::NothingLeft => panic!("two features are left"),
    }
}
