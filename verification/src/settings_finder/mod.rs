//! The shared settings file and this tool's record in it.
//!
//! The file is a JSON object that other tools may use too. This tool owns
//! one member of it and leaves the others as they are. The functions here
//! take the text of the file, where there is one, and say what is to become
//! of it; they read and write no file themselves.

use vstd::prelude::*;
use serde_json::Value;
use crate::actions::{push_action, steps, FileAction, Plan, Step};
use crate::models::{Choices, ProjectChoices};

pub mod json;
pub mod record;

use crate::text::{concat3, contains_text, occurs_at};
use json::{
    drop_member, empty_object, is_null, member, member_count, member_of, members_of, null, parse,
    parsed, render, rendered, set_member,
};
use record::{decode, decoded, encode, encodes, lemma_record_round_trip};

verus! {

/// The name of the settings file, in the working directory.
pub const FILE_NAME: &'static str = "copy-paste.json";

/// The member of the settings file that this tool owns.
pub const SETTINGS_KEY: &'static str = "crabSafe";

/// Why the settings could not be read or changed.
#[derive(Debug, Clone, Copy, PartialEq, Eq, Structural)]
pub enum SettingsError {
    /// There is no settings file where one is needed.
    Missing,
    /// The settings file is not JSON.
    Malformed,
    /// The settings file is JSON, but not an object.
    NotAnObject,
    /// The settings file has this tool's member, but it is no record of
    /// choices.
    InvalidSettings,
}

impl SettingsError {
    /// What to tell the user. For a record that is none, the message names
    /// the member and the file.
    pub open spec fn description(self) -> Seq<char> {
        match self {
            SettingsError::Missing => "File "@ + FILE_NAME@ + " doesn't exist"@,
            SettingsError::Malformed => FILE_NAME@ + " is not valid JSON"@,
            SettingsError::NotAnObject => FILE_NAME@ + " does not hold a JSON object"@,
            SettingsError::InvalidSettings => "A key of "@ + SETTINGS_KEY@ + " was found in "@
                + FILE_NAME@
                + ", but it contained invalid configuration settings. Please delete the key-value pair if you want to import this library from this tool"@,
        }
    }

    /// What to tell the user.
    pub fn message(&self) -> (text: String)
        ensures
            text@ == self.description(),
    {
        match self {
            SettingsError::Missing => concat3("File ", FILE_NAME, " doesn't exist"),
            SettingsError::Malformed => {
                let text = concat3(FILE_NAME, " is not valid JSON", "");
                proof {
                    reveal_strlit("");
                    assert(text@ =~= self.description());
                }
                text
            },
            SettingsError::NotAnObject => {
                let text = concat3(FILE_NAME, " does not hold a JSON object", "");
                proof {
                    reveal_strlit("");
                    assert(text@ =~= self.description());
                }
                text
            },
            SettingsError::InvalidSettings => {
                let head = concat3("A key of ", SETTINGS_KEY, " was found in ");
                concat3(
                    head.as_str(),
                    FILE_NAME,
                    ", but it contained invalid configuration settings. Please delete the key-value pair if you want to import this library from this tool",
                )
            },
        }
    }
}

/// The characters of the text, where there is one.
pub open spec fn text_view(contents: Option<&str>) -> Option<Seq<char>> {
    match contents {
        Some(text) => Some(text@),
        None => None,
    }
}

/// What a read of the settings yields.
pub open spec fn outcome_view(
    outcome: Result<Option<ProjectChoices>, SettingsError>,
) -> Result<Option<Choices>, SettingsError> {
    match outcome {
        Ok(Some(choices)) => Ok(Some(choices@)),
        Ok(None) => Ok(None),
        Err(error) => Err(error),
    }
}

/// What the document `doc` says of earlier choices: nothing, where it has
/// no member of this tool; the choices that the member records; or that the
/// member is no record.
pub open spec fn loaded(doc: Value) -> Result<Option<Choices>, SettingsError> {
    match member_of(doc, SETTINGS_KEY@) {
        None => Ok(None),
        Some(record) => match decoded(record) {
            Some(choices) => Ok(Some(choices)),
            None => Err(SettingsError::InvalidSettings),
        },
    }
}

/// What the settings file says of earlier choices, `contents` being its
/// text, or nothing where there is no file.
pub open spec fn found(contents: Option<Seq<char>>) -> Result<Option<Choices>, SettingsError> {
    match contents {
        None => Ok(None),
        Some(text) => match parsed(text) {
            None => Err(SettingsError::Malformed),
            Some(doc) => loaded(doc),
        },
    }
}

/// The members that a document has before a record is stored in it: its
/// own, or none where it is `null`. Any other document takes no record.
pub open spec fn base_members(doc: Value) -> Option<Map<Seq<char>, Value>> {
    match members_of(doc) {
        Some(members) => Some(members),
        None => if is_null(doc) {
            Some(Map::empty())
        } else {
            None
        },
    }
}

/// Whether `after` is what becomes of an object with the members `before`
/// when the record of `choices` is stored in it: the record stands under
/// this tool's key, and every other member is as it was.
pub open spec fn stored(before: Map<Seq<char>, Value>, after: Value, choices: Choices) -> bool {
    &&& members_of(after) matches Some(members)
    &&& members.contains_key(SETTINGS_KEY@)
    &&& encodes(members[SETTINGS_KEY@], choices)
    &&& members.remove(SETTINGS_KEY@) =~= before.remove(SETTINGS_KEY@)
}

/// The members that a save starts from, `contents` being the text of the
/// settings file, or nothing where there is no file.
pub open spec fn start_of(contents: Option<Seq<char>>) -> Result<
    Map<Seq<char>, Value>,
    SettingsError,
> {
    match contents {
        None => Ok(Map::empty()),
        Some(text) => match parsed(text) {
            None => Err(SettingsError::Malformed),
            Some(doc) => match base_members(doc) {
                Some(members) => Ok(members),
                None => Err(SettingsError::NotAnObject),
            },
        },
    }
}

/// Whether `text` is the settings file's new text once `choices` are saved.
pub open spec fn saves(choices: Choices, contents: Option<Seq<char>>, text: Seq<char>) -> bool {
    &&& start_of(contents) matches Ok(before)
    &&& exists|after: Value| #[trigger] stored(before, after, choices) && text == rendered(after)
}

/// The members that stay once this tool's record is removed, `contents`
/// being the text of the settings file.
pub open spec fn rest_of(contents: Option<Seq<char>>) -> Result<
    Map<Seq<char>, Value>,
    SettingsError,
> {
    match contents {
        None => Err(SettingsError::Missing),
        Some(text) => match parsed(text) {
            None => Err(SettingsError::Malformed),
            Some(doc) => match members_of(doc) {
                Some(members) => Ok(members.remove(SETTINGS_KEY@)),
                None => Err(SettingsError::NotAnObject),
            },
        },
    }
}

/// What the document `doc` says of earlier choices.
pub fn load(doc: &Value) -> (outcome: Result<Option<ProjectChoices>, SettingsError>)
    ensures
        outcome_view(outcome) == loaded(*doc),
{
    match member(doc, SETTINGS_KEY) {
        None => Ok(None),
        Some(record) => match decode(record) {
            Some(choices) => Ok(Some(choices)),
            None => Err(SettingsError::InvalidSettings),
        },
    }
}

/// What the settings file says of earlier choices, `contents` being its
/// text, or nothing where there is no file.
pub fn find_settings(contents: Option<&str>) -> (outcome: Result<
    Option<ProjectChoices>,
    SettingsError,
>)
    ensures
        outcome_view(outcome) == found(text_view(contents)),
{
    match contents {
        None => Ok(None),
        Some(text) => match parse(text) {
            Err(_) => Err(SettingsError::Malformed),
            Ok(doc) => load(&doc),
        },
    }
}

/// The document `doc` with the record of `choices` stored in it.
pub fn store(doc: Value, choices: &ProjectChoices) -> (outcome: Result<Value, SettingsError>)
    ensures
        match base_members(doc) {
            Some(before) => outcome matches Ok(after) && stored(before, after, choices@),
            None => outcome matches Err(error) && error == SettingsError::NotAnObject,
        },
{
    let mut doc = doc;
    if member_count(&doc).is_none() {
        if null(&doc) {
            doc = empty_object();
        } else {
            return Err(SettingsError::NotAnObject);
        }
    }
    set_member(&mut doc, SETTINGS_KEY, encode(choices));
    Ok(doc)
}

/// The settings file's new text once `choices` are saved, `contents` being
/// its text so far, or nothing where there is no file yet. The save fails
/// only where there is a file that is not JSON, or that is JSON but neither
/// an object nor `null`.
pub fn save_settings(choices: &ProjectChoices, contents: Option<&str>) -> (outcome: Result<
    String,
    SettingsError,
>)
    ensures
        match start_of(text_view(contents)) {
            Ok(_) => outcome matches Ok(text) && saves(choices@, text_view(contents), text@),
            Err(cause) => outcome matches Err(error) && error == cause,
        },
{
    let doc = match contents {
        None => empty_object(),
        Some(text) => match parse(text) {
            Err(_) => { return Err(SettingsError::Malformed); },
            Ok(doc) => doc,
        },
    };
    let doc = match store(doc, choices) {
        Ok(doc) => doc,
        Err(error) => { return Err(error); },
    };
    assert(stored(start_of(text_view(contents))->Ok_0, doc, choices@));
    Ok(render(&doc).unwrap())
}

/// The document `doc` without this tool's record, or nothing where no
/// member is left.
pub fn without_record(doc: Value) -> (outcome: Result<Option<Value>, SettingsError>)
    ensures
        match members_of(doc) {
            None => outcome matches Err(error) && error == SettingsError::NotAnObject,
            Some(members) => match outcome {
                Ok(None) => members.remove(SETTINGS_KEY@) =~= Map::<Seq<char>, Value>::empty(),
                Ok(Some(rest)) => members_of(rest) == Some(members.remove(SETTINGS_KEY@))
                    && members.remove(SETTINGS_KEY@) != Map::<Seq<char>, Value>::empty(),
                Err(_) => false,
            },
        },
{
    let mut doc = doc;
    if member_count(&doc).is_none() {
        return Err(SettingsError::NotAnObject);
    }
    drop_member(&mut doc, SETTINGS_KEY);
    match member_count(&doc) {
        Some(0) => {
            let ghost rest = members_of(doc)->0;
            assert(rest.dom() =~= Set::<Seq<char>>::empty()) by {
                rest.dom().lemma_len0_is_empty();
            }
            assert(rest =~= Map::<Seq<char>, Value>::empty());
            Ok(None)
        },
        _ => Ok(Some(doc)),
    }
}

/// The operations that remove the generated code and this tool's record,
/// `contents` being the text of the settings file. The code is removed
/// first, whether or not it is still there. Then the record goes: the
/// settings file is removed where it holds nothing else, and written anew
/// without the record where it does.
pub fn remove_completely(choices: &ProjectChoices, contents: Option<&str>) -> (plan: Plan)
    ensures
        match rest_of(text_view(contents)) {
            Err(error) => plan.failure == Some(error) && steps(plan.actions@) == seq![
                choices@.discard_step(),
            ],
            Ok(rest) => if rest =~= Map::<Seq<char>, Value>::empty() {
                plan.failure is None && steps(plan.actions@) == seq![
                    choices@.discard_step(),
                    Step::RemoveFile { path: FILE_NAME@ },
                ]
            } else {
                plan.failure is None && exists|doc: Value| #[trigger]
                    members_of(doc) == Some(rest) && steps(plan.actions@) == seq![
                        choices@.discard_step(),
                        Step::WriteFile { path: FILE_NAME@, contents: rendered(doc) },
                    ]
            },
        },
{
    let mut actions: Vec<FileAction> = Vec::new();
    assert(steps(actions@) =~= Seq::<Step>::empty());
    push_action(&mut actions, choices.discard_action());
    assert(steps(actions@) =~= seq![choices@.discard_step()]);
    let text = match contents {
        Some(text) => text,
        None => { return Plan { actions, failure: Some(SettingsError::Missing) }; },
    };
    let doc = match parse(text) {
        Ok(doc) => doc,
        Err(_) => { return Plan { actions, failure: Some(SettingsError::Malformed) }; },
    };
    match without_record(doc) {
        Err(error) => Plan { actions, failure: Some(error) },
        Ok(None) => {
            push_action(&mut actions, FileAction::RemoveFile { path: FILE_NAME.to_owned() });
            assert(steps(actions@) =~= seq![
                choices@.discard_step(),
                Step::RemoveFile { path: FILE_NAME@ },
            ]);
            Plan { actions, failure: None }
        },
        Ok(Some(rest)) => {
            let text = render(&rest).unwrap();
            push_action(
                &mut actions,
                FileAction::WriteFile { path: FILE_NAME.to_owned(), contents: text },
            );
            assert(steps(actions@) =~= seq![
                choices@.discard_step(),
                Step::WriteFile { path: FILE_NAME@, contents: rendered(rest) },
            ]);
            Plan { actions, failure: None }
        },
    }
}

/// The message for a record that is none names this tool's member and the
/// settings file.
pub proof fn lemma_invalid_settings_names_key_and_file()
    ensures
        contains_text(SettingsError::InvalidSettings.description(), SETTINGS_KEY@),
        contains_text(SettingsError::InvalidSettings.description(), FILE_NAME@),
{
    let message = SettingsError::InvalidSettings.description();
    let before_key = "A key of "@;
    let before_file = before_key + SETTINGS_KEY@ + " was found in "@;
    let key_at = before_key.len() as int;
    let file_at = before_file.len() as int;
    assert(message.subrange(key_at, key_at + SETTINGS_KEY@.len()) =~= SETTINGS_KEY@);
    assert(occurs_at(message, SETTINGS_KEY@, key_at));
    assert(message.subrange(file_at, file_at + FILE_NAME@.len()) =~= FILE_NAME@);
    assert(occurs_at(message, FILE_NAME@, file_at));
}

/// Choices that were saved are the choices that are found afterwards.
pub proof fn lemma_saved_choices_are_found(
    before: Map<Seq<char>, Value>,
    after: Value,
    choices: Choices,
)
    requires
        stored(before, after, choices),
    ensures
        loaded(after) == Ok::<Option<Choices>, SettingsError>(Some(choices)),
{
    lemma_record_round_trip(members_of(after)->0[SETTINGS_KEY@], choices);
}

/// Saving leaves every member of the settings file but this tool's own as
/// it was, and adds none.
pub proof fn lemma_saving_keeps_other_members(
    before: Map<Seq<char>, Value>,
    after: Value,
    choices: Choices,
    key: Seq<char>,
)
    requires
        stored(before, after, choices),
        key != SETTINGS_KEY@,
    ensures
        member_of(after, key) == if before.contains_key(key) {
            Some(before[key])
        } else {
            None
        },
{
    let members = members_of(after)->0;
    assert(members.remove(SETTINGS_KEY@).contains_key(key) == before.remove(
        SETTINGS_KEY@,
    ).contains_key(key));
    if before.contains_key(key) {
        assert(members.remove(SETTINGS_KEY@)[key] == before.remove(SETTINGS_KEY@)[key]);
    }
}

/// Removing the record after a save gives back the members that were there
/// before the save, where this tool had no record among them.
pub proof fn lemma_removing_undoes_saving(
    before: Map<Seq<char>, Value>,
    after: Value,
    choices: Choices,
)
    requires
        stored(before, after, choices),
        !before.contains_key(SETTINGS_KEY@),
    ensures
        members_of(after)->0.remove(SETTINGS_KEY@) == before,
{
    assert(before.remove(SETTINGS_KEY@) =~= before);
}

} // verus!
