//! Changing what an earlier run chose: more features, or fewer.

use vstd::prelude::*;
use crate::actions::{push_action, steps, FileAction, Plan, Step};
use crate::models::feature::{copy_features, has_feature, lemma_filter_keeps_distinct};
use crate::models::{Choices, ChosenFeatures, Feature, Modularity, ProjectChoices, Selection};
use crate::settings_finder::{saves, start_of, text_view, FILE_NAME};

verus! {

/// `current`, and after it the features of `more` that are not yet there,
/// each once and in their order.
pub open spec fn with_added(current: Seq<Feature>, more: Seq<Feature>) -> Seq<Feature>
    decreases more.len(),
{
    if more.len() == 0 {
        current
    } else {
        let so_far = with_added(current, more.drop_last());
        if so_far.contains(more.last()) {
            so_far
        } else {
            so_far.push(more.last())
        }
    }
}

/// The test for features that are not among `gone`.
pub open spec fn staying(gone: Seq<Feature>) -> spec_fn(Feature) -> bool {
    |feature: Feature| !gone.contains(feature)
}

/// `current` without the features of `gone`, in its order.
pub open spec fn with_removed(current: Seq<Feature>, gone: Seq<Feature>) -> Seq<Feature> {
    current.filter(staying(gone))
}

/// `choices` with `features` as the list picked by hand.
pub open spec fn with_features(choices: Choices, features: Seq<Feature>) -> Choices {
    Choices { feature_set: Selection::Custom { features }, ..choices }
}

/// The operations that empty the directory `path`: it is removed with all
/// it holds, and made anew.
pub open spec fn recreate_steps(path: Seq<char>) -> Seq<Step> {
    seq![Step::RemoveDirAll { path }, Step::CreateDir { path }]
}

/// The operations that go before the generated code is written again with
/// fewer features: the directory of one file per feature is removed with
/// all it holds, so that no file of a feature that went stays behind, and
/// nothing beside that directory is touched; a merged file is simply
/// written over.
pub open spec fn purge_steps(choices: Choices) -> Seq<Step> {
    match choices.modularity {
        Modularity::SplitFiles => seq![Step::RemoveDirAll { path: choices.split_directory_path() }],
        Modularity::SingleFile => Seq::<Step>::empty(),
    }
}

/// Whether `plan` first performs `before` and then brings the code of
/// `choices` into being and saves them, `contents` being the text of the
/// settings file. Where the settings file is out of order, the plan still
/// holds the operations up to the save, and names the failure.
pub open spec fn rewrites(
    plan: Plan,
    before: Seq<Step>,
    choices: Choices,
    contents: Option<Seq<char>>,
) -> bool {
    match start_of(contents) {
        Ok(_) => plan.failure is None && exists|text: Seq<char>| #[trigger]
            saves(choices, contents, text) && steps(plan.actions@) == (before
                + choices.artifact_steps()).push(
                Step::WriteFile { path: FILE_NAME@, contents: text },
            ),
        Err(cause) => plan.failure == Some(cause) && steps(plan.actions@) == before
            + choices.artifact_steps(),
    }
}

/// Adding features brings in no feature twice, and keeps what was chosen
/// at the front.
pub proof fn lemma_adding_keeps_distinct(current: Seq<Feature>, more: Seq<Feature>)
    requires
        current.no_duplicates(),
    ensures
        with_added(current, more).no_duplicates(),
        current.is_prefix_of(with_added(current, more)),
        forall|feature: Feature|
            with_added(current, more).contains(feature) <==> current.contains(feature)
                || more.contains(feature),
    decreases more.len(),
{
    let all = with_added(current, more);
    if more.len() > 0 {
        let front = more.drop_last();
        let so_far = with_added(current, front);
        lemma_adding_keeps_distinct(current, front);
        assert forall|feature: Feature| all.contains(feature) <==> current.contains(feature)
            || more.contains(feature) by {
            if all.contains(feature) {
                let i = choose|i: int| 0 <= i < all.len() && all[i] == feature;
                if i < so_far.len() {
                    assert(so_far[i] == feature);
                    if !current.contains(feature) {
                        let j = choose|j: int| 0 <= j < front.len() && front[j] == feature;
                        assert(more[j] == feature);
                    }
                } else {
                    assert(more[more.len() - 1] == feature);
                }
            }
            if current.contains(feature) {
                assert(so_far.contains(feature));
                let i = choose|i: int| 0 <= i < so_far.len() && so_far[i] == feature;
                assert(all[i] == feature);
            }
            if more.contains(feature) {
                let j = choose|j: int| 0 <= j < more.len() && more[j] == feature;
                if j < front.len() {
                    assert(front[j] == feature);
                    let i = choose|i: int| 0 <= i < so_far.len() && so_far[i] == feature;
                    assert(all[i] == feature);
                } else if so_far.contains(feature) {
                    let i = choose|i: int| 0 <= i < so_far.len() && so_far[i] == feature;
                    assert(all[i] == feature);
                } else {
                    assert(all[all.len() - 1] == feature);
                }
            }
        }
    }
}

/// Taking features away leaves none of them, keeps every other, and brings
/// in no feature twice.
pub proof fn lemma_removing_keeps_distinct(current: Seq<Feature>, gone: Seq<Feature>)
    requires
        current.no_duplicates(),
    ensures
        with_removed(current, gone).no_duplicates(),
        forall|feature: Feature|
            with_removed(current, gone).contains(feature) <==> current.contains(feature)
                && !gone.contains(feature),
{
    let rest = with_removed(current, gone);
    lemma_filter_keeps_distinct(current, staying(gone));
    assert forall|feature: Feature| rest.contains(feature) <==> current.contains(feature)
        && !gone.contains(feature) by {
        if rest.contains(feature) {
            let i = choose|i: int| 0 <= i < rest.len() && rest[i] == feature;
            current.lemma_filter_pred(staying(gone), i);
            current.lemma_filter_contains_rev(staying(gone), feature);
        }
        if current.contains(feature) && !gone.contains(feature) {
            let i = choose|i: int| 0 <= i < current.len() && current[i] == feature;
            current.lemma_filter_contains(staying(gone), i);
        }
    }
}

/// Changed choices and the operations that make the files agree with them.
#[derive(Debug, Clone, PartialEq)]
pub struct Update {
    pub choices: ProjectChoices,
    pub plan: Plan,
}

/// What taking features away leads to.
#[derive(Debug, Clone, PartialEq)]
pub enum Removal {
    /// No feature would be left. Nothing is to be written: the caller
    /// decides whether to remove the generated code altogether or to leave
    /// everything as it is.
    NothingLeft,
    /// Some features are left: the changed choices and the operations that
    /// make the files agree with them.
    Rewrite(Update),
}

/// The operations that empty the directory `path`.
pub fn recreate(path: &str) -> (actions: Vec<FileAction>)
    ensures
        steps(actions@) == recreate_steps(path@),
{
    let mut actions: Vec<FileAction> = Vec::new();
    assert(steps(actions@) =~= Seq::<Step>::empty());
    push_action(&mut actions, FileAction::RemoveDirAll { path: path.to_owned() });
    push_action(&mut actions, FileAction::CreateDir { path: path.to_owned() });
    assert(steps(actions@) =~= recreate_steps(path@));
    actions
}

/// `current`, and after it the features of `more` that are not yet there.
pub fn union_of(current: &Vec<Feature>, more: &Vec<Feature>) -> (all: Vec<Feature>)
    ensures
        all@ == with_added(current@, more@),
{
    let mut all = copy_features(current);
    let mut i: usize = 0;
    assert(more@.take(0) =~= Seq::<Feature>::empty());
    while i < more.len()
        invariant
            i <= more.len(),
            all@ == with_added(current@, more@.take(i as int)),
        decreases more.len() - i,
    {
        let feature = more[i];
        assert(more@.take(i + 1).drop_last() =~= more@.take(i as int));
        if !has_feature(&all, feature) {
            all.push(feature);
        }
        i += 1;
    }
    assert(more@.take(more.len() as int) =~= more@);
    all
}

/// `current` without the features of `gone`.
pub fn difference_of(current: &Vec<Feature>, gone: &Vec<Feature>) -> (rest: Vec<Feature>)
    ensures
        rest@ == with_removed(current@, gone@),
{
    let mut rest: Vec<Feature> = Vec::new();
    let mut i: usize = 0;
    assert(current@.take(0).filter(staying(gone@)) =~= Seq::<Feature>::empty()) by {
        reveal(Seq::filter);
    }
    while i < current.len()
        invariant
            i <= current.len(),
            rest@ == current@.take(i as int).filter(staying(gone@)),
        decreases current.len() - i,
    {
        let feature = current[i];
        proof {
            assert(current@.take(i + 1) =~= current@.take(i as int).push(feature));
            current@.take(i as int).lemma_filter_push(feature, staying(gone@));
        }
        if !has_feature(gone, feature) {
            rest.push(feature);
        }
        i += 1;
    }
    assert(current@.take(current.len() as int) =~= current@);
    rest
}

/// `choices` with `features` as the list picked by hand.
fn choices_with(choices: &ProjectChoices, features: Vec<Feature>) -> (changed: ProjectChoices)
    ensures
        changed@ == with_features(choices@, features@),
{
    ProjectChoices {
        runtime: choices.runtime,
        chosen_directory: choices.chosen_directory.clone(),
        feature_set: ChosenFeatures::Custom { features },
        modularity: choices.modularity,
    }
}

/// Adds `new_features` to what `choices` holds: the features become the
/// list of those chosen so far and, after them, those of `new_features`
/// that were not yet chosen. The plan writes the code anew and saves the
/// changed choices, `contents` being the text of the settings file.
pub fn add_features(
    choices: &ProjectChoices,
    new_features: &Vec<Feature>,
    contents: Option<&str>,
) -> (update: Update)
    ensures
        update.choices@ == with_features(
            choices@,
            with_added(choices@.feature_set.resolved(), new_features@),
        ),
        rewrites(update.plan, Seq::<Step>::empty(), update.choices@, text_view(contents)),
{
    let features = union_of(&choices.feature_set.get_feature_list(), new_features);
    let changed = choices_with(choices, features);
    let plan = changed.handle(contents);
    assert(Seq::<Step>::empty() + changed@.artifact_steps() =~= changed@.artifact_steps());
    Update { choices: changed, plan }
}

/// Takes the features `to_remove` away from what `choices` holds. Where
/// none is left, nothing is planned. Where some are left, they become the
/// list picked by hand, and the plan writes the code anew and saves the
/// changed choices, `contents` being the text of the settings file. For one
/// file per feature the directory of those files is emptied first, and
/// nothing else in the destination is touched.
pub fn remove_features(
    choices: &ProjectChoices,
    to_remove: &Vec<Feature>,
    contents: Option<&str>,
) -> (removal: Removal)
    ensures
        match removal {
            Removal::NothingLeft => with_removed(choices@.feature_set.resolved(), to_remove@).len()
                == 0,
            Removal::Rewrite(update) => {
                &&& with_removed(choices@.feature_set.resolved(), to_remove@).len() > 0
                &&& update.choices@ == with_features(
                    choices@,
                    with_removed(choices@.feature_set.resolved(), to_remove@),
                )
                &&& rewrites(
                    update.plan,
                    purge_steps(choices@),
                    update.choices@,
                    text_view(contents),
                )
            },
        },
{
    let features = difference_of(&choices.feature_set.get_feature_list(), to_remove);
    if features.len() == 0 {
        return Removal::NothingLeft;
    }
    let changed = choices_with(choices, features);
    let plan = changed.handle(contents);
    let failure = plan.failure;
    let mut written = plan.actions;
    let ghost planned = steps(written@);
    let mut actions: Vec<FileAction> = Vec::new();
    assert(steps(actions@) =~= Seq::<Step>::empty());
    match choices.modularity {
        Modularity::SplitFiles => {
            actions = recreate(changed.split_directory().as_str());
            proof {
                let code = changed@.artifact_steps();
                assert(code[0] == Step::CreateDir { path: changed@.split_directory_path() });
                assert(planned.len() == written@.len());
                assert(planned.len() >= code.len());
                assert(planned[0] == code[0]);
            }
            written.remove(0);
            assert(steps(written@) =~= planned.drop_first());
            assert(steps(actions@) + steps(written@) =~= purge_steps(choices@) + planned);
        },
        Modularity::SingleFile => {
            assert(steps(actions@) + steps(written@) =~= purge_steps(choices@) + planned);
        },
    }
    proof {
        assert(steps(actions@ + written@) =~= steps(actions@) + steps(written@));
        if failure is None {
            let text = choose|text: Seq<char>| #[trigger]
                saves(changed@, text_view(contents), text) && planned
                    == changed@.artifact_steps().push(
                    Step::WriteFile { path: FILE_NAME@, contents: text },
                );
            assert(purge_steps(choices@) + planned =~= (purge_steps(choices@)
                + changed@.artifact_steps()).push(
                Step::WriteFile { path: FILE_NAME@, contents: text },
            ));
        }
    }
    actions.append(&mut written);
    let plan = Plan { actions, failure };
    Removal::Rewrite(Update { choices: changed, plan })
}

} // verus!
