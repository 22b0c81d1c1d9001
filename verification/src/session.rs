//! The orchestrator: what the wrapper does next, decided from where it stands
//! and from what the outside world has just answered. The caller performs
//! each action (asks the user, runs the client, asks the model) and hands
//! back the event; the client is run once, as the last step.

use vstd::prelude::*;
use crate::app_config::{LLMConfig, LLMConfigView};
use crate::git_command::{
    classify, commit_args, flag_tokens, message_tokens, parse_spec, scan, CommitDraft, CommitView,
    GitCommand, GitCommandView,
};
use crate::llm::{plan_generation, plan_spec, GenerationPlan, GenerationPlanView, SettingsError};
use crate::scan_laws::{
    lemma_known_tokens, lemma_scan_concat, lemma_scan_extras, lemma_scan_form,
    lemma_scan_message_free,
};
use crate::text::concat3;

verus! {

/// Why the wrapper gives up without running the client.
#[derive(Debug, Clone, Copy, PartialEq, Eq, Structural)]
pub enum Failure {
    /// The model answered without a text.
    EmptyResponse,
    /// No message can be drafted with the provider settings.
    Settings(SettingsError),
    /// The event does not answer the action that was asked for.
    UnexpectedEvent,
}

/// The model of an action.
pub enum ActionView {
    RunGit(Seq<Seq<char>>),
    ChooseType,
    CollectDiff,
    LoadSettings,
    Generate(GenerationPlanView),
    ReportNoChanges,
    Fail(Failure),
}

/// What the caller is to do next.
#[derive(Debug, Clone, PartialEq, Eq)]
pub enum Action {
    /// Run the client with these arguments and end with its status.
    RunGit(Vec<String>),
    /// Load the commit types and let the user choose one.
    ChooseType,
    /// Collect the staged diff.
    CollectDiff,
    /// Load the provider settings.
    LoadSettings,
    /// Ask the model as the plan says.
    Generate(GenerationPlan),
    /// Tell the user that there is nothing to commit and end successfully.
    ReportNoChanges,
    /// Give up.
    Fail(Failure),
}

impl View for Action {
    type V = ActionView;

    open spec fn view(&self) -> ActionView {
        match *self {
            Action::RunGit(args) => ActionView::RunGit(args.deep_view()),
            Action::ChooseType => ActionView::ChooseType,
            Action::CollectDiff => ActionView::CollectDiff,
            Action::LoadSettings => ActionView::LoadSettings,
            Action::Generate(plan) => ActionView::Generate(plan@),
            Action::ReportNoChanges => ActionView::ReportNoChanges,
            Action::Fail(failure) => ActionView::Fail(failure),
        }
    }
}

/// The model of an event.
pub enum EventView {
    TypeChosen(Seq<char>),
    DiffCollected(Seq<char>),
    SettingsLoaded(LLMConfigView),
    TextGenerated(Option<Seq<char>>),
}

/// What the outside world answered to an action.
#[derive(Debug, Clone, PartialEq, Eq)]
pub enum Event {
    /// The user chose the commit type with this label.
    TypeChosen(String),
    /// The staged diff reads like this.
    DiffCollected(String),
    /// The provider settings are these.
    SettingsLoaded(LLMConfig),
    /// The model answered with this text, or without one.
    TextGenerated(Option<String>),
}

impl View for Event {
    type V = EventView;

    open spec fn view(&self) -> EventView {
        match *self {
            Event::TypeChosen(label) => EventView::TypeChosen(label@),
            Event::DiffCollected(diff) => EventView::DiffCollected(diff@),
            Event::SettingsLoaded(config) => EventView::SettingsLoaded(config@),
            Event::TextGenerated(text) => EventView::TextGenerated(text.deep_view()),
        }
    }
}

/// The model of a session. The invocation it holds has no message: the
/// message is what the session is about to settle.
pub enum SessionView {
    ChoosingType { draft: CommitView, message: Seq<char> },
    CollectingDiff { draft: CommitView, label: Seq<char> },
    LoadingSettings { draft: CommitView, label: Seq<char>, diff: Seq<char> },
    Generating { draft: CommitView, label: Seq<char> },
    Finished,
}

/// Where the wrapper stands.
#[derive(Debug, Clone, PartialEq, Eq)]
pub enum Session {
    /// The user is choosing the commit type for the message given on the
    /// command line.
    ChoosingType { draft: CommitDraft, message: String },
    /// The message was empty: the staged diff is being collected.
    CollectingDiff { draft: CommitDraft, label: String },
    /// The provider settings are being loaded.
    LoadingSettings { draft: CommitDraft, label: String, diff: String },
    /// The model is drafting the message.
    Generating { draft: CommitDraft, label: String },
    /// Nothing is left to decide.
    Finished,
}

impl View for Session {
    type V = SessionView;

    open spec fn view(&self) -> SessionView {
        match *self {
            Session::ChoosingType { draft, message } => SessionView::ChoosingType {
                draft: draft@,
                message: message@,
            },
            Session::CollectingDiff { draft, label } => SessionView::CollectingDiff {
                draft: draft@,
                label: label@,
            },
            Session::LoadingSettings { draft, label, diff } => SessionView::LoadingSettings {
                draft: draft@,
                label: label@,
                diff: diff@,
            },
            Session::Generating { draft, label } => SessionView::Generating {
                draft: draft@,
                label: label@,
            },
            Session::Finished => SessionView::Finished,
        }
    }
}

/// The message that is committed: the label of the chosen type, a space, and
/// the message itself. The label is put in front whatever the message holds.
pub open spec fn final_message(label: Seq<char>, message: Seq<char>) -> Seq<char> {
    label + " "@ + message
}

/// The argument vector of the commit with its final message.
pub open spec fn final_args(
    draft: CommitView,
    label: Seq<char>,
    message: Seq<char>,
) -> Seq<Seq<char>> {
    commit_args(draft.with_message(Some(final_message(label, message))))
}

/// The first step. Anything but a commit with a message is handed to the
/// client at once: a pass-through command with its arguments unchanged, a
/// commit without a message as it was read. A commit with a message, an empty
/// one too, has the user choose a commit type first.
pub open spec fn start_spec(args: Seq<Seq<char>>) -> (SessionView, ActionView) {
    match parse_spec(args) {
        GitCommandView::Other(raw) => (SessionView::Finished, ActionView::RunGit(raw)),
        GitCommandView::Commit(commit) => match commit.message {
            None => (SessionView::Finished, ActionView::RunGit(commit_args(commit))),
            Some(message) => (
                SessionView::ChoosingType { draft: commit.with_message(None), message },
                ActionView::ChooseType,
            ),
        },
    }
}

/// What follows the settings: nothing is asked where drafting is switched
/// off, and the message stays empty.
pub open spec fn after_settings(
    draft: CommitView,
    label: Seq<char>,
    plan: Result<GenerationPlanView, SettingsError>,
) -> (SessionView, ActionView) {
    match plan {
        Err(error) => (SessionView::Finished, ActionView::Fail(Failure::Settings(error))),
        Ok(GenerationPlanView::Disabled) => (
            SessionView::Finished,
            ActionView::RunGit(final_args(draft, label, Seq::empty())),
        ),
        Ok(plan) => (SessionView::Generating { draft, label }, ActionView::Generate(plan)),
    }
}

/// Every further step.
/// - The type is chosen: a message that is not empty is committed under the
///   type's label; for an empty one the staged diff is collected.
/// - The diff is collected: an empty diff ends the session with the report
///   that there is nothing to commit; else the provider settings are loaded.
/// - The settings are loaded: see `after_settings`.
/// - The model has answered: its text is committed under the type's label;
///   an answer without a text is a failure.
/// An event that does not answer the session's action ends it as a failure.
pub open spec fn step_spec(session: SessionView, event: EventView) -> (SessionView, ActionView) {
    match (session, event) {
        (SessionView::ChoosingType { draft, message }, EventView::TypeChosen(label)) => {
            if message.len() == 0 {
                (SessionView::CollectingDiff { draft, label }, ActionView::CollectDiff)
            } else {
                (SessionView::Finished, ActionView::RunGit(final_args(draft, label, message)))
            }
        },
        (SessionView::CollectingDiff { draft, label }, EventView::DiffCollected(diff)) => {
            if diff.len() == 0 {
                (SessionView::Finished, ActionView::ReportNoChanges)
            } else {
                (SessionView::LoadingSettings { draft, label, diff }, ActionView::LoadSettings)
            }
        },
        (
            SessionView::LoadingSettings { draft, label, diff },
            EventView::SettingsLoaded(config),
        ) => after_settings(draft, label, plan_spec(label, diff, config)),
        (SessionView::Generating { draft, label }, EventView::TextGenerated(text)) => match text {
            None => (SessionView::Finished, ActionView::Fail(Failure::EmptyResponse)),
            Some(message) => (
                SessionView::Finished,
                ActionView::RunGit(final_args(draft, label, message)),
            ),
        },
        _ => (SessionView::Finished, ActionView::Fail(Failure::UnexpectedEvent)),
    }
}

/// The argument vector of the commit with its final message.
pub fn finish(draft: CommitDraft, label: &str, message: &str) -> (args: Vec<String>)
    ensures
        args.deep_view() == final_args(draft@, label@, message@),
{
    draft.into_args(Some(concat3(label, " ", message)))
}

impl Session {
    /// Decides the first step from the wrapper's arguments (without the
    /// program's name).
    pub fn start(args: Vec<String>) -> (next: (Session, Action))
        ensures
            (next.0@, next.1@) == start_spec(args.deep_view()),
    {
        match GitCommand::parse(args) {
            GitCommand::Other(raw) => (Session::Finished, Action::RunGit(raw)),
            GitCommand::Commit { all, message, patch, amend, extra_args } => {
                let draft = CommitDraft { all, patch, amend, extra_args };
                match message {
                    None => (Session::Finished, Action::RunGit(draft.into_args(None))),
                    Some(message) => (Session::ChoosingType { draft, message }, Action::ChooseType),
                }
            },
        }
    }

    /// Decides the next step from the event that answers the last action.
    pub fn step(self, event: Event) -> (next: (Session, Action))
        ensures
            (next.0@, next.1@) == step_spec(self@, event@),
    {
        match (self, event) {
            (Session::ChoosingType { draft, message }, Event::TypeChosen(label)) => {
                if message.as_str().is_empty() {
                    (Session::CollectingDiff { draft, label }, Action::CollectDiff)
                } else {
                    (
                        Session::Finished,
                        Action::RunGit(finish(draft, label.as_str(), message.as_str())),
                    )
                }
            },
            (Session::CollectingDiff { draft, label }, Event::DiffCollected(diff)) => {
                if diff.as_str().is_empty() {
                    (Session::Finished, Action::ReportNoChanges)
                } else {
                    (Session::LoadingSettings { draft, label, diff }, Action::LoadSettings)
                }
            },
            (Session::LoadingSettings { draft, label, diff }, Event::SettingsLoaded(config)) => {
                match plan_generation(label.as_str(), diff.as_str(), &config) {
                    Err(error) => (Session::Finished, Action::Fail(Failure::Settings(error))),
                    Ok(GenerationPlan::Disabled) => {
                        let nothing = String::new();
                        (
                            Session::Finished,
                            Action::RunGit(finish(draft, label.as_str(), nothing.as_str())),
                        )
                    },
                    Ok(plan) => (Session::Generating { draft, label }, Action::Generate(plan)),
                }
            },
            (Session::Generating { draft, label }, Event::TextGenerated(text)) => match text {
                None => (Session::Finished, Action::Fail(Failure::EmptyResponse)),
                Some(message) => (
                    Session::Finished,
                    Action::RunGit(finish(draft, label.as_str(), message.as_str())),
                ),
            },
            _ => (Session::Finished, Action::Fail(Failure::UnexpectedEvent)),
        }
    }
}

/// The user is asked for a commit type exactly where the arguments are a
/// commit with a message, an empty message too; without a message, and for
/// any other command, never.
pub proof fn type_is_chosen_iff_message_given(args: Seq<Seq<char>>)
    ensures
        start_spec(args).1 is ChooseType <==> (parse_spec(args) matches GitCommandView::Commit(
            commit,
        ) && commit.message is Some),
        parse_spec(args) matches GitCommandView::Commit(commit) && commit.message == Some(
            Seq::<char>::empty(),
        ) ==> start_spec(args).1 is ChooseType,
{
}

/// The user is asked for a commit type at the first step or not at all.
pub proof fn type_is_chosen_at_most_once(session: SessionView, event: EventView)
    ensures
        !(step_spec(session, event).1 is ChooseType),
        !(step_spec(session, event).0 is ChoosingType),
{
}

/// The client is run as the last step: with the action that runs it, and
/// with the ones that report or give up, the session is finished, and a
/// finished session runs nothing any more.
pub proof fn client_runs_last(args: Seq<Seq<char>>, session: SessionView, event: EventView)
    ensures
        start_spec(args).1 is RunGit ==> start_spec(args).0 is Finished,
        step_spec(session, event).1 is RunGit || step_spec(session, event).1 is ReportNoChanges
            || step_spec(session, event).1 is Fail ==> step_spec(session, event).0 is Finished,
        session is Finished ==> step_spec(session, event) == (
            SessionView::Finished,
            ActionView::Fail(Failure::UnexpectedEvent),
        ),
{
}

/// A commit with all three switches, a message of at least one character and
/// further arguments is handed to the client as `commit --all --patch
/// --amend -m "<label> <message>"` and the further arguments, in this order,
/// once the type with that label is chosen.
pub proof fn switches_message_and_extras_keep_their_places(
    message: Seq<char>,
    label: Seq<char>,
    extra_args: Seq<Seq<char>>,
)
    requires
        message.len() > 0,
        forall|i: int| 0 <= i < extra_args.len() ==> classify(#[trigger] extra_args[i]) is Extra,
    ensures
        ({
            let args = seq!["commit"@, "-a"@, "-p"@, "--amend"@, "-m"@, message] + extra_args;
            &&& start_spec(args).1 is ChooseType
            &&& step_spec(start_spec(args).0, EventView::TypeChosen(label)) == (
                SessionView::Finished,
                ActionView::RunGit(
                    seq![
                        "commit"@,
                        "--all"@,
                        "--patch"@,
                        "--amend"@,
                        "-m"@,
                        label + " "@ + message,
                    ] + extra_args,
                ),
            )
        }),
{
    lemma_known_tokens();
    let bare = CommitView::bare();
    let args = seq!["commit"@, "-a"@, "-p"@, "--amend"@, "-m"@, message] + extra_args;
    let switches = seq!["-a"@, "-p"@, "--amend"@];
    let form = seq!["-m"@, message];
    assert(args.skip(1) =~= switches + (form + extra_args));
    let read = CommitView {
        all: true,
        message: None,
        patch: true,
        amend: true,
        extra_args: Seq::empty(),
    };
    assert(scan(switches, bare) == read) by {
        reveal_with_fuel(scan, 4);
    }
    lemma_scan_message_free(switches, bare, None);
    lemma_scan_concat(switches, form + extra_args, bare);
    lemma_scan_form(form, message, read);
    lemma_scan_concat(form, extra_args, read);
    lemma_scan_extras(extra_args, read.with_message(Some(message)));
    let last = label + " "@ + message;
    assert(seq!["commit"@] + flag_tokens(true, true, true) + message_tokens(Some(last))
        + extra_args =~= seq!["commit"@, "--all"@, "--patch"@, "--amend"@, "-m"@, last]
        + extra_args);
}

/// How many events a session can still take.
pub open spec fn steps_left(session: SessionView) -> nat {
    match session {
        SessionView::ChoosingType { .. } => 4,
        SessionView::CollectingDiff { .. } => 3,
        SessionView::LoadingSettings { .. } => 2,
        SessionView::Generating { .. } => 1,
        SessionView::Finished => 0,
    }
}

/// Every session ends: each event brings it nearer to its end, and it asks
/// for a further event only while it is not finished.
pub proof fn session_ends(session: SessionView, event: EventView)
    ensures
        !(session is Finished) ==> steps_left(step_spec(session, event).0) < steps_left(session),
        step_spec(session, event).1 is CollectDiff || step_spec(session, event).1 is LoadSettings
            || step_spec(session, event).1 is Generate ==> !(step_spec(session, event).0
            is Finished),
{
}

/// With an empty staged diff the session ends with the report that there is
/// nothing to commit, and the client is not run.
pub proof fn empty_diff_commits_nothing(draft: CommitView, label: Seq<char>)
    ensures
        step_spec(
            SessionView::CollectingDiff { draft, label },
            EventView::DiffCollected(Seq::empty()),
        ) == (SessionView::Finished, ActionView::ReportNoChanges),
{
}

} // verus!
