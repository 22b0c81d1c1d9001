use aigcw::app_config::{AppConfig, LLMConfig, LLMProvider};
use aigcw::commit_types::{CommitTypeConfig, Config, EmojiConfig};
use aigcw::git_command::CommitDraft;
use aigcw::llm::{plan_generation, SettingsError};
use aigcw::session::{finish, Action, Event, Failure, Session};

fn strings(items: &[&str]) -> Vec<String> {
    items.iter().map(|s| s.to_string()).collect()
}

fn draft(all: bool, patch: bool, amend: bool, extra_args: &[&str]) -> CommitDraft {
    CommitDraft { all, patch, amend, extra_args: strings(extra_args) }
}

fn run(args: &[&str]) -> (Session, Action) {
    (Session::Finished, Action::RunGit(strings(args)))
}

fn two_types() -> Config {
    Config::new(
        EmojiConfig::new(true),
        vec![
            CommitTypeConfig::new("feat".to_string(), "✨".to_string(), String::new()),
            CommitTypeConfig::new("fix".to_string(), "🐛".to_string(), String::new()),
        ],
    )
}

#[test]
fn other_commands_run_at_once() {
    assert_eq!(Session::start(strings(&["log", "-m", "x"])), run(&["log", "-m", "x"]));
    assert_eq!(Session::start(Vec::new()), run(&[]));
}

#[test]
fn commit_without_message_runs_at_once() {
    assert_eq!(Session::start(strings(&["commit"])), run(&["commit"]));
    assert_eq!(
        Session::start(strings(&["commit", "x", "-p", "--amend", "-a", "y", "-m"])),
        run(&["commit", "--all", "--patch", "--amend", "x", "y"])
    );
}

#[test]
fn commit_with_message_asks_for_the_type() {
    assert_eq!(
        Session::start(strings(&["commit", "-a", "-m", "fix bug", "f"])),
        (
            Session::ChoosingType { draft: draft(true, false, false, &["f"]), message: "fix bug".to_string() },
            Action::ChooseType
        )
    );
}

#[test]
fn commit_with_empty_message_asks_for_the_type() {
    for args in [strings(&["commit", "-m", ""]), strings(&["commit", "--message="])] {
        assert_eq!(
            Session::start(args),
            (
                Session::ChoosingType { draft: draft(false, false, false, &[]), message: String::new() },
                Action::ChooseType
            )
        );
    }
}

#[test]
fn chosen_type_is_put_before_the_message() {
    let labels = two_types().labels();
    assert_eq!(labels, vec!["feat: ✨", "fix: 🐛"]);
    let (session, action) = Session::start(strings(&["commit", "-m", "fix bug"]));
    assert_eq!(action, Action::ChooseType);
    assert_eq!(
        session.step(Event::TypeChosen(labels[1].clone())),
        run(&["commit", "-m", "fix: 🐛 fix bug"])
    );
}

#[test]
fn all_switches_and_extras_are_kept() {
    let (session, _) =
        Session::start(strings(&["commit", "-a", "-p", "--amend", "-m", "msg", "extra1", "extra2"]));
    assert_eq!(
        session.step(Event::TypeChosen("feat: ✨".to_string())),
        run(&["commit", "--all", "--patch", "--amend", "-m", "feat: ✨ msg", "extra1", "extra2"])
    );
}

#[test]
fn empty_message_collects_the_diff() {
    let (session, _) = Session::start(strings(&["commit", "-p", "-m", ""]));
    assert_eq!(
        session.step(Event::TypeChosen("ci: 👷".to_string())),
        (
            Session::CollectingDiff { draft: draft(false, true, false, &[]), label: "ci: 👷".to_string() },
            Action::CollectDiff
        )
    );
}

#[test]
fn empty_diff_reports_no_changes() {
    let session = Session::CollectingDiff { draft: draft(true, false, false, &[]), label: "l".to_string() };
    assert_eq!(
        session.step(Event::DiffCollected(String::new())),
        (Session::Finished, Action::ReportNoChanges)
    );
}

#[test]
fn collected_diff_loads_the_settings() {
    let session = Session::CollectingDiff { draft: draft(true, false, false, &["x"]), label: "l".to_string() };
    assert_eq!(
        session.step(Event::DiffCollected("+a".to_string())),
        (
            Session::LoadingSettings {
                draft: draft(true, false, false, &["x"]),
                label: "l".to_string(),
                diff: "+a".to_string()
            },
            Action::LoadSettings
        )
    );
}

#[test]
fn disabled_settings_commit_the_label_alone() {
    let session = Session::LoadingSettings {
        draft: draft(false, false, true, &["x"]),
        label: "fix: 🐛".to_string(),
        diff: "+a".to_string(),
    };
    assert_eq!(
        session.step(Event::SettingsLoaded(AppConfig::default().llm_config)),
        run(&["commit", "--amend", "-m", "fix: 🐛 ", "x"])
    );
}

#[test]
fn enabled_settings_ask_the_model() {
    let config = LLMConfig::new(
        LLMProvider::DeepSeek,
        true,
        Some("k".to_string()),
        None,
        Some("deepseek-chat".to_string()),
    );
    let session = Session::LoadingSettings {
        draft: draft(false, false, false, &[]),
        label: "fix: 🐛".to_string(),
        diff: "+a".to_string(),
    };
    let plan = plan_generation("fix: 🐛", "+a", &config).unwrap();
    assert_eq!(
        session.step(Event::SettingsLoaded(config)),
        (
            Session::Generating { draft: draft(false, false, false, &[]), label: "fix: 🐛".to_string() },
            Action::Generate(plan)
        )
    );
}

#[test]
fn unusable_settings_fail() {
    let waiting = Session::LoadingSettings {
        draft: draft(false, false, false, &[]),
        label: "l".to_string(),
        diff: "+a".to_string(),
    };
    let incomplete = LLMConfig::new(LLMProvider::CUSTOM, true, None, None, None);
    assert_eq!(
        waiting.clone().step(Event::SettingsLoaded(incomplete)),
        (Session::Finished, Action::Fail(Failure::Settings(SettingsError::Incomplete)))
    );
    let unsupported = LLMConfig::new(LLMProvider::Groq, true, Some("k".to_string()), None, None);
    assert_eq!(
        waiting.step(Event::SettingsLoaded(unsupported)),
        (Session::Finished, Action::Fail(Failure::Settings(SettingsError::UnsupportedProvider)))
    );
}

#[test]
fn generated_text_is_committed_under_the_label() {
    let session =
        Session::Generating { draft: draft(true, false, false, &["f"]), label: "perf: ⚡️".to_string() };
    assert_eq!(
        session.step(Event::TextGenerated(Some("Reduce memory usage".to_string()))),
        run(&["commit", "--all", "-m", "perf: ⚡️ Reduce memory usage", "f"])
    );
}

#[test]
fn label_is_kept_even_where_the_text_repeats_it() {
    let session = Session::Generating { draft: draft(false, false, false, &[]), label: "fix: 🐛".to_string() };
    assert_eq!(
        session.step(Event::TextGenerated(Some("fix: 🐛 Repair login".to_string()))),
        run(&["commit", "-m", "fix: 🐛 fix: 🐛 Repair login"])
    );
}

#[test]
fn answer_without_text_fails() {
    let session = Session::Generating { draft: draft(false, false, false, &[]), label: "l".to_string() };
    assert_eq!(
        session.step(Event::TextGenerated(None)),
        (Session::Finished, Action::Fail(Failure::EmptyResponse))
    );
}

#[test]
fn events_out_of_turn_fail() {
    let unexpected = (Session::Finished, Action::Fail(Failure::UnexpectedEvent));
    let choosing = Session::ChoosingType { draft: draft(false, false, false, &[]), message: "m".to_string() };
    assert_eq!(choosing.clone().step(Event::DiffCollected("d".to_string())), unexpected);
    assert_eq!(choosing.step(Event::TextGenerated(None)), unexpected);
    let collecting = Session::CollectingDiff { draft: draft(false, false, false, &[]), label: "l".to_string() };
    assert_eq!(collecting.step(Event::TypeChosen("l".to_string())), unexpected);
    let generating = Session::Generating { draft: draft(false, false, false, &[]), label: "l".to_string() };
    assert_eq!(generating.step(Event::SettingsLoaded(AppConfig::default().llm_config)), unexpected);
    assert_eq!(Session::Finished.step(Event::TypeChosen("l".to_string())), unexpected);
    assert_eq!(Session::Finished.step(Event::TextGenerated(Some("t".to_string()))), unexpected);
}

#[test]
fn whole_session_with_a_drafted_message() {
    let (session, action) = Session::start(strings(&["commit", "--message=", "-a", "src"]));
    assert_eq!(action, Action::ChooseType);
    let (session, action) = session.step(Event::TypeChosen("feat: ✨".to_string()));
    assert_eq!(action, Action::CollectDiff);
    let (session, action) = session.step(Event::DiffCollected("+fn f() {}\n".to_string()));
    assert_eq!(action, Action::LoadSettings);
    let config = LLMConfig::new(
        LLMProvider::CUSTOM,
        true,
        Some("k".to_string()),
        Some("http://h".to_string()),
        None,
    );
    let (session, action) = session.step(Event::SettingsLoaded(config.clone()));
    assert_eq!(action, Action::Generate(plan_generation("feat: ✨", "+fn f() {}\n", &config).unwrap()));
    assert_eq!(
        session.step(Event::TextGenerated(Some("Add f".to_string()))),
        run(&["commit", "--all", "-m", "feat: ✨ Add f", "src"])
    );
}

#[test]
fn finish_joins_label_and_message_with_a_space() {
    assert_eq!(
        finish(draft(false, false, false, &[]), "docs: 📚", "Describe setup"),
        strings(&["commit", "-m", "docs: 📚 Describe setup"])
    );
    assert_eq!(finish(draft(false, false, false, &[]), "", ""), strings(&["commit", "-m", " "]));
}
