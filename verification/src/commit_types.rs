//! The commit types that the user chooses from, and the label under which
//! each of them is shown and put in front of the message.

use vstd::prelude::*;
use crate::text::concat3;

verus! {

/// The model of a commit type.
pub struct CommitTypeView {
    pub name: Seq<char>,
    pub emoji: Seq<char>,
    pub desc: Seq<char>,
}

impl CommitTypeView {
    /// The label of the type: its name, a colon, a space and its emoji.
    pub open spec fn label(self) -> Seq<char> {
        self.name + ": "@ + self.emoji
    }
}

/// One commit type: its name, its emoji and what it is for.
#[derive(Debug, Clone, PartialEq, Eq)]
pub struct CommitTypeConfig {
    pub name: String,
    pub emoji: String,
    pub desc: String,
}

impl View for CommitTypeConfig {
    type V = CommitTypeView;

    open spec fn view(&self) -> CommitTypeView {
        CommitTypeView { name: self.name@, emoji: self.emoji@, desc: self.desc@ }
    }
}

impl DeepView for CommitTypeConfig {
    type V = CommitTypeView;

    open spec fn deep_view(&self) -> CommitTypeView {
        self@
    }
}

impl CommitTypeConfig {
    pub fn new(name: String, emoji: String, desc: String) -> (commit_type: CommitTypeConfig)
        ensures
            commit_type == (CommitTypeConfig { name, emoji, desc }),
    {
        CommitTypeConfig { name, emoji, desc }
    }

    /// The label under which the type is shown.
    pub fn show_string(&self) -> (label: String)
        ensures
            label@ == self@.label(),
    {
        concat3(self.name.as_str(), ": ", self.emoji.as_str())
    }
}

/// Whether emojis are shown.
#[derive(Debug, Clone, Copy, PartialEq, Eq, Structural)]
pub struct EmojiConfig {
    pub enable: bool,
}

impl EmojiConfig {
    pub fn new(enable: bool) -> (emoji: EmojiConfig)
        ensures
            emoji.enable == enable,
    {
        EmojiConfig { enable }
    }
}

/// The model of the commit-type settings.
pub struct ConfigView {
    pub emoji: EmojiConfig,
    pub types: Seq<CommitTypeView>,
}

impl ConfigView {
    /// The labels of the types, in the order of the types.
    pub open spec fn labels(self) -> Seq<Seq<char>> {
        Seq::new(self.types.len(), |i: int| self.types[i].label())
    }
}

/// The commit-type settings: the order of the types is the order in which
/// they are shown. Two types may have the same name.
#[derive(Debug, Clone, PartialEq, Eq)]
pub struct Config {
    pub emoji: EmojiConfig,
    pub types: Vec<CommitTypeConfig>,
}

impl View for Config {
    type V = ConfigView;

    open spec fn view(&self) -> ConfigView {
        ConfigView { emoji: self.emoji, types: self.types.deep_view() }
    }
}

/// One built-in commit type.
pub open spec fn builtin_type(name: &str, emoji: &str, desc: &str) -> CommitTypeView {
    CommitTypeView { name: name@, emoji: emoji@, desc: desc@ }
}

/// The eleven commit types that are offered where no settings file names
/// others.
pub open spec fn builtin_types() -> Seq<CommitTypeView> {
    seq![
        builtin_type("feat", "✨", "新增功能"),
        builtin_type("fix", "🐛", "Bug修复"),
        builtin_type("docs", "📚", "文档更新"),
        builtin_type("style", "🎨", "代码样式调整"),
        builtin_type("refactor", "♻️", "代码重构"),
        builtin_type("perf", "⚡️", "性能优化"),
        builtin_type("test", "✅", "测试相关"),
        builtin_type("build", "📦️", "构建系统变更"),
        builtin_type("ci", "👷", "CI配置变更"),
        builtin_type("chore", "🔧", "其他杂项"),
        builtin_type("revert", "⏪️", "提交回滚"),
    ]
}

/// Puts the built-in type with these texts at the end of `types`.
fn push_builtin(types: &mut Vec<CommitTypeConfig>, name: &str, emoji: &str, desc: &str)
    ensures
        final(types).deep_view() == old(types).deep_view().push(builtin_type(name, emoji, desc)),
{
    let commit_type = CommitTypeConfig::new(name.to_owned(), emoji.to_owned(), desc.to_owned());
    types.push(commit_type);
}

impl Config {
    pub fn new(emoji: EmojiConfig, types: Vec<CommitTypeConfig>) -> (config: Config)
        ensures
            config == (Config { emoji, types }),
    {
        Config { emoji, types }
    }

    /// The settings that hold where no file gives others: emojis are shown,
    /// and the types are the built-in ones.
    pub fn builtin() -> (config: Config)
        ensures
            config@ == (ConfigView { emoji: EmojiConfig { enable: true }, types: builtin_types() }),
    {
        let mut types: Vec<CommitTypeConfig> = Vec::new();
        push_builtin(&mut types, "feat", "✨", "新增功能");
        push_builtin(&mut types, "fix", "🐛", "Bug修复");
        push_builtin(&mut types, "docs", "📚", "文档更新");
        push_builtin(&mut types, "style", "🎨", "代码样式调整");
        push_builtin(&mut types, "refactor", "♻️", "代码重构");
        push_builtin(&mut types, "perf", "⚡️", "性能优化");
        push_builtin(&mut types, "test", "✅", "测试相关");
        push_builtin(&mut types, "build", "📦️", "构建系统变更");
        push_builtin(&mut types, "ci", "👷", "CI配置变更");
        push_builtin(&mut types, "chore", "🔧", "其他杂项");
        push_builtin(&mut types, "revert", "⏪️", "提交回滚");
        assert(types.deep_view() =~= builtin_types());
        Config::new(EmojiConfig::new(true), types)
    }

    /// The labels of the types, in the order of the types: what the user
    /// chooses from.
    pub fn labels(&self) -> (labels: Vec<String>)
        ensures
            labels.deep_view() == self@.labels(),
    {
        let mut labels: Vec<String> = Vec::new();
        let n = self.types.len();
        let mut i: usize = 0;
        while i < n
            invariant
                i <= n,
                n == self.types.len(),
                labels.len() == i,
                forall|j: int| 0 <= j < i ==> labels[j]@ == self.types[j]@.label(),
            decreases n - i,
        {
            let label = self.types[i].show_string();
            labels.push(label);
            i += 1;
        }
        labels
    }
}

} // verus!
