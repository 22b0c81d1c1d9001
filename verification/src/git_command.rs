//! The argument reconstructor: it sorts the wrapper's arguments into a commit
//! invocation or a pass-through command, and builds the argument vector that
//! is handed to the version-control client.
//!
//! Arguments are modelled as sequences of tokens, a token being the sequence
//! of its characters.

use vstd::prelude::*;
use crate::text::{same_text, starts_with, tail_from};

verus! {

/// What one token means to the scan of a commit invocation.
pub enum TokenKind {
    /// `-a` or `--all`.
    All,
    /// `-p` or `--patch`.
    Patch,
    /// `--amend`.
    Amend,
    /// `-m` or `--message`: the token that follows is the message.
    MessageFlag,
    /// `-m<text>` or `--message=<text>`: the message is part of the token.
    InlineMessage(Seq<char>),
    /// Anything else: handed on as it is.
    Extra,
}

/// The meaning of a token, by its text alone.
pub open spec fn classify(token: Seq<char>) -> TokenKind {
    if token == "--all"@ || token == "-a"@ {
        TokenKind::All
    } else if token == "--patch"@ || token == "-p"@ {
        TokenKind::Patch
    } else if token == "--amend"@ {
        TokenKind::Amend
    } else if token == "-m"@ || token == "--message"@ {
        TokenKind::MessageFlag
    } else if "-m"@.is_prefix_of(token) {
        TokenKind::InlineMessage(token.skip(2))
    } else if "--message="@.is_prefix_of(token) {
        TokenKind::InlineMessage(token.skip(10))
    } else {
        TokenKind::Extra
    }
}

/// Whether a token sets the message, alone or together with its successor.
pub open spec fn sets_message(token: Seq<char>) -> bool {
    classify(token) is MessageFlag || classify(token) is InlineMessage
}

/// The model of a commit invocation.
pub struct CommitView {
    pub all: bool,
    pub message: Option<Seq<char>>,
    pub patch: bool,
    pub amend: bool,
    pub extra_args: Seq<Seq<char>>,
}

impl CommitView {
    /// A commit invocation without flags, message or further arguments.
    pub open spec fn bare() -> CommitView {
        CommitView {
            all: false,
            message: None,
            patch: false,
            amend: false,
            extra_args: Seq::empty(),
        }
    }

    /// This invocation with the message replaced.
    pub open spec fn with_message(self, message: Option<Seq<char>>) -> CommitView {
        CommitView {
            all: self.all,
            message,
            patch: self.patch,
            amend: self.amend,
            extra_args: self.extra_args,
        }
    }

    /// This invocation after the scan has read `token`, which is not a
    /// message flag.
    pub open spec fn absorb(self, token: Seq<char>) -> CommitView {
        match classify(token) {
            TokenKind::All => CommitView {
                all: true,
                message: self.message,
                patch: self.patch,
                amend: self.amend,
                extra_args: self.extra_args,
            },
            TokenKind::Patch => CommitView {
                all: self.all,
                message: self.message,
                patch: true,
                amend: self.amend,
                extra_args: self.extra_args,
            },
            TokenKind::Amend => CommitView {
                all: self.all,
                message: self.message,
                patch: self.patch,
                amend: true,
                extra_args: self.extra_args,
            },
            TokenKind::MessageFlag => self,
            TokenKind::InlineMessage(text) => self.with_message(Some(text)),
            TokenKind::Extra => CommitView {
                all: self.all,
                message: self.message,
                patch: self.patch,
                amend: self.amend,
                extra_args: self.extra_args.push(token),
            },
        }
    }

    /// Every further argument is one that a scan hands on as it is.
    pub open spec fn wf(self) -> bool {
        forall|i: int|
            0 <= i < self.extra_args.len() ==> classify(#[trigger] self.extra_args[i]) is Extra
    }
}

/// The scan of the tokens behind `commit`, from left to right, starting from
/// what has been read so far. A message flag takes the token behind it whole
/// as the message; as the last token it is dropped and sets nothing. Of
/// several messages the last one read stays.
pub open spec fn scan(tokens: Seq<Seq<char>>, so_far: CommitView) -> CommitView
    decreases tokens.len(),
{
    if tokens.len() == 0 {
        so_far
    } else if classify(tokens[0]) is MessageFlag {
        if tokens.len() == 1 {
            so_far
        } else {
            scan(tokens.skip(2), so_far.with_message(Some(tokens[1])))
        }
    } else {
        scan(tokens.skip(1), so_far.absorb(tokens[0]))
    }
}

/// The model of a classified command.
pub enum GitCommandView {
    Commit(CommitView),
    Other(Seq<Seq<char>>),
}

/// Whether the arguments call the commit subcommand.
pub open spec fn is_commit(args: Seq<Seq<char>>) -> bool {
    args.len() > 0 && args[0] == "commit"@
}

/// What the arguments (without the program's name) mean.
pub open spec fn parse_spec(args: Seq<Seq<char>>) -> GitCommandView {
    if is_commit(args) {
        GitCommandView::Commit(scan(args.skip(1), CommitView::bare()))
    } else {
        GitCommandView::Other(args)
    }
}

/// The tokens that stand for the three switches, in the order in which they
/// are handed on.
pub open spec fn flag_tokens(all: bool, patch: bool, amend: bool) -> Seq<Seq<char>> {
    (if all {
        seq!["--all"@]
    } else {
        Seq::empty()
    }) + (if patch {
        seq!["--patch"@]
    } else {
        Seq::empty()
    }) + (if amend {
        seq!["--amend"@]
    } else {
        Seq::empty()
    })
}

/// The tokens that carry the message, if there is one.
pub open spec fn message_tokens(message: Option<Seq<char>>) -> Seq<Seq<char>> {
    match message {
        Some(text) => seq!["-m"@, text],
        None => Seq::empty(),
    }
}

/// The argument vector that stands for a commit invocation.
pub open spec fn commit_args(commit: CommitView) -> Seq<Seq<char>> {
    seq!["commit"@] + flag_tokens(commit.all, commit.patch, commit.amend) + message_tokens(
        commit.message,
    ) + commit.extra_args
}

impl GitCommandView {
    /// A commit invocation holds only further arguments that a scan hands on;
    /// a pass-through command is not a commit.
    pub open spec fn wf(self) -> bool {
        match self {
            GitCommandView::Commit(commit) => commit.wf(),
            GitCommandView::Other(args) => !is_commit(args),
        }
    }

    /// The argument vector that the version-control client receives for this
    /// command.
    pub open spec fn args(self) -> Seq<Seq<char>> {
        match self {
            GitCommandView::Commit(commit) => commit_args(commit),
            GitCommandView::Other(args) => args,
        }
    }
}

/// The wrapper's arguments, classified.
#[derive(Debug, Clone, PartialEq, Eq)]
pub enum GitCommand {
    Commit {
        all: bool,
        message: Option<String>,
        patch: bool,
        amend: bool,
        extra_args: Vec<String>,
    },
    Other(Vec<String>),
}

impl View for GitCommand {
    type V = GitCommandView;

    open spec fn view(&self) -> GitCommandView {
        match *self {
            GitCommand::Commit { all, message, patch, amend, extra_args } => GitCommandView::Commit(
                CommitView {
                    all,
                    message: message.deep_view(),
                    patch,
                    amend,
                    extra_args: extra_args.deep_view(),
                },
            ),
            GitCommand::Other(args) => GitCommandView::Other(args.deep_view()),
        }
    }
}

/// Pushing a string onto a vector pushes its characters onto the model.
proof fn lemma_push_tokens(before: Vec<String>, after: Vec<String>, last: String)
    requires
        after@ == before@.push(last),
    ensures
        after.deep_view() == before.deep_view().push(last@),
{
}

/// A scan only ever adds tokens that are handed on as they are.
proof fn lemma_scan_wf(tokens: Seq<Seq<char>>, so_far: CommitView)
    requires
        so_far.wf(),
    ensures
        scan(tokens, so_far).wf(),
    decreases tokens.len(),
{
    if tokens.len() == 0 {
    } else if classify(tokens[0]) is MessageFlag {
        if tokens.len() > 1 {
            lemma_scan_wf(tokens.skip(2), so_far.with_message(Some(tokens[1])));
        }
    } else {
        lemma_scan_wf(tokens.skip(1), so_far.absorb(tokens[0]));
    }
}

/// Appending a vector of strings appends its tokens to the model.
proof fn lemma_append_tokens(before: Vec<String>, added: Vec<String>, after: Vec<String>)
    requires
        after@ == before@ + added@,
    ensures
        after.deep_view() == before.deep_view() + added.deep_view(),
{
}

/// Puts a copy of `token` at the end of `args`.
fn push_token(args: &mut Vec<String>, token: &str)
    ensures
        final(args).deep_view() == old(args).deep_view().push(token@),
{
    let owned = token.to_owned();
    args.push(owned);
}

/// A commit invocation whose message is not settled yet: the switches and the
/// further arguments that were read from the command line.
#[derive(Debug, Clone, PartialEq, Eq)]
pub struct CommitDraft {
    pub all: bool,
    pub patch: bool,
    pub amend: bool,
    pub extra_args: Vec<String>,
}

impl View for CommitDraft {
    type V = CommitView;

    /// The invocation without a message.
    open spec fn view(&self) -> CommitView {
        CommitView {
            all: self.all,
            message: None,
            patch: self.patch,
            amend: self.amend,
            extra_args: self.extra_args.deep_view(),
        }
    }
}

impl CommitDraft {
    /// The argument vector of this invocation with the given message, or
    /// without one: `commit`, then `--all`, `--patch` and `--amend` as far as
    /// they are set, then `-m` and the message, then the further arguments in
    /// their order.
    pub fn into_args(self, message: Option<String>) -> (args: Vec<String>)
        ensures
            args.deep_view() == commit_args(self@.with_message(message.deep_view())),
    {
        let mut args: Vec<String> = Vec::new();
        push_token(&mut args, "commit");
        if self.all {
            push_token(&mut args, "--all");
        }
        if self.patch {
            push_token(&mut args, "--patch");
        }
        if self.amend {
            push_token(&mut args, "--amend");
        }
        match message {
            Some(text) => {
                push_token(&mut args, "-m");
                let ghost between = args;
                args.push(text);
                proof {
                    lemma_push_tokens(between, args, text);
                }
            },
            None => {
            },
        }
        let ghost before = args;
        let mut extra_args = self.extra_args;
        args.append(&mut extra_args);
        proof {
            lemma_append_tokens(before, self.extra_args, args);
        }
        args
    }
}

impl GitCommand {
    /// The argument vector that the version-control client receives for this
    /// command: a pass-through command hands back the very vector it was
    /// made from.
    pub fn into_args(self) -> (args: Vec<String>)
        ensures
            args.deep_view() == self@.args(),
            self matches GitCommand::Other(raw) ==> args == raw,
    {
        match self {
            GitCommand::Commit { all, message, patch, amend, extra_args } => {
                let draft = CommitDraft { all, patch, amend, extra_args };
                draft.into_args(message)
            },
            GitCommand::Other(args) => args,
        }
    }

    /// Classifies the arguments (without the program's name): a commit
    /// invocation where the first one is `commit`, scanned as `scan` says;
    /// anything else, an empty vector too, is handed through unchanged.
    pub fn parse(args: Vec<String>) -> (command: GitCommand)
        ensures
            command@ == parse_spec(args.deep_view()),
            command@.wf(),
            !is_commit(args.deep_view()) ==> command == GitCommand::Other(args),
    {
        if args.len() == 0 || !same_text(args[0].as_str(), "commit") {
            return GitCommand::Other(args);
        }
        let ghost tokens = args.deep_view();
        let n = args.len();
        let mut all = false;
        let mut patch = false;
        let mut amend = false;
        let mut message: Option<String> = None;
        let mut extra_args: Vec<String> = Vec::new();
        let mut i: usize = 1;
        assert(extra_args.deep_view() =~= Seq::<Seq<char>>::empty());
        while i < n
            invariant
                1 <= i <= n,
                n == args.len(),
                tokens == args.deep_view(),
                scan(
                    tokens.skip(i as int),
                    CommitView {
                        all,
                        message: message.deep_view(),
                        patch,
                        amend,
                        extra_args: extra_args.deep_view(),
                    },
                ) == scan(tokens.skip(1), CommitView::bare()),
            decreases n - i,
        {
            let arg = args[i].as_str();
            let ghost rest = tokens.skip(i as int);
            assert(rest.skip(1) == tokens.skip(i + 1));
            if same_text(arg, "--all") || same_text(arg, "-a") {
                all = true;
                i += 1;
            } else if same_text(arg, "--patch") || same_text(arg, "-p") {
                patch = true;
                i += 1;
            } else if same_text(arg, "--amend") {
                amend = true;
                i += 1;
            } else if same_text(arg, "-m") || same_text(arg, "--message") {
                if i + 1 < n {
                    assert(rest.skip(2) == tokens.skip(i + 2));
                    message = Some(args[i + 1].clone());
                    i += 2;
                } else {
                    i += 1;
                }
            } else if starts_with(arg, "-m") {
                proof {
                    reveal_strlit("-m");
                }
                message = Some(tail_from(arg, 2));
                i += 1;
            } else if starts_with(arg, "--message=") {
                proof {
                    reveal_strlit("--message=");
                }
                message = Some(tail_from(arg, 10));
                i += 1;
            } else {
                let ghost before = extra_args;
                let kept = args[i].clone();
                extra_args.push(kept);
                proof {
                    lemma_push_tokens(before, extra_args, kept);
                }
                i += 1;
            }
        }
        proof {
            lemma_scan_wf(tokens.skip(1), CommitView::bare());
        }
        GitCommand::Commit { all, message, patch, amend, extra_args }
    }
}

} // verus!
