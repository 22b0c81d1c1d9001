//! What holds of the scan of a commit invocation and of the argument vector
//! built from it, for all arguments.

use vstd::prelude::*;
use crate::git_command::{
    classify, commit_args, flag_tokens, is_commit, message_tokens, parse_spec, scan, sets_message,
    CommitView, GitCommandView, TokenKind,
};

verus! {

/// No token of the sequence sets the message.
pub open spec fn message_free(tokens: Seq<Seq<char>>) -> bool {
    forall|i: int| 0 <= i < tokens.len() ==> !sets_message(#[trigger] tokens[i])
}

/// The scan of the sequence ends on a message flag that has no token behind
/// it to take.
pub open spec fn dangling(tokens: Seq<Seq<char>>) -> bool
    decreases tokens.len(),
{
    if tokens.len() == 0 {
        false
    } else if classify(tokens[0]) is MessageFlag {
        if tokens.len() == 1 {
            true
        } else {
            dangling(tokens.skip(2))
        }
    } else {
        dangling(tokens.skip(1))
    }
}

/// The four ways to write the message `text` on the command line.
pub open spec fn message_forms(text: Seq<char>) -> Set<Seq<Seq<char>>> {
    Set::new(
        |form: Seq<Seq<char>>|
            form == seq!["-m"@, text] || form == seq!["--message"@, text] || (text.len() > 0
                && form == seq!["-m"@ + text]) || form == seq!["--message="@ + text],
    )
}

/// What decides whether a token is handed on as it is.
pub open spec fn is_extra() -> spec_fn(Seq<char>) -> bool {
    |token: Seq<char>| classify(token) is Extra
}

/// The tokens of the sequence that are handed on as they are, in their
/// order.
pub open spec fn handed_on(tokens: Seq<Seq<char>>) -> Seq<Seq<char>> {
    tokens.filter(is_extra())
}

/// The characters of the tokens that the scan knows.
pub(crate) proof fn lemma_known_tokens()
    ensures
        "commit"@ == seq!['c', 'o', 'm', 'm', 'i', 't'],
        "--all"@ == seq!['-', '-', 'a', 'l', 'l'],
        "-a"@ == seq!['-', 'a'],
        "--patch"@ == seq!['-', '-', 'p', 'a', 't', 'c', 'h'],
        "-p"@ == seq!['-', 'p'],
        "--amend"@ == seq!['-', '-', 'a', 'm', 'e', 'n', 'd'],
        "-m"@ == seq!['-', 'm'],
        "--message"@ == seq!['-', '-', 'm', 'e', 's', 's', 'a', 'g', 'e'],
        "--message="@ == seq!['-', '-', 'm', 'e', 's', 's', 'a', 'g', 'e', '='],
{
    reveal_strlit("commit");
    reveal_strlit("--all");
    reveal_strlit("-a");
    reveal_strlit("--patch");
    reveal_strlit("-p");
    reveal_strlit("--amend");
    reveal_strlit("-m");
    reveal_strlit("--message");
    reveal_strlit("--message=");
}

/// How the scan reads the tokens that an argument vector is built with.
pub(crate) proof fn lemma_switch_kinds()
    ensures
        classify("--all"@) is All,
        classify("--patch"@) is Patch,
        classify("--amend"@) is Amend,
        classify("-m"@) is MessageFlag,
        classify("--message"@) is MessageFlag,
{
    lemma_known_tokens();
}

/// `-m` with a text of at least one character directly behind it is read as
/// a message of that text.
proof fn lemma_short_inline(text: Seq<char>)
    requires
        text.len() > 0,
    ensures
        classify("-m"@ + text) == TokenKind::InlineMessage(text),
{
    lemma_known_tokens();
    assert(("-m"@ + text).skip(2) =~= text);
}

/// `--message=` with a text behind it, an empty one too, is read as a message
/// of that text.
proof fn lemma_long_inline(text: Seq<char>)
    ensures
        classify("--message="@ + text) == TokenKind::InlineMessage(text),
{
    lemma_known_tokens();
    assert(("--message="@ + text).skip(10) =~= text);
}

/// Where the first part of the tokens does not end on a message flag without
/// a value, the scan of the whole is the scan of the second part, started
/// from the scan of the first.
pub(crate) proof fn lemma_scan_concat(
    first: Seq<Seq<char>>,
    second: Seq<Seq<char>>,
    so_far: CommitView,
)
    requires
        !dangling(first),
    ensures
        scan(first + second, so_far) == scan(second, scan(first, so_far)),
    decreases first.len(),
{
    let whole = first + second;
    if first.len() > 0 {
        if classify(first[0]) is MessageFlag {
            assert(whole.skip(2) =~= first.skip(2) + second);
            lemma_scan_concat(first.skip(2), second, so_far.with_message(Some(first[1])));
        } else {
            assert(whole.skip(1) =~= first.skip(1) + second);
            lemma_scan_concat(first.skip(1), second, so_far.absorb(first[0]));
        }
    }
}

/// Tokens that do not set the message are read one by one, leave the message
/// as it was, and are read the same way whatever the message is.
pub(crate) proof fn lemma_scan_message_free(
    tokens: Seq<Seq<char>>,
    so_far: CommitView,
    message: Option<Seq<char>>,
)
    requires
        message_free(tokens),
    ensures
        !dangling(tokens),
        scan(tokens, so_far).message == so_far.message,
        scan(tokens, so_far.with_message(message)) == scan(tokens, so_far).with_message(message),
    decreases tokens.len(),
{
    if tokens.len() > 0 {
        let rest = tokens.skip(1);
        assert forall|i: int| 0 <= i < rest.len() implies !sets_message(#[trigger] rest[i]) by {}
        lemma_scan_message_free(rest, so_far.absorb(tokens[0]), message);
    }
}

/// Scanning one way of writing a message sets that message and nothing else.
pub(crate) proof fn lemma_scan_form(form: Seq<Seq<char>>, text: Seq<char>, so_far: CommitView)
    requires
        message_forms(text).contains(form),
    ensures
        !dangling(form),
        scan(form, so_far) == so_far.with_message(Some(text)),
{
    lemma_switch_kinds();
    if form == seq!["-m"@, text] || form == seq!["--message"@, text] {
        assert(!dangling(form.skip(2)));
        assert(scan(form.skip(2), so_far.with_message(Some(text))) == so_far.with_message(
            Some(text),
        ));
    } else {
        if text.len() > 0 && form == seq!["-m"@ + text] {
            lemma_short_inline(text);
        } else {
            lemma_long_inline(text);
        }
        assert(!dangling(form.skip(1)));
        assert(scan(form.skip(1), so_far.absorb(form[0])) == so_far.absorb(form[0]));
    }
}

/// Tokens that are handed on as they are end up behind the further arguments
/// read so far, in their order, and change nothing else.
pub(crate) proof fn lemma_scan_extras(tokens: Seq<Seq<char>>, so_far: CommitView)
    requires
        forall|i: int| 0 <= i < tokens.len() ==> classify(#[trigger] tokens[i]) is Extra,
    ensures
        scan(tokens, so_far) == (CommitView {
            all: so_far.all,
            message: so_far.message,
            patch: so_far.patch,
            amend: so_far.amend,
            extra_args: so_far.extra_args + tokens,
        }),
    decreases tokens.len(),
{
    if tokens.len() > 0 {
        let rest = tokens.skip(1);
        assert forall|i: int| 0 <= i < rest.len() implies classify(#[trigger] rest[i]) is Extra by {}
        lemma_scan_extras(rest, so_far.absorb(tokens[0]));
        assert(so_far.extra_args.push(tokens[0]) + rest =~= so_far.extra_args + tokens);
    }
}

/// The scan of at most one token that is no message flag.
proof fn lemma_scan_one_or_none(tokens: Seq<Seq<char>>, so_far: CommitView)
    requires
        tokens.len() <= 1,
        tokens.len() == 1 ==> !(classify(tokens[0]) is MessageFlag),
    ensures
        !dangling(tokens),
        scan(tokens, so_far) == if tokens.len() == 0 {
            so_far
        } else {
            so_far.absorb(tokens[0])
        },
{
    if tokens.len() == 1 {
        assert(!dangling(tokens.skip(1)));
        assert(scan(tokens.skip(1), so_far.absorb(tokens[0])) == so_far.absorb(tokens[0]));
    }
}

/// The switches of an argument vector are read back as they were set.
proof fn lemma_scan_switches(all: bool, patch: bool, amend: bool)
    ensures
        scan(flag_tokens(all, patch, amend), CommitView::bare()) == (CommitView {
            all,
            message: None,
            patch,
            amend,
            extra_args: Seq::empty(),
        }),
{
    lemma_switch_kinds();
    let bare = CommitView::bare();
    let first = if all {
        seq!["--all"@]
    } else {
        Seq::empty()
    };
    let second = if patch {
        seq!["--patch"@]
    } else {
        Seq::empty()
    };
    let third = if amend {
        seq!["--amend"@]
    } else {
        Seq::empty()
    };
    lemma_scan_one_or_none(first, bare);
    let after_first = scan(first, bare);
    lemma_scan_one_or_none(second, after_first);
    let after_second = scan(second, after_first);
    lemma_scan_one_or_none(third, after_second);
    lemma_scan_concat(first, second, bare);
    lemma_scan_message_free(first + second, bare, None);
    lemma_scan_concat(first + second, third, bare);
}

/// Among tokens that do not set the message, the scan adds exactly those to
/// the further arguments that it hands on, in their order.
proof fn lemma_scan_keeps_extras(tokens: Seq<Seq<char>>, so_far: CommitView)
    requires
        message_free(tokens),
    ensures
        scan(tokens, so_far).extra_args == so_far.extra_args + handed_on(tokens),
    decreases tokens.len(),
{
    reveal_with_fuel(Seq::filter, 2);
    if tokens.len() > 0 {
        let rest = tokens.skip(1);
        assert(tokens =~= seq![tokens[0]] + rest);
        assert forall|i: int| 0 <= i < rest.len() implies !sets_message(#[trigger] rest[i]) by {}
        lemma_scan_keeps_extras(rest, so_far.absorb(tokens[0]));
    }
}

/// Arguments that do not call the commit subcommand are handed through
/// unchanged: the command holds them, and its argument vector is they.
pub proof fn passthrough_is_unchanged(args: Seq<Seq<char>>)
    requires
        !is_commit(args),
    ensures
        parse_spec(args) == GitCommandView::Other(args),
        parse_spec(args).args() == args,
{
}

/// A commit invocation that writes the message once, in any of the four ways
/// (`-m X`, `--message X`, `-mX` with a text of at least one character,
/// `--message=X`), among tokens that do not set the message, has the message
/// `X`; the rest of the invocation is what the other tokens alone give.
pub proof fn single_message_is_extracted(
    before: Seq<Seq<char>>,
    form: Seq<Seq<char>>,
    text: Seq<char>,
    after: Seq<Seq<char>>,
)
    requires
        message_free(before),
        message_free(after),
        message_forms(text).contains(form),
    ensures
        parse_spec(seq!["commit"@] + before + form + after) == GitCommandView::Commit(
            scan(before + after, CommitView::bare()).with_message(Some(text)),
        ),
{
    let bare = CommitView::bare();
    let args = seq!["commit"@] + before + form + after;
    assert(args.skip(1) =~= before + (form + after));
    lemma_scan_message_free(before, bare, None);
    lemma_scan_concat(before, form + after, bare);
    let read_before = scan(before, bare);
    lemma_scan_form(form, text, read_before);
    lemma_scan_concat(form, after, read_before);
    lemma_scan_message_free(after, read_before, Some(text));
    lemma_scan_concat(before, after, bare);
}

/// Of several messages the last one read stays: whatever stands before the
/// last way of writing a message, as long as it does not end on a message
/// flag that would take the next token, the message is the last one's.
pub proof fn last_message_wins(
    before: Seq<Seq<char>>,
    form: Seq<Seq<char>>,
    text: Seq<char>,
    after: Seq<Seq<char>>,
)
    requires
        !dangling(before),
        message_free(after),
        message_forms(text).contains(form),
    ensures
        parse_spec(seq!["commit"@] + before + form + after) matches GitCommandView::Commit(commit)
            && commit.message == Some(text),
{
    let bare = CommitView::bare();
    let args = seq!["commit"@] + before + form + after;
    assert(args.skip(1) =~= before + (form + after));
    lemma_scan_concat(before, form + after, bare);
    let read_before = scan(before, bare);
    lemma_scan_form(form, text, read_before);
    lemma_scan_concat(form, after, read_before);
    lemma_scan_message_free(after, read_before.with_message(Some(text)), None);
}

/// A message flag as the last token, with no value behind it, is dropped:
/// the invocation is what the tokens before it give.
pub proof fn trailing_flag_sets_nothing(before: Seq<Seq<char>>, flag: Seq<char>)
    requires
        !dangling(before),
        flag == "-m"@ || flag == "--message"@,
    ensures
        parse_spec(seq!["commit"@] + before + seq![flag]) == parse_spec(seq!["commit"@] + before),
{
    lemma_switch_kinds();
    let args = seq!["commit"@] + before + seq![flag];
    assert(args.skip(1) =~= before + seq![flag]);
    let shorter = seq!["commit"@] + before;
    assert(shorter.skip(1) =~= before);
    lemma_scan_concat(before, seq![flag], CommitView::bare());
}

/// A commit invocation without a message hands on every token that is no
/// switch, unchanged and in the order in which the tokens came.
pub proof fn extras_keep_their_order(tokens: Seq<Seq<char>>)
    requires
        message_free(tokens),
    ensures
        parse_spec(seq!["commit"@] + tokens) matches GitCommandView::Commit(commit)
            && commit.extra_args == handed_on(tokens) && commit.message is None,
{
    let args = seq!["commit"@] + tokens;
    assert(args.skip(1) =~= tokens);
    lemma_scan_keeps_extras(tokens, CommitView::bare());
    lemma_scan_message_free(tokens, CommitView::bare(), None);
}

/// The argument vector built from a command is read back as that command:
/// the client is handed an invocation that means what the parsed one meant.
pub proof fn rebuilt_args_parse_back(command: GitCommandView)
    requires
        command.wf(),
    ensures
        parse_spec(command.args()) == command,
{
    if let GitCommandView::Commit(commit) = command {
        let bare = CommitView::bare();
        let flags = flag_tokens(commit.all, commit.patch, commit.amend);
        let carried = message_tokens(commit.message);
        assert(commit_args(commit).skip(1) =~= flags + (carried + commit.extra_args));
        lemma_scan_switches(commit.all, commit.patch, commit.amend);
        let switches = scan(flags, bare);
        assert(message_free(flags)) by {
            lemma_switch_kinds();
        }
        lemma_scan_message_free(flags, bare, None);
        lemma_scan_concat(flags, carried + commit.extra_args, bare);
        if let Some(text) = commit.message {
            lemma_scan_form(carried, text, switches);
            lemma_scan_concat(carried, commit.extra_args, switches);
        }
        lemma_scan_extras(commit.extra_args, switches.with_message(commit.message));
    }
}

/// A commit invocation without switches and without a message is rebuilt as
/// `commit` followed by its further arguments, unchanged and in their order.
pub proof fn bare_commit_rebuilds_to_its_args(extra_args: Seq<Seq<char>>)
    ensures
        commit_args(
            CommitView { all: false, message: None, patch: false, amend: false, extra_args },
        ) == seq!["commit"@] + extra_args,
{
}

/// A commit invocation made only of tokens that are handed on as they are
/// comes out of parsing and rebuilding as it went in.
pub proof fn plain_commit_round_trips(extra_args: Seq<Seq<char>>)
    requires
        forall|i: int| 0 <= i < extra_args.len() ==> classify(#[trigger] extra_args[i]) is Extra,
    ensures
        parse_spec(seq!["commit"@] + extra_args).args() == seq!["commit"@] + extra_args,
{
    let args = seq!["commit"@] + extra_args;
    assert(args.skip(1) =~= extra_args);
    lemma_scan_extras(extra_args, CommitView::bare());
}

} // verus!
