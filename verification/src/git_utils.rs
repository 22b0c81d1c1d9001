//! What the version-control client's output means: whether a staged diff was
//! collected, and the status with which the wrapper ends after the client
//! has run. Running the client is left to the caller.

use vstd::prelude::*;
use vstd::utf8::{decode_utf8, valid_utf8};

verus! {

/// The characters that `String::from_utf8_lossy` makes of the bytes.
pub uninterp spec fn lossy_text(bytes: Seq<u8>) -> Seq<char>;

/// Whether `char::is_whitespace` holds of the character.
pub uninterp spec fn white_space(c: char) -> bool;

/// Calls `String::from_utf8_lossy` and takes the result as an owned string.
/// The result depends on the bytes alone; well-formed UTF-8 is decoded as it
/// stands, and only ill-formed parts are replaced.
#[verifier::external_body]
fn decode_lossy(bytes: &[u8]) -> (text: String)
    ensures
        text@ == lossy_text(bytes@),
        valid_utf8(bytes@) ==> text@ == decode_utf8(bytes@),
{
    String::from_utf8_lossy(bytes).into_owned()
}

/// Calls `char::is_whitespace`, which says whether the character has the
/// Unicode property White_Space. The result depends on the character alone.
#[verifier::external_body]
fn is_whitespace(c: char) -> (white: bool)
    ensures
        white == white_space(c),
{
    c.is_whitespace()
}

/// A text is blank where it holds nothing but white space, so that nothing
/// is left of it when it is trimmed.
pub open spec fn blank_text(text: Seq<char>) -> bool {
    forall|i: int| 0 <= i < text.len() ==> white_space(#[trigger] text[i])
}

/// Whether the text is blank.
pub fn is_blank(text: &str) -> (blank: bool)
    ensures
        blank == blank_text(text@),
{
    for c in it: text.chars()
        invariant
            it.seq() == text@,
            forall|j: int| 0 <= j < it.index() ==> white_space(#[trigger] text@[j]),
    {
        if !is_whitespace(c) {
            return false;
        }
    }
    true
}

/// Why no staged diff was collected.
#[derive(Debug, Clone, Copy, PartialEq, Eq, Structural)]
pub enum DiffError {
    /// The client did not end successfully.
    CommandFailed,
    /// The client printed nothing but white space: nothing is staged.
    NoStagedChanges,
}

/// What the client's run means for the diff: a failed run and a blank output
/// are errors, in this order; any other output is the diff, as it stands.
pub open spec fn diff_outcome(succeeded: bool, content: Seq<char>) -> Result<Seq<char>, DiffError> {
    if !succeeded {
        Err(DiffError::CommandFailed)
    } else if blank_text(content) {
        Err(DiffError::NoStagedChanges)
    } else {
        Ok(content)
    }
}

/// The model of a collected diff.
pub open spec fn diff_view(result: Result<String, DiffError>) -> Result<Seq<char>, DiffError> {
    match result {
        Ok(content) => Ok(content@),
        Err(error) => Err(error),
    }
}

/// Judges the text that the client printed for the staged diff.
pub fn check_diff(succeeded: bool, content: String) -> (result: Result<String, DiffError>)
    ensures
        diff_view(result) == diff_outcome(succeeded, content@),
        result is Ok ==> result == Ok::<String, DiffError>(content),
{
    if !succeeded {
        Err(DiffError::CommandFailed)
    } else if is_blank(content.as_str()) {
        Err(DiffError::NoStagedChanges)
    } else {
        Ok(content)
    }
}

/// Judges the bytes that the client printed for the staged diff: they are
/// read as UTF-8, ill-formed parts replaced, and judged as `check_diff` says.
pub fn staged_diff(succeeded: bool, stdout: &[u8]) -> (result: Result<String, DiffError>)
    ensures
        diff_view(result) == diff_outcome(succeeded, lossy_text(stdout@)),
        valid_utf8(stdout@) ==> diff_view(result) == diff_outcome(succeeded, decode_utf8(stdout@)),
{
    if !succeeded {
        return Err(DiffError::CommandFailed);
    }
    check_diff(succeeded, decode_lossy(stdout))
}

impl DiffError {
    /// What the user is told.
    pub open spec fn message_text(self) -> Seq<char> {
        match self {
            DiffError::CommandFailed => "Git diff command failed"@,
            DiffError::NoStagedChanges => "No staged changes detected."@,
        }
    }

    /// What the user is told.
    pub fn message(&self) -> (message: String)
        ensures
            message@ == self.message_text(),
    {
        match self {
            DiffError::CommandFailed => "Git diff command failed".to_owned(),
            DiffError::NoStagedChanges => "No staged changes detected.".to_owned(),
        }
    }
}

/// The status with which the wrapper ends after the client has run: 0 after
/// a successful run, else the client's own status, or 1 where it has none.
pub open spec fn exit_status_spec(succeeded: bool, code: Option<i32>) -> i32 {
    if succeeded {
        0
    } else {
        match code {
            Some(status) => status,
            None => 1,
        }
    }
}

/// The status with which the wrapper ends after the client has run.
pub fn exit_status(succeeded: bool, code: Option<i32>) -> (status: i32)
    ensures
        status == exit_status_spec(succeeded, code),
{
    if succeeded {
        0
    } else {
        match code {
            Some(status) => status,
            None => 1,
        }
    }
}

} // verus!
