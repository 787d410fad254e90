//! The messages that tell the front end why a file command failed.
//!
//! A failure of the operating system reaches the front end as the system's
//! own description behind a short phrase that names the step which failed.

use vstd::prelude::*;

verus! {

/// The message for a file that could not be read.
pub open spec fn read_failure(cause: Seq<char>) -> Seq<char> {
    "Failed to read file: "@ + cause
}

/// The message for a file that could not be written.
pub open spec fn write_failure(cause: Seq<char>) -> Seq<char> {
    "Failed to write file: "@ + cause
}

/// The message for a directory chain that could not be created.
pub open spec fn create_dir_failure(cause: Seq<char>) -> Seq<char> {
    "Failed to create directory: "@ + cause
}

/// Whether `phrase` occurs in `text` as a run of consecutive characters.
pub open spec fn contains_phrase(text: Seq<char>, phrase: Seq<char>) -> bool {
    exists|at: int|
        0 <= at && at + phrase.len() <= text.len() && #[trigger] text.subrange(
            at,
            at + phrase.len(),
        ) == phrase
}

/// Builds the message for a file that could not be read.
pub fn read_failure_message(cause: &str) -> (message: String)
    ensures
        message@ == read_failure(cause@),
{
    String::from_str("Failed to read file: ").concat(cause)
}

/// Builds the message for a file that could not be written.
pub fn write_failure_message(cause: &str) -> (message: String)
    ensures
        message@ == write_failure(cause@),
{
    String::from_str("Failed to write file: ").concat(cause)
}

/// Builds the message for a directory chain that could not be created.
pub fn create_dir_failure_message(cause: &str) -> (message: String)
    ensures
        message@ == create_dir_failure(cause@),
{
    String::from_str("Failed to create directory: ").concat(cause)
}

/// Every message for a file that could not be read holds the phrase
/// `Failed to read file`, whatever the cause.
pub proof fn lemma_read_failure_names_the_step(cause: Seq<char>)
    ensures
        contains_phrase(read_failure(cause), "Failed to read file"@),
{
    reveal_strlit("Failed to read file: ");
    reveal_strlit("Failed to read file");
    let text = read_failure(cause);
    let phrase = "Failed to read file"@;
    let at: int = 0;
    assert(text.subrange(at, at + phrase.len()) =~= phrase);
}

/// Every message for a file that could not be written holds the phrase
/// `Failed to write file`, whatever the cause.
pub proof fn lemma_write_failure_names_the_step(cause: Seq<char>)
    ensures
        contains_phrase(write_failure(cause), "Failed to write file"@),
{
    reveal_strlit("Failed to write file: ");
    reveal_strlit("Failed to write file");
    let text = write_failure(cause);
    let phrase = "Failed to write file"@;
    let at: int = 0;
    assert(text.subrange(at, at + phrase.len()) =~= phrase);
}

/// Every message for a directory chain that could not be created holds the
/// phrase `Failed to create directory`, whatever the cause.
pub proof fn lemma_create_dir_failure_names_the_step(cause: Seq<char>)
    ensures
        contains_phrase(create_dir_failure(cause), "Failed to create directory"@),
{
    reveal_strlit("Failed to create directory: ");
    reveal_strlit("Failed to create directory");
    let text = create_dir_failure(cause);
    let phrase = "Failed to create directory"@;
    let at: int = 0;
    assert(text.subrange(at, at + phrase.len()) =~= phrase);
}

} // verus!
