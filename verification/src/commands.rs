//! The commands that the front end can invoke.
//!
//! A command that needs the operating system takes what the host obtained
//! from it and decides the reply.

use vstd::prelude::*;
use crate::dialog::{
    many_picked,
    one_picked,
    Filters,
    FiltersView,
    OpenDialog,
    OpenDialogView,
    PickFile,
    PickFiles,
    SaveDialog,
    SaveDialogView,
};
use crate::failure::{
    contains_phrase,
    lemma_read_failure_names_the_step,
    read_failure,
    read_failure_message,
};
use crate::reply::reply_view;
use crate::write::{parent_dir, path_parent, WriteFile, WriteFileView};

verus! {

/// What the front end is told when it asks for a file's contents: the text
/// that the host read, or the message for a failed read.
pub open spec fn spec_read_file(read: Result<Seq<char>, Seq<char>>) -> Result<
    Seq<char>,
    Seq<char>,
> {
    match read {
        Ok(text) => Ok(text),
        Err(cause) => Err(read_failure(cause)),
    }
}

/// Replies to a request for the application's data directory.
///
/// `resolved` is what the host's path resolver answered, the path as text and
/// a failure as its message. The reply is that answer: the path, or the
/// resolver's own message with nothing put before it.
pub fn get_data_dir(resolved: Result<String, String>) -> (reply: Result<String, String>)
    ensures
        reply_view(reply) == reply_view(resolved),
{
    resolved
}

/// Replies to a request for a file's contents.
///
/// `read` is what reading the whole file as text gave, a failure as the
/// operating system's description of it.
pub fn read_file(read: Result<String, String>) -> (reply: Result<String, String>)
    ensures
        reply_view(reply) == spec_read_file(reply_view(read)),
        read is Err ==> reply is Err && contains_phrase(
            reply->Err_0@,
            "Failed to read file"@,
        ),
{
    match read {
        Ok(text) => Ok(text),
        Err(cause) => {
            proof {
                lemma_read_failure_names_the_step(cause@);
            }
            Err(read_failure_message(cause.as_str()))
        },
    }
}

/// Starts a write of `content` to the file at `path`.
///
/// The result says what the host is asked to do first: to create the
/// directory that holds `path`, with every missing directory above it, where
/// the path names such a directory, and else to write the file. The host
/// hands each outcome to [`WriteFile::advance`] until the write is over.
pub fn write_file(path: String, content: String) -> (job: WriteFile)
    ensures
        job@ == WriteFileView::begin(path_parent(path@), path@, content@),
        job is CreateDirAll || job is Write,
{
    let parent = parent_dir(path.as_str());
    WriteFile::begin(parent, path, content)
}

/// The "save as" dialog that starts with the file name `default_name` and
/// offers `filters`.
pub open spec fn spec_show_save_dialog(
    default_name: Seq<char>,
    filters: FiltersView,
) -> SaveDialogView {
    SaveDialogView { filters, file_name: default_name }
}

/// The "open" dialog that offers `filters`: one that lets the user pick any
/// number of files where `multiple` is set, and else one that lets the user
/// pick a single file.
pub open spec fn spec_show_open_dialog(multiple: bool, filters: FiltersView) -> OpenDialogView {
    if multiple {
        OpenDialogView::Many { filters }
    } else {
        OpenDialogView::One { filters }
    }
}

/// Prepares a "save as" dialog that starts with the file name
/// `default_name` and offers `filters` in their order.
///
/// The host shows the dialog, waits for the user, and hands the answer to
/// [`SaveDialog::chosen`].
pub fn show_save_dialog(default_name: String, filters: Filters) -> (dialog: SaveDialog)
    ensures
        dialog@ == spec_show_save_dialog(default_name@, filters.deep_view()),
{
    SaveDialog { filters, file_name: default_name }
}

/// Prepares an "open" dialog that offers `filters` in their order, for any
/// number of files where `multiple` is set and else for a single file.
///
/// The host shows the dialog, waits for the user, and hands the answer to
/// [`PickFile::chosen`] or to [`PickFiles::chosen`].
pub fn show_open_dialog(multiple: bool, filters: Filters) -> (dialog: OpenDialog)
    ensures
        dialog@ == spec_show_open_dialog(multiple, filters.deep_view()),
        multiple <==> dialog is Many,
{
    if multiple {
        OpenDialog::Many(PickFiles { filters })
    } else {
        OpenDialog::One(PickFile { filters })
    }
}

/// Text that is written to a path comes back when it is read from there:
/// the host is asked to store `content` at `path` unchanged, whether or not
/// a directory chain is created first, and a read replies with the text
/// that the host found, unchanged. So a host that finds at a path what it
/// stored there gives the front end exactly what it wrote.
pub proof fn lemma_write_then_read_round_trip(path: Seq<char>, content: Seq<char>)
    ensures
        ({
            let job = WriteFileView::begin(path_parent(path), path, content);
            let at_file = if job is CreateDirAll {
                job.advance(Ok(()))
            } else {
                job
            };
            at_file == (WriteFileView::Write { path, content })
        }),
        spec_read_file(Ok(content)) == Ok::<Seq<char>, Seq<char>>(content),
{
}

/// A dialog for a single file gives the front end at most one path,
/// whatever the user answers; a dialog for several files gives every path
/// that the user picked, however many.
pub proof fn lemma_open_dialog_path_count(
    filters: FiltersView,
    choice: Option<Seq<char>>,
    paths: Seq<Seq<char>>,
)
    ensures
        spec_show_open_dialog(false, filters) is One,
        one_picked(choice).len() <= 1,
        spec_show_open_dialog(true, filters) is Many,
        many_picked(Some(paths)) == paths,
{
}

/// A dialog that the user cancelled gives the front end no path.
pub proof fn lemma_cancelled_dialog_gives_no_path()
    ensures
        one_picked(None).len() == 0,
        many_picked(None).len() == 0,
{
}

/// Tells the front end that it runs inside the native desktop shell rather
/// than in a plain browser.
pub fn is_desktop() -> (desktop: bool)
    ensures
        desktop,
{
    true
}

} // verus!
