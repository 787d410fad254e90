//! Writing a file, one request to the host at a time.
//!
//! A write may need two things of the operating system: the directory that
//! is to hold the file, with every directory above it, and then the file
//! itself. A [`WriteFile`] says which of the two is asked for next, takes the
//! outcome, and ends with the reply for the front end.

use vstd::prelude::*;
use crate::failure::{
    create_dir_failure,
    create_dir_failure_message,
    write_failure,
    write_failure_message,
};
use crate::reply::reply_view;

verus! {

/// A write in progress: what the host is asked to do next, or the reply once
/// nothing is left to do.
#[derive(Debug, PartialEq, Eq)]
pub enum WriteFile {
    /// The host creates the directory `dir` and every missing directory above
    /// it; `content` waits to be written to `path`.
    CreateDirAll { dir: String, path: String, content: String },
    /// The host writes `content` to `path`, replacing what the file held.
    Write { path: String, content: String },
    /// The write is over, with this reply.
    Done { reply: Result<(), String> },
}

/// A [`WriteFile`] as mathematical values.
pub enum WriteFileView {
    CreateDirAll { dir: Seq<char>, path: Seq<char>, content: Seq<char> },
    Write { path: Seq<char>, content: Seq<char> },
    Done { reply: Result<(), Seq<char>> },
}

impl View for WriteFile {
    type V = WriteFileView;

    open spec fn view(&self) -> WriteFileView {
        match *self {
            WriteFile::CreateDirAll { dir, path, content } => WriteFileView::CreateDirAll {
                dir: dir@,
                path: path@,
                content: content@,
            },
            WriteFile::Write { path, content } => WriteFileView::Write {
                path: path@,
                content: content@,
            },
            WriteFile::Done { reply } => WriteFileView::Done { reply: reply_view(reply) },
        }
    }
}

impl WriteFileView {
    /// The first request of a write of `content` to `path`, where `parent`
    /// is the directory that holds `path`, if the path names one.
    pub open spec fn begin(
        parent: Option<Seq<char>>,
        path: Seq<char>,
        content: Seq<char>,
    ) -> WriteFileView {
        match parent {
            Some(dir) => WriteFileView::CreateDirAll { dir, path, content },
            None => WriteFileView::Write { path, content },
        }
    }

    /// The write after the host reported `outcome` for the pending request.
    /// A write that is over stays as it is.
    pub open spec fn advance(self, outcome: Result<(), Seq<char>>) -> WriteFileView {
        match self {
            WriteFileView::CreateDirAll { dir, path, content } => match outcome {
                Ok(_) => WriteFileView::Write { path, content },
                Err(cause) => WriteFileView::Done { reply: Err(create_dir_failure(cause)) },
            },
            WriteFileView::Write { path, content } => match outcome {
                Ok(_) => WriteFileView::Done { reply: Ok(()) },
                Err(cause) => WriteFileView::Done { reply: Err(write_failure(cause)) },
            },
            WriteFileView::Done { .. } => self,
        }
    }

    /// The reply that the write reaches when the host answers a request for
    /// the directory chain with `dir_outcome` and a request for the file with
    /// `write_outcome`.
    pub open spec fn reply_with(
        self,
        dir_outcome: Result<(), Seq<char>>,
        write_outcome: Result<(), Seq<char>>,
    ) -> Result<(), Seq<char>> {
        let at_file = if self is CreateDirAll {
            self.advance(dir_outcome)
        } else {
            self
        };
        let at_end = if at_file is Write {
            at_file.advance(write_outcome)
        } else {
            at_file
        };
        at_end->reply
    }
}

/// The reply to a write, told from the outcomes alone: the failure of the
/// directory chain where the path has a parent and creating it failed, else
/// the failure of the file where writing it failed, else success.
pub open spec fn write_reply(
    parent: Option<Seq<char>>,
    dir_outcome: Result<(), Seq<char>>,
    write_outcome: Result<(), Seq<char>>,
) -> Result<(), Seq<char>> {
    if parent is Some && dir_outcome is Err {
        Err(create_dir_failure(dir_outcome->Err_0))
    } else {
        match write_outcome {
            Ok(_) => Ok(()),
            Err(cause) => Err(write_failure(cause)),
        }
    }
}

/// The directory that holds `path`, as [`std::path::Path::parent`] tells it:
/// the path without its last component, or nothing where the path has no
/// such component. The answer depends on the characters of the path alone,
/// read by the path syntax of the platform that the library is built for.
pub uninterp spec fn path_parent(path: Seq<char>) -> Option<Seq<char>>;

/// Calls [`std::path::Path::parent`] on `path` and hands the directory back
/// as text. Nothing is proved of this function. Its contract claims only
/// that the answer is the one that [`path_parent`] names, so that the same
/// path has the same parent every time; which directory that is, the
/// standard library alone decides.
#[verifier::external_body]
pub(crate) fn parent_dir(path: &str) -> (parent: Option<String>)
    ensures
        parent.deep_view() == path_parent(path@),
{
    match std::path::Path::new(path).parent() {
        Some(dir) => Some(dir.to_string_lossy().into_owned()),
        None => None,
    }
}

impl WriteFile {
    /// Starts a write of `content` to `path`, where `parent` is the
    /// directory that holds `path`, if the path names one. With a parent the
    /// directory chain comes first, without one the file itself.
    pub fn begin(parent: Option<String>, path: String, content: String) -> (job: WriteFile)
        ensures
            job@ == WriteFileView::begin(parent.deep_view(), path@, content@),
    {
        match parent {
            Some(dir) => WriteFile::CreateDirAll { dir, path, content },
            None => WriteFile::Write { path, content },
        }
    }

    /// Takes the host's `outcome` for the pending request, a failure as the
    /// operating system's description of it, and moves on: from the
    /// directory chain to the file, from the file to a reply of success, and
    /// from any failure to a reply that names the step which failed. A write
    /// that is over stays as it is.
    pub fn advance(self, outcome: Result<(), String>) -> (next: WriteFile)
        ensures
            next@ == self@.advance(reply_view(outcome)),
    {
        match self {
            WriteFile::CreateDirAll { dir, path, content } => match outcome {
                Ok(_) => WriteFile::Write { path, content },
                Err(cause) => WriteFile::Done {
                    reply: Err(create_dir_failure_message(cause.as_str())),
                },
            },
            WriteFile::Write { path, content } => match outcome {
                Ok(_) => WriteFile::Done { reply: Ok(()) },
                Err(cause) => WriteFile::Done { reply: Err(write_failure_message(cause.as_str())) },
            },
            WriteFile::Done { reply } => WriteFile::Done { reply },
        }
    }
}

/// A write is over after at most two outcomes, whatever they are and
/// wherever it stood.
pub proof fn lemma_write_ends_after_two_outcomes(
    job: WriteFileView,
    first: Result<(), Seq<char>>,
    second: Result<(), Seq<char>>,
)
    ensures
        job.advance(first).advance(second) is Done,
{
}

/// A write that is over is not moved by any further outcome.
pub proof fn lemma_finished_write_stays(job: WriteFileView, outcome: Result<(), Seq<char>>)
    requires
        job is Done,
    ensures
        job.advance(outcome) == job,
{
}

/// A write that begins at a path replies as [`write_reply`] says: with
/// success exactly when the host succeeded at every step it was asked for,
/// and else with the failure of the first step that failed.
pub proof fn lemma_write_reply(
    parent: Option<Seq<char>>,
    path: Seq<char>,
    content: Seq<char>,
    dir_outcome: Result<(), Seq<char>>,
    write_outcome: Result<(), Seq<char>>,
)
    ensures
        WriteFileView::begin(parent, path, content).reply_with(dir_outcome, write_outcome)
            == write_reply(parent, dir_outcome, write_outcome),
        write_reply(parent, dir_outcome, write_outcome) is Ok <==> (parent is Some
            ==> dir_outcome is Ok) && write_outcome is Ok,
{
}

/// Nothing is written where the directory chain could not be created: the
/// write ends at once, with the message for the directory.
pub proof fn lemma_no_write_without_directory(
    dir: Seq<char>,
    path: Seq<char>,
    content: Seq<char>,
    cause: Seq<char>,
)
    ensures
        WriteFileView::begin(Some(dir), path, content).advance(Err(cause)) == (WriteFileView::Done {
            reply: Err(create_dir_failure(cause)),
        }),
{
}

/// A path in a directory that may not exist yet is written all the same:
/// the host is first asked for the whole directory chain, then for the file
/// with the content unchanged, and where it succeeds at both the reply is
/// success.
pub proof fn lemma_write_creates_parent_first(
    dir: Seq<char>,
    path: Seq<char>,
    content: Seq<char>,
)
    ensures
        ({
            let job = WriteFileView::begin(Some(dir), path, content);
            &&& job == (WriteFileView::CreateDirAll { dir, path, content })
            &&& job.advance(Ok(())) == (WriteFileView::Write { path, content })
            &&& job.advance(Ok(())).advance(Ok(())) == (WriteFileView::Done { reply: Ok(()) })
        }),
{
}

} // verus!
