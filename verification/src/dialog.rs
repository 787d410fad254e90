//! Native file dialogs: what the host is asked to show, and what the front
//! end is told once the user has answered.
//!
//! A dialog offers the user filters, each a label with the file extensions
//! that it stands for, written without a leading dot. The user may always
//! cancel; that is an answer like any other, never a failure.

use vstd::prelude::*;
use crate::reply::reply_view;

verus! {

/// The filters of a dialog, in the order in which they are offered: each a
/// label and the extensions that it stands for.
pub type Filters = Vec<(String, Vec<String>)>;

/// [`Filters`] as mathematical values.
pub type FiltersView = Seq<(Seq<char>, Seq<Seq<char>>)>;

/// A "save as" dialog for the host to show.
#[derive(Debug, PartialEq, Eq)]
pub struct SaveDialog {
    /// The filters to offer.
    pub filters: Filters,
    /// The file name that the dialog starts with.
    pub file_name: String,
}

/// A [`SaveDialog`] as mathematical values.
pub struct SaveDialogView {
    pub filters: FiltersView,
    pub file_name: Seq<char>,
}

impl View for SaveDialog {
    type V = SaveDialogView;

    open spec fn view(&self) -> SaveDialogView {
        SaveDialogView { filters: self.filters.deep_view(), file_name: self.file_name@ }
    }
}

/// An "open" dialog in which the user picks one file.
#[derive(Debug, PartialEq, Eq)]
pub struct PickFile {
    /// The filters to offer.
    pub filters: Filters,
}

/// An "open" dialog in which the user picks any number of files.
#[derive(Debug, PartialEq, Eq)]
pub struct PickFiles {
    /// The filters to offer.
    pub filters: Filters,
}

/// An "open" dialog for the host to show, by how many files it lets the user
/// pick.
#[derive(Debug, PartialEq, Eq)]
pub enum OpenDialog {
    One(PickFile),
    Many(PickFiles),
}

/// An [`OpenDialog`] as mathematical values.
pub enum OpenDialogView {
    One { filters: FiltersView },
    Many { filters: FiltersView },
}

impl View for OpenDialog {
    type V = OpenDialogView;

    open spec fn view(&self) -> OpenDialogView {
        match *self {
            OpenDialog::One(dialog) => OpenDialogView::One { filters: dialog.filters.deep_view() },
            OpenDialog::Many(dialog) => OpenDialogView::Many {
                filters: dialog.filters.deep_view(),
            },
        }
    }
}

/// The paths that the front end is given for the answer to a dialog that
/// lets the user pick one file: that file's path, or none where the user
/// cancelled.
pub open spec fn one_picked(choice: Option<Seq<char>>) -> Seq<Seq<char>> {
    match choice {
        Some(path) => seq![path],
        None => Seq::empty(),
    }
}

/// The paths that the front end is given for the answer to a dialog that
/// lets the user pick any number of files: the paths in the order in which
/// the dialog gave them, or none where the user cancelled.
pub open spec fn many_picked(choices: Option<Seq<Seq<char>>>) -> Seq<Seq<char>> {
    match choices {
        Some(paths) => paths,
        None => Seq::empty(),
    }
}

impl SaveDialog {
    /// Replies once the user has answered: with the path that was chosen, or
    /// with no path where the user cancelled. Neither is a failure.
    pub fn chosen(self, choice: Option<String>) -> (reply: Result<Option<String>, String>)
        ensures
            reply_view(reply) == Ok::<Option<Seq<char>>, Seq<char>>(choice.deep_view()),
            choice is None ==> reply == Ok::<Option<String>, String>(None),
    {
        Ok(choice)
    }
}

impl PickFile {
    /// Replies once the user has answered: with the one path that was
    /// chosen, or with no path where the user cancelled. Neither is a
    /// failure.
    pub fn chosen(self, choice: Option<String>) -> (reply: Result<Vec<String>, String>)
        ensures
            reply_view(reply) == Ok::<Seq<Seq<char>>, Seq<char>>(one_picked(choice.deep_view())),
            reply is Ok,
            reply->Ok_0@.len() <= 1,
            choice is None <==> reply->Ok_0@.len() == 0,
    {
        let mut paths: Vec<String> = Vec::new();
        match choice {
            Some(path) => {
                paths.push(path);
                assert(paths.deep_view() =~= one_picked(choice.deep_view()));
            },
            None => {
                assert(paths.deep_view() =~= one_picked(choice.deep_view()));
            },
        }
        Ok(paths)
    }
}

impl PickFiles {
    /// Replies once the user has answered: with every path that was chosen,
    /// in the dialog's order, or with no path where the user cancelled.
    /// Neither is a failure.
    pub fn chosen(self, choices: Option<Vec<String>>) -> (reply: Result<Vec<String>, String>)
        ensures
            reply_view(reply) == Ok::<Seq<Seq<char>>, Seq<char>>(
                many_picked(choices.deep_view()),
            ),
            reply is Ok,
            reply->Ok_0@.len() == many_picked(choices.deep_view()).len(),
            choices is None ==> reply->Ok_0@.len() == 0,
    {
        match choices {
            Some(paths) => Ok(paths),
            None => {
                let paths: Vec<String> = Vec::new();
                assert(paths.deep_view() =~= many_picked(choices.deep_view()));
                Ok(paths)
            },
        }
    }
}

} // verus!
