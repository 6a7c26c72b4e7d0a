//! What an editor has to tell its user besides the text: which document is
//! open, or what went wrong last.

use vstd::prelude::*;
use crate::editor::{EditorModel, EditorState};
use crate::error::ErrorKind;

verus! {

/// What the status line of an editor shows.
#[derive(Debug, PartialEq, Eq)]
pub enum Status<'a> {
    /// The failure met last. Every failure is shown, until it is cleared.
    Failure(ErrorKind),
    /// The path of the document.
    Document(&'a str),
    /// The document has no path yet.
    Untitled,
}

/// A `Status` with its path as a character sequence.
pub enum StatusModel {
    Failure(ErrorKind),
    Document(Seq<char>),
    Untitled,
}

impl<'a> View for Status<'a> {
    type V = StatusModel;

    open spec fn view(&self) -> StatusModel {
        match *self {
            Status::Failure(error) => StatusModel::Failure(error),
            Status::Document(path) => StatusModel::Document(path@),
            Status::Untitled => StatusModel::Untitled,
        }
    }
}

impl EditorModel {
    /// What the status line shows in this state: the last error while there
    /// is one, else the path of the document, else that it has none.
    pub open spec fn status(self) -> StatusModel {
        match (self.last_error, self.path) {
            (Some(error), _) => StatusModel::Failure(error),
            (None, Some(path)) => StatusModel::Document(path),
            (None, None) => StatusModel::Untitled,
        }
    }
}

impl EditorState {
    /// What the status line shows. See `EditorModel::status`.
    pub fn status(&self) -> (status: Status<'_>)
        ensures
            status@ == self@.status(),
    {
        match self.last_error() {
            Some(error) => Status::Failure(error),
            None => match self.path() {
                Some(path) => Status::Document(path.as_str()),
                None => Status::Untitled,
            },
        }
    }
}

} // verus!
