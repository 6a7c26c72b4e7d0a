//! Running an effect to its end.
//!
//! An effect is outside work: a dialog to show, a file to read or to write.
//! The host does that work and reports what came of it as a `Completion`.
//! `PendingEffect::resolve` decides what follows: the event that ends the
//! effect, or the effect that has to run next. A host therefore needs no
//! rule of its own: it performs, resolves, and goes on until an event comes
//! out, which it hands to the editor.

use vstd::prelude::*;
use crate::error::ErrorKind;
use crate::event::{EffectModel, Event, EventModel, PendingEffect};
use crate::event::text_view;

verus! {

/// What came of the outside work that an effect stands for.
#[derive(Debug, PartialEq, Eq)]
pub enum Completion {
    /// A file dialog closed: with the path that was chosen, or with none
    /// where the user cancelled or the dialog could not be shown.
    Chosen(Option<String>),
    /// Reading a file ended: with its content, or with the kind of failure.
    Read(Result<String, std::io::ErrorKind>),
    /// Writing a file ended: well, or with the kind of failure.
    Written(Result<(), std::io::ErrorKind>),
}

/// A `Completion` with its paths and texts as character sequences.
pub enum CompletionModel {
    Chosen(Option<Seq<char>>),
    Read(Result<Seq<char>, std::io::ErrorKind>),
    Written(Result<(), std::io::ErrorKind>),
}

impl View for Completion {
    type V = CompletionModel;

    open spec fn view(&self) -> CompletionModel {
        match *self {
            Completion::Chosen(path) => CompletionModel::Chosen(text_view(path)),
            Completion::Read(Ok(content)) => CompletionModel::Read(Ok(content@)),
            Completion::Read(Err(kind)) => CompletionModel::Read(Err(kind)),
            Completion::Written(written) => CompletionModel::Written(written),
        }
    }
}

/// How far an effect has come.
#[derive(Debug, PartialEq, Eq)]
pub enum Progress {
    /// More outside work is needed: this effect runs next.
    Next(PendingEffect),
    /// The effect has ended, and this event reports how.
    Done(Event),
}

/// A `Progress` with its paths and texts as character sequences.
pub enum ProgressModel {
    Next(EffectModel),
    Done(EventModel),
}

impl View for Progress {
    type V = ProgressModel;

    open spec fn view(&self) -> ProgressModel {
        match *self {
            Progress::Next(effect) => ProgressModel::Next(effect@),
            Progress::Done(event) => ProgressModel::Done(event@),
        }
    }
}

impl EffectModel {
    /// Whether `completion` reports on the work that this effect stands
    /// for: a choice for an effect that shows a dialog, what was read for
    /// one that loads, and how the writing went for one that saves.
    pub open spec fn answered_by(self, completion: CompletionModel) -> bool {
        match self {
            EffectModel::PickFileToOpen => completion is Chosen,
            EffectModel::PickFileToSave(_) => completion is Chosen,
            EffectModel::LoadFile(_) => completion is Read,
            EffectModel::SaveFile(_, _) => completion is Written,
        }
    }

    /// What follows when `completion` arrives for this effect.
    ///
    /// - A chosen path turns an effect that picks into the one that loads
    ///   from that path, or saves the text to it. No choice ends the effect
    ///   with a `DialogError`.
    /// - A file that was read ends the load with its path and content; a
    ///   file that was written ends the save with its path. A failure to
    ///   read or write ends the effect with an `IoError` of the same kind.
    /// - A completion that does not answer this effect changes nothing: the
    ///   effect is still to run.
    pub open spec fn resolve(self, completion: CompletionModel) -> ProgressModel {
        match (self, completion) {
            (EffectModel::PickFileToOpen, CompletionModel::Chosen(Some(path))) => {
                ProgressModel::Next(EffectModel::LoadFile(path))
            },
            (EffectModel::PickFileToOpen, CompletionModel::Chosen(None)) => {
                ProgressModel::Done(EventModel::FileOpened(Err(ErrorKind::DialogError)))
            },
            (EffectModel::PickFileToSave(text), CompletionModel::Chosen(Some(path))) => {
                ProgressModel::Next(EffectModel::SaveFile(path, text))
            },
            (EffectModel::PickFileToSave(_), CompletionModel::Chosen(None)) => {
                ProgressModel::Done(EventModel::FileSaved(Err(ErrorKind::DialogError)))
            },
            (EffectModel::LoadFile(path), CompletionModel::Read(Ok(content))) => {
                ProgressModel::Done(EventModel::FileOpened(Ok((path, content))))
            },
            (EffectModel::LoadFile(_), CompletionModel::Read(Err(kind))) => {
                ProgressModel::Done(EventModel::FileOpened(Err(ErrorKind::IoError(kind))))
            },
            (EffectModel::SaveFile(path, _), CompletionModel::Written(Ok(_))) => {
                ProgressModel::Done(EventModel::FileSaved(Ok(path)))
            },
            (EffectModel::SaveFile(_, _), CompletionModel::Written(Err(kind))) => {
                ProgressModel::Done(EventModel::FileSaved(Err(ErrorKind::IoError(kind))))
            },
            (effect, _) => ProgressModel::Next(effect),
        }
    }
}

impl PendingEffect {
    /// Decides what follows when `completion` arrives for this effect. See
    /// `EffectModel::resolve`.
    pub fn resolve(self, completion: Completion) -> (progress: Progress)
        ensures
            progress@ == self@.resolve(completion@),
    {
        match (self, completion) {
            (PendingEffect::PickFileToOpen, Completion::Chosen(Some(path))) => {
                Progress::Next(PendingEffect::LoadFile(path))
            },
            (PendingEffect::PickFileToOpen, Completion::Chosen(None)) => {
                Progress::Done(Event::FileOpened(Err(ErrorKind::DialogError)))
            },
            (PendingEffect::PickFileToSave(text), Completion::Chosen(Some(path))) => {
                Progress::Next(PendingEffect::SaveFile(path, text))
            },
            (PendingEffect::PickFileToSave(_), Completion::Chosen(None)) => {
                Progress::Done(Event::FileSaved(Err(ErrorKind::DialogError)))
            },
            (PendingEffect::LoadFile(path), Completion::Read(Ok(content))) => {
                Progress::Done(Event::FileOpened(Ok((path, content))))
            },
            (PendingEffect::LoadFile(_), Completion::Read(Err(kind))) => {
                Progress::Done(Event::FileOpened(Err(ErrorKind::IoError(kind))))
            },
            (PendingEffect::SaveFile(path, _), Completion::Written(Ok(_))) => {
                Progress::Done(Event::FileSaved(Ok(path)))
            },
            (PendingEffect::SaveFile(_, _), Completion::Written(Err(kind))) => {
                Progress::Done(Event::FileSaved(Err(ErrorKind::IoError(kind))))
            },
            (effect, _) => Progress::Next(effect),
        }
    }
}

/// Every effect ends, and with one event: the completion that answers it
/// either ends it, or leaves an effect that its own answer ends.
pub proof fn lemma_effect_ends(
    effect: EffectModel,
    first: CompletionModel,
    second: CompletionModel,
)
    requires
        effect.answered_by(first),
    ensures
        match effect.resolve(first) {
            ProgressModel::Done(event) => event is FileOpened || event is FileSaved,
            ProgressModel::Next(next) => next.answered_by(second) ==> next.resolve(
                second,
            ) is Done,
        },
{
}

} // verus!
