//! What reaches the editor, and what it asks for in return.
//!
//! An `Event` is a keystroke, a request of the user or the outcome of an
//! effect. A `PendingEffect` is work that the editor cannot do itself: the
//! host performs it and reports the outcome as an event. Each type has a
//! model in which every text is a sequence of characters.

use vstd::prelude::*;
use crate::action::EditAction;
use crate::error::ErrorKind;

verus! {

/// Work for the host to do on the editor's behalf.
#[derive(Debug, PartialEq, Eq)]
pub enum PendingEffect {
    /// Read the file at a path.
    LoadFile(String),
    /// Let the user choose a file, then read it.
    PickFileToOpen,
    /// Let the user choose where to save a text, then write it there.
    PickFileToSave(String),
    /// Write a text to the file at a path.
    SaveFile(String, String),
}

/// A `PendingEffect` with its paths and texts as character sequences.
pub enum EffectModel {
    LoadFile(Seq<char>),
    PickFileToOpen,
    PickFileToSave(Seq<char>),
    SaveFile(Seq<char>, Seq<char>),
}

impl View for PendingEffect {
    type V = EffectModel;

    open spec fn view(&self) -> EffectModel {
        match *self {
            PendingEffect::LoadFile(path) => EffectModel::LoadFile(path@),
            PendingEffect::PickFileToOpen => EffectModel::PickFileToOpen,
            PendingEffect::PickFileToSave(text) => EffectModel::PickFileToSave(text@),
            PendingEffect::SaveFile(path, text) => EffectModel::SaveFile(path@, text@),
        }
    }
}

/// Which effect is meant, without what it carries.
#[derive(Clone, Copy, Debug, PartialEq, Eq, Structural)]
pub enum EffectKind {
    LoadFile,
    PickFileToOpen,
    PickFileToSave,
    SaveFile,
}

impl EffectModel {
    /// The kind of this effect.
    pub open spec fn kind(self) -> EffectKind {
        match self {
            EffectModel::LoadFile(_) => EffectKind::LoadFile,
            EffectModel::PickFileToOpen => EffectKind::PickFileToOpen,
            EffectModel::PickFileToSave(_) => EffectKind::PickFileToSave,
            EffectModel::SaveFile(_, _) => EffectKind::SaveFile,
        }
    }
}

impl Clone for PendingEffect {
    /// A copy that asks for the same work.
    fn clone(&self) -> (copy: PendingEffect)
        ensures
            copy@ == self@,
    {
        match self {
            PendingEffect::LoadFile(path) => PendingEffect::LoadFile(path.clone()),
            PendingEffect::PickFileToOpen => PendingEffect::PickFileToOpen,
            PendingEffect::PickFileToSave(text) => PendingEffect::PickFileToSave(text.clone()),
            PendingEffect::SaveFile(path, text) => PendingEffect::SaveFile(
                path.clone(),
                text.clone(),
            ),
        }
    }
}

impl PendingEffect {
    /// The kind of this effect.
    pub fn kind(&self) -> (kind: EffectKind)
        ensures
            kind == self@.kind(),
    {
        match self {
            PendingEffect::LoadFile(_) => EffectKind::LoadFile,
            PendingEffect::PickFileToOpen => EffectKind::PickFileToOpen,
            PendingEffect::PickFileToSave(_) => EffectKind::PickFileToSave,
            PendingEffect::SaveFile(_, _) => EffectKind::SaveFile,
        }
    }
}

/// An optional effect as its model.
pub open spec fn effect_view(effect: Option<PendingEffect>) -> Option<EffectModel> {
    match effect {
        Some(effect) => Some(effect@),
        None => None,
    }
}

/// An optional path or text as characters.
pub open spec fn text_view(text: Option<String>) -> Option<Seq<char>> {
    match text {
        Some(text) => Some(text@),
        None => None,
    }
}

/// Something that happened and that the editor has to take in.
#[derive(Debug, PartialEq, Eq)]
pub enum Event {
    /// The user edited the text or moved in it.
    Edit(EditAction),
    /// The user asked for a new, empty document.
    New,
    /// The user asked to open a file: the one at the path, or, with no path,
    /// one still to be chosen.
    OpenRequested(Option<String>),
    /// Opening ended: with the path and the content of the file, or with the
    /// reason why there is none.
    FileOpened(Result<(String, String), ErrorKind>),
    /// The user asked to save the document.
    SaveRequested,
    /// Saving ended: with the path that now holds the text, or with the
    /// reason why none does.
    FileSaved(Result<String, ErrorKind>),
}

/// An `Event` with its paths and texts as character sequences.
pub enum EventModel {
    Edit(EditAction),
    New,
    OpenRequested(Option<Seq<char>>),
    FileOpened(Result<(Seq<char>, Seq<char>), ErrorKind>),
    SaveRequested,
    FileSaved(Result<Seq<char>, ErrorKind>),
}

impl View for Event {
    type V = EventModel;

    open spec fn view(&self) -> EventModel {
        match *self {
            Event::Edit(action) => EventModel::Edit(action),
            Event::New => EventModel::New,
            Event::OpenRequested(path) => EventModel::OpenRequested(text_view(path)),
            Event::FileOpened(Ok(opened)) => EventModel::FileOpened(Ok((opened.0@, opened.1@))),
            Event::FileOpened(Err(error)) => EventModel::FileOpened(Err(error)),
            Event::SaveRequested => EventModel::SaveRequested,
            Event::FileSaved(Ok(path)) => EventModel::FileSaved(Ok(path@)),
            Event::FileSaved(Err(error)) => EventModel::FileSaved(Err(error)),
        }
    }
}

impl Clone for Event {
    /// A copy that reports the same.
    fn clone(&self) -> (copy: Event)
        ensures
            copy@ == self@,
    {
        match self {
            Event::Edit(action) => Event::Edit(*action),
            Event::New => Event::New,
            Event::OpenRequested(Some(path)) => Event::OpenRequested(Some(path.clone())),
            Event::OpenRequested(None) => Event::OpenRequested(None),
            Event::FileOpened(Ok(opened)) => Event::FileOpened(
                Ok((opened.0.clone(), opened.1.clone())),
            ),
            Event::FileOpened(Err(error)) => Event::FileOpened(Err(*error)),
            Event::SaveRequested => Event::SaveRequested,
            Event::FileSaved(Ok(path)) => Event::FileSaved(Ok(path.clone())),
            Event::FileSaved(Err(error)) => Event::FileSaved(Err(*error)),
        }
    }
}

} // verus!
