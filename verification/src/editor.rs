//! The editor's state and the one function that changes it.
//!
//! Everything that happens to a document arrives as an `Event` and passes
//! through `EditorState::update`, one event after the other. The function
//! never waits: where an event calls for work outside the editor, it hands
//! back a `PendingEffect`, and the outcome of that work arrives later as an
//! event of its own. `EditorModel::step` says what every event does.

use vstd::prelude::*;
use vstd::string::StringExecFns;
use crate::buffer::{BufferModel, TextBuffer};
use crate::buffer::lemma_apply_well_formed;
use crate::buffer::lemma_with_text_well_formed;
use crate::error::ErrorKind;
use crate::event::{EffectKind, EffectModel, Event, EventModel, PendingEffect};
use crate::event::{effect_view, text_view};

verus! {

/// Whether the editor waits for an effect to end.
#[derive(Clone, Copy, Debug, PartialEq, Eq, Structural)]
pub enum Phase {
    /// No effect is under way.
    Idle,
    /// The effect of this kind was asked for last and has not ended yet.
    AwaitingEffect(EffectKind),
}

/// The mathematical state of the editor.
pub struct EditorModel {
    /// The document.
    pub buffer: BufferModel,
    /// Where the document is kept; none while it was never opened from a
    /// file nor saved to one.
    pub path: Option<Seq<char>>,
    /// The failure met last, until an edit or a success clears it.
    pub last_error: Option<ErrorKind>,
    /// Whether an effect is awaited.
    pub phase: Phase,
}

impl EditorModel {
    /// What holds of every state: its buffer is well formed.
    pub open spec fn well_formed(self) -> bool {
        self.buffer.well_formed()
    }

    /// The state of an editor that holds an empty, untitled document.
    pub open spec fn fresh() -> EditorModel {
        EditorModel {
            buffer: BufferModel::empty(),
            path: None,
            last_error: None,
            phase: Phase::Idle,
        }
    }

    /// This state with `effect` asked for and awaited.
    pub open spec fn awaiting(self, effect: EffectModel) -> (EditorModel, Option<EffectModel>) {
        (
            EditorModel {
                buffer: self.buffer,
                path: self.path,
                last_error: self.last_error,
                phase: Phase::AwaitingEffect(effect.kind()),
            },
            Some(effect),
        )
    }

    /// This state with the last effect ended, successfully or not: the
    /// editor is idle, and `last_error` says how it ended.
    pub open spec fn settled(
        self,
        buffer: BufferModel,
        path: Option<Seq<char>>,
        last_error: Option<ErrorKind>,
    ) -> (EditorModel, Option<EffectModel>) {
        (EditorModel { buffer, path, last_error, phase: Phase::Idle }, None)
    }

    /// The state in which an editor starts, and the effect that it asks for
    /// first: to load the document at `initial`, if there is one.
    pub open spec fn start(initial: Option<Seq<char>>) -> (EditorModel, Option<EffectModel>) {
        match initial {
            Some(path) => Self::fresh().awaiting(EffectModel::LoadFile(path)),
            None => (Self::fresh(), None),
        }
    }

    /// The state after `event`, and the effect that the event calls for.
    ///
    /// - An edit is applied at once, whether an effect is awaited or not,
    ///   and clears the last error.
    /// - A new document is empty and untitled. An effect that is under way
    ///   goes on, and its outcome is taken in when it arrives.
    /// - A request to open asks for the file to be loaded, or to be chosen
    ///   first where no path came with the request.
    /// - A request to save asks for the text as it stands now to be written
    ///   to the document's path, or to a path still to be chosen where the
    ///   document has none.
    /// - A success sets the path, and for an opened file the text, clears
    ///   the last error and ends the wait.
    /// - A failure is recorded as the last error and ends the wait; text and
    ///   path stay as they are.
    pub open spec fn step(self, event: EventModel) -> (EditorModel, Option<EffectModel>) {
        match event {
            EventModel::Edit(action) => (
                EditorModel {
                    buffer: self.buffer.apply(action),
                    path: self.path,
                    last_error: None,
                    phase: self.phase,
                },
                None,
            ),
            EventModel::New => (
                EditorModel {
                    buffer: BufferModel::empty(),
                    path: None,
                    last_error: self.last_error,
                    phase: self.phase,
                },
                None,
            ),
            EventModel::OpenRequested(Some(path)) => self.awaiting(EffectModel::LoadFile(path)),
            EventModel::OpenRequested(None) => self.awaiting(EffectModel::PickFileToOpen),
            EventModel::FileOpened(Ok(opened)) => self.settled(
                BufferModel::with_text(opened.1),
                Some(opened.0),
                None,
            ),
            EventModel::FileOpened(Err(error)) => self.settled(
                self.buffer,
                self.path,
                Some(error),
            ),
            EventModel::SaveRequested => match self.path {
                Some(path) => self.awaiting(EffectModel::SaveFile(path, self.buffer.text())),
                None => self.awaiting(EffectModel::PickFileToSave(self.buffer.text())),
            },
            EventModel::FileSaved(Ok(path)) => self.settled(self.buffer, Some(path), None),
            EventModel::FileSaved(Err(error)) => self.settled(
                self.buffer,
                self.path,
                Some(error),
            ),
        }
    }
}

/// Every event leaves a state that is well formed.
pub proof fn lemma_step_well_formed(state: EditorModel, event: EventModel)
    requires
        state.well_formed(),
    ensures
        state.step(event).0.well_formed(),
{
    match event {
        EventModel::Edit(action) => {
            lemma_apply_well_formed(state.buffer, action);
        },
        EventModel::FileOpened(Ok(opened)) => {
            lemma_with_text_well_formed(opened.1);
        },
        _ => {},
    }
}

/// The state of one editing session: the document, where it is kept, the
/// failure met last, and whether an effect is awaited.
#[derive(Debug)]
pub struct EditorState {
    buffer: TextBuffer,
    path: Option<String>,
    last_error: Option<ErrorKind>,
    phase: Phase,
}

impl View for EditorState {
    type V = EditorModel;

    closed spec fn view(&self) -> EditorModel {
        EditorModel {
            buffer: self.buffer@,
            path: text_view(self.path),
            last_error: self.last_error,
            phase: self.phase,
        }
    }
}

impl EditorState {
    /// Starts a session on an empty, untitled document. With a path in
    /// `initial`, the document at that path is asked for at once.
    pub fn new(initial: Option<String>) -> (started: (EditorState, Option<PendingEffect>))
        ensures
            (started.0@, effect_view(started.1)) == EditorModel::start(text_view(initial)),
            started.0@.well_formed(),
    {
        let effect = match initial {
            Some(path) => Some(PendingEffect::LoadFile(path)),
            None => None,
        };
        let phase = match &effect {
            Some(effect) => Phase::AwaitingEffect(effect.kind()),
            None => Phase::Idle,
        };
        let buffer = TextBuffer::new();
        proof {
            use_type_invariant(&buffer);
        }
        (EditorState { buffer, path: None, last_error: None, phase }, effect)
    }

    /// Takes `event` in and returns the effect that it calls for, if any.
    /// See `EditorModel::step` for what each event does.
    pub fn update(&mut self, event: Event) -> (effect: Option<PendingEffect>)
        ensures
            (final(self)@, effect_view(effect)) == old(self)@.step(event@),
            final(self)@.well_formed(),
    {
        let effect = match event {
            Event::Edit(action) => {
                self.buffer.apply(action);
                self.last_error = None;
                None
            },
            Event::New => {
                self.path = None;
                self.buffer = TextBuffer::new();
                None
            },
            Event::OpenRequested(Some(path)) => Some(PendingEffect::LoadFile(path)),
            Event::OpenRequested(None) => Some(PendingEffect::PickFileToOpen),
            Event::FileOpened(Ok((path, content))) => {
                self.path = Some(path);
                self.buffer = TextBuffer::with(content.as_str());
                self.last_error = None;
                self.phase = Phase::Idle;
                None
            },
            Event::FileOpened(Err(error)) => {
                self.last_error = Some(error);
                self.phase = Phase::Idle;
                None
            },
            Event::SaveRequested => {
                let text = self.buffer.text();
                match &self.path {
                    Some(path) => Some(PendingEffect::SaveFile(path.clone(), text)),
                    None => Some(PendingEffect::PickFileToSave(text)),
                }
            },
            Event::FileSaved(Ok(path)) => {
                self.path = Some(path);
                self.last_error = None;
                self.phase = Phase::Idle;
                None
            },
            Event::FileSaved(Err(error)) => {
                self.last_error = Some(error);
                self.phase = Phase::Idle;
                None
            },
        };
        if let Some(effect) = &effect {
            self.phase = Phase::AwaitingEffect(effect.kind());
        }
        proof {
            use_type_invariant(&self.buffer);
        }
        effect
    }

    /// The document.
    pub fn buffer(&self) -> (buffer: &TextBuffer)
        ensures
            buffer@ == self@.buffer,
            self@.well_formed(),
    {
        proof {
            use_type_invariant(&self.buffer);
        }
        &self.buffer
    }

    /// Where the document is kept, if it was ever opened from a file or
    /// saved to one.
    pub fn path(&self) -> (path: &Option<String>)
        ensures
            text_view(*path) == self@.path,
    {
        &self.path
    }

    /// The failure met last, unless an edit or a success has cleared it.
    pub fn last_error(&self) -> (error: Option<ErrorKind>)
        ensures
            error == self@.last_error,
    {
        self.last_error
    }

    /// Whether an effect is awaited, and of which kind.
    pub fn phase(&self) -> (phase: Phase)
        ensures
            phase == self@.phase,
    {
        self.phase
    }
}

/// The path of the document that an editor opens by itself when it starts:
/// the file `src/main.rs` below `directory`.
pub fn default_file(directory: &str) -> (path: String)
    ensures
        path@ == directory@ + "/src/main.rs"@,
{
    let mut path = directory.to_owned();
    path.append("/src/main.rs");
    path
}

} // verus!
