//! The progress of one upload.
//!
//! An upload is a conversation. The session names an action, the program
//! around it performs that action and reports what came of it as an event,
//! and the session answers with the next action. A chunk is handed out for
//! writing before the next one is asked for, so no more than one chunk is
//! ever held.

use vstd::prelude::*;
use vstd::string::*;
use crate::error::{other, Failure, IoError};
use crate::identifier::{well_formed, Identifier};
use crate::response::{response_with_text, Body, Content, Reply, Response, StatusCode};

verus! {

/// How far an upload has come. `Committed` and `Failed` are final.
#[derive(Clone, Copy, PartialEq, Eq, Structural, Debug)]
pub enum UploadPhase {
    /// The identifier is chosen; the write target is not open yet.
    Created,
    /// The write target is open and takes chunks.
    Writing,
    /// Every chunk was written and the identifier was handed out.
    Committed,
    /// The transfer broke off. What was written stays behind, unnamed.
    Failed,
}

/// The mathematical value of an [`UploadEvent`].
pub enum UploadInput {
    Opened,
    Chunk(Seq<u8>),
    End,
    Failed(Failure),
}

/// What the program reports to the session.
#[derive(Debug, PartialEq, Eq)]
pub enum UploadEvent {
    /// The write target was created.
    Opened,
    /// The next inbound chunk arrived.
    Chunk(Vec<u8>),
    /// The inbound sequence is exhausted.
    End,
    /// Creating the target, writing a chunk or receiving one failed.
    Failed(IoError),
}

impl View for UploadEvent {
    type V = UploadInput;

    open spec fn view(&self) -> UploadInput {
        match self {
            UploadEvent::Opened => UploadInput::Opened,
            UploadEvent::Chunk(bytes) => UploadInput::Chunk(bytes@),
            UploadEvent::End => UploadInput::End,
            UploadEvent::Failed(error) => UploadInput::Failed(error@),
        }
    }
}

/// The mathematical value of an [`UploadAction`].
pub enum UploadOutput {
    Create(Seq<char>),
    Receive,
    Write(Seq<u8>),
    Commit(Seq<char>),
    Abort(Failure),
    Nothing,
}

/// What the session asks the program to do.
#[derive(Debug, PartialEq, Eq)]
pub enum UploadAction {
    /// Create the write target named by the identifier, then report
    /// `Opened` or `Failed`.
    Create(Identifier),
    /// Ask for the next inbound chunk, then report `Chunk`, `End` or
    /// `Failed`.
    Receive,
    /// Write the bytes to the target. If that fails report `Failed`;
    /// otherwise ask for the next inbound chunk as for `Receive`.
    Write(Vec<u8>),
    /// Release the target: the object is complete under the identifier.
    Commit(Identifier),
    /// Release the target, if one is open: the transfer failed.
    Abort(IoError),
    /// The transfer is over; there is nothing to do.
    Nothing,
}

impl View for UploadAction {
    type V = UploadOutput;

    open spec fn view(&self) -> UploadOutput {
        match self {
            UploadAction::Create(id) => UploadOutput::Create(id@),
            UploadAction::Receive => UploadOutput::Receive,
            UploadAction::Write(bytes) => UploadOutput::Write(bytes@),
            UploadAction::Commit(id) => UploadOutput::Commit(id@),
            UploadAction::Abort(error) => UploadOutput::Abort(error@),
            UploadAction::Nothing => UploadOutput::Nothing,
        }
    }
}

/// The mathematical value of an [`UploadSession`].
pub struct UploadState {
    pub id: Seq<char>,
    pub phase: UploadPhase,
}

/// One upload in progress.
#[derive(Debug)]
pub struct UploadSession {
    id: Identifier,
    phase: UploadPhase,
}

impl View for UploadSession {
    type V = UploadState;

    closed spec fn view(&self) -> UploadState {
        UploadState { id: self.id@, phase: self.phase }
    }
}

/// Whether no event moves an upload out of `phase`.
pub open spec fn is_final(phase: UploadPhase) -> bool {
    phase == UploadPhase::Committed || phase == UploadPhase::Failed
}

/// The failure that answers an event which the phase does not expect.
pub open spec fn out_of_turn() -> Failure {
    Failure::Other("unexpected event"@)
}

/// The state with its phase replaced.
pub open spec fn in_phase(state: UploadState, phase: UploadPhase) -> UploadState {
    UploadState { id: state.id, phase }
}

/// How an upload under `id` starts: created, by asking for its write target.
pub open spec fn upload_begin(id: Seq<char>) -> (UploadState, UploadOutput) {
    (UploadState { id, phase: UploadPhase::Created }, UploadOutput::Create(id))
}

/// The transition of an upload: the state after `input`, and the action
/// that answers it.
pub open spec fn upload_step(state: UploadState, input: UploadInput) -> (
    UploadState,
    UploadOutput,
) {
    match state.phase {
        UploadPhase::Created => match input {
            UploadInput::Opened => (in_phase(state, UploadPhase::Writing), UploadOutput::Receive),
            UploadInput::Failed(failure) => (
                in_phase(state, UploadPhase::Failed),
                UploadOutput::Abort(failure),
            ),
            _ => (in_phase(state, UploadPhase::Failed), UploadOutput::Abort(out_of_turn())),
        },
        UploadPhase::Writing => match input {
            UploadInput::Chunk(bytes) => (state, UploadOutput::Write(bytes)),
            UploadInput::End => (
                in_phase(state, UploadPhase::Committed),
                UploadOutput::Commit(state.id),
            ),
            UploadInput::Failed(failure) => (
                in_phase(state, UploadPhase::Failed),
                UploadOutput::Abort(failure),
            ),
            UploadInput::Opened => (
                in_phase(state, UploadPhase::Failed),
                UploadOutput::Abort(out_of_turn()),
            ),
        },
        _ => (state, UploadOutput::Nothing),
    }
}

impl UploadSession {
    /// Starts an upload that will store its bytes under `id`.
    pub fn begin(id: Identifier) -> (started: (UploadSession, UploadAction))
        ensures
            (started.0@, started.1@) == upload_begin(id@),
            well_formed(id@),
    {
        proof {
            use_type_invariant(&id);
        }
        let name = id.clone();
        (UploadSession { id, phase: UploadPhase::Created }, UploadAction::Create(name))
    }

    /// The identifier that the upload stores under.
    pub fn id(&self) -> (id: &Identifier)
        ensures
            id@ == self@.id,
            well_formed(self@.id),
    {
        proof {
            use_type_invariant(&self.id);
        }
        &self.id
    }

    /// How far the upload has come.
    pub fn phase(&self) -> (phase: UploadPhase)
        ensures
            phase == self@.phase,
    {
        self.phase
    }

    /// Takes in what the program reports and names the next action.
    pub fn step(&mut self, event: UploadEvent) -> (action: UploadAction)
        ensures
            (final(self)@, action@) == upload_step(old(self)@, event@),
            well_formed(final(self)@.id),
    {
        proof {
            use_type_invariant(&self.id);
        }
        match self.phase {
            UploadPhase::Created => match event {
                UploadEvent::Opened => {
                    self.phase = UploadPhase::Writing;
                    UploadAction::Receive
                },
                UploadEvent::Failed(error) => {
                    self.phase = UploadPhase::Failed;
                    UploadAction::Abort(error)
                },
                _ => {
                    self.phase = UploadPhase::Failed;
                    UploadAction::Abort(other(String::from_str("unexpected event")))
                },
            },
            UploadPhase::Writing => match event {
                UploadEvent::Chunk(bytes) => UploadAction::Write(bytes),
                UploadEvent::End => {
                    self.phase = UploadPhase::Committed;
                    UploadAction::Commit(self.id.clone())
                },
                UploadEvent::Failed(error) => {
                    self.phase = UploadPhase::Failed;
                    UploadAction::Abort(error)
                },
                UploadEvent::Opened => {
                    self.phase = UploadPhase::Failed;
                    UploadAction::Abort(other(String::from_str("unexpected event")))
                },
            },
            _ => UploadAction::Nothing,
        }
    }
}

/// The reply to an upload that ended with `outcome`: the identifier as the
/// whole body, or a server error with the failure's message.
pub open spec fn upload_reply(outcome: Result<Seq<char>, Failure>) -> Reply {
    match outcome {
        Ok(id) => crate::response::success(id),
        Err(failure) => Reply {
            status: StatusCode::ServerError,
            content: Content::Text(crate::error::failure_message(failure)),
        },
    }
}

/// Answers an upload that ended with `outcome`.
pub fn upload_response(outcome: Result<Identifier, IoError>) -> (response: Response)
    ensures
        response@ == upload_reply(
            match outcome {
                Ok(id) => Ok(id@),
                Err(error) => Err(error@),
            },
        ),
{
    match outcome {
        Ok(id) => response_with_text(id.as_str().to_owned()),
        Err(error) => Response {
            status: StatusCode::ServerError,
            body: Body::Text(error.message()),
        },
    }
}

} // verus!
