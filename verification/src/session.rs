//! The course of one session with the notification service, as a state
//! machine. The caller performs each command (it connects, sends, receives
//! and prints) and reports what happened as the next event.

use vstd::prelude::*;
use crate::message::{
    string_views, GroupRequest, GroupRequestView, NotificationBatch, NotificationBatchView,
    StreamRequest, StreamRequestView,
};
use crate::render::{render_batch, spec_render_batch, RenderError};

verus! {

/// How many requests the queue in front of the open stream holds.
pub const REQUEST_QUEUE_CAPACITY: usize = 8;

/// Why a session stopped before the stream ended.
#[derive(Clone, Copy, Debug, PartialEq, Eq, Structural)]
pub enum Failure {
    /// The operation that was commanded last failed.
    Outside,
    /// An event was reported that the state of the session does not expect.
    Unexpected,
    /// A notification of the last batch has no printed line.
    Render(RenderError),
}

/// How a session ended.
#[derive(Clone, Copy, Debug, PartialEq, Eq, Structural)]
pub enum Outcome {
    Completed,
    Failed(Failure),
}

/// What the caller is to do next.
#[derive(Clone, Debug, PartialEq, Eq)]
pub enum Command {
    /// Connect to the service.
    Connect,
    /// Create a streaming group.
    CreateGroup(GroupRequest),
    /// Open the duplex stream, behind a queue of the given capacity.
    OpenStream { queue_capacity: usize },
    /// Send a request on the open stream.
    Send(StreamRequest),
    /// Wait for the next item of the stream.
    Receive,
    /// End the session.
    Stop(Outcome),
}

pub enum CommandView {
    Connect,
    CreateGroup(GroupRequestView),
    OpenStream { queue_capacity: nat },
    Send(StreamRequestView),
    Receive,
    Stop(Outcome),
}

impl View for Command {
    type V = CommandView;

    open spec fn view(&self) -> CommandView {
        match self {
            Command::Connect => CommandView::Connect,
            Command::CreateGroup(request) => CommandView::CreateGroup(request@),
            Command::OpenStream { queue_capacity } => CommandView::OpenStream {
                queue_capacity: *queue_capacity as nat,
            },
            Command::Send(request) => CommandView::Send(request@),
            Command::Receive => CommandView::Receive,
            Command::Stop(outcome) => CommandView::Stop(*outcome),
        }
    }
}

/// What happened when the caller did what it was told.
#[derive(Clone, Debug, PartialEq, Eq)]
pub enum Event {
    /// The connection stands.
    Connected,
    /// The streaming group was created under the given id.
    GroupCreated { stream_group_id: String },
    /// The duplex stream is open.
    StreamOpened,
    /// The request was handed to the stream.
    RequestSent,
    /// The stream delivered a batch.
    Batch(NotificationBatch),
    /// The stream ended, or delivered an error in place of a batch.
    StreamEnded,
    /// The operation failed.
    Failed,
}

pub enum EventView {
    Connected,
    GroupCreated { stream_group_id: Seq<char> },
    StreamOpened,
    RequestSent,
    Batch(NotificationBatchView),
    StreamEnded,
    Failed,
}

impl View for Event {
    type V = EventView;

    open spec fn view(&self) -> EventView {
        match self {
            Event::Connected => EventView::Connected,
            Event::GroupCreated { stream_group_id } => EventView::GroupCreated {
                stream_group_id: stream_group_id@,
            },
            Event::StreamOpened => EventView::StreamOpened,
            Event::RequestSent => EventView::RequestSent,
            Event::Batch(batch) => EventView::Batch(batch@),
            Event::StreamEnded => EventView::StreamEnded,
            Event::Failed => EventView::Failed,
        }
    }
}

/// Where a session stands: what the caller was told to do last.
#[derive(Clone, Debug, PartialEq, Eq)]
pub enum State {
    /// Connecting, to subscribe to the given project.
    Connecting { project_id: String },
    /// Creating the streaming group.
    CreatingGroup,
    /// Opening the stream for the given streaming group.
    OpeningStream { stream_group_id: String },
    /// Sending the request that announces the streaming group.
    Announcing,
    /// Waiting for the next item of the stream.
    Listening,
    /// Sending the acknowledgement of a batch.
    Acknowledging,
    /// The session has ended.
    Stopped,
}

pub enum StateView {
    Connecting { project_id: Seq<char> },
    CreatingGroup,
    OpeningStream { stream_group_id: Seq<char> },
    Announcing,
    Listening,
    Acknowledging,
    Stopped,
}

impl View for State {
    type V = StateView;

    open spec fn view(&self) -> StateView {
        match self {
            State::Connecting { project_id } => StateView::Connecting { project_id: project_id@ },
            State::CreatingGroup => StateView::CreatingGroup,
            State::OpeningStream { stream_group_id } => StateView::OpeningStream {
                stream_group_id: stream_group_id@,
            },
            State::Announcing => StateView::Announcing,
            State::Listening => StateView::Listening,
            State::Acknowledging => StateView::Acknowledging,
            State::Stopped => StateView::Stopped,
        }
    }
}

/// What the session answers to an event: lines to print, in order, and then
/// a command.
#[derive(Clone, Debug, PartialEq, Eq)]
pub struct Reaction {
    pub lines: Vec<String>,
    pub command: Command,
}

pub struct ReactionView {
    pub lines: Seq<Seq<char>>,
    pub command: CommandView,
}

impl View for Reaction {
    type V = ReactionView;

    open spec fn view(&self) -> ReactionView {
        ReactionView { lines: string_views(self.lines@), command: self.command@ }
    }
}

impl ReactionView {
    /// A command with nothing to print before it.
    pub open spec fn quiet(command: CommandView) -> ReactionView {
        ReactionView { lines: Seq::empty(), command }
    }
}

/// The end of a session for the given reason.
pub open spec fn spec_fail(failure: Failure) -> (StateView, ReactionView) {
    (StateView::Stopped, ReactionView::quiet(CommandView::Stop(Outcome::Failed(failure))))
}

/// A new session for the given project: it starts by connecting.
pub open spec fn spec_begin(project_id: Seq<char>) -> (StateView, ReactionView) {
    (StateView::Connecting { project_id }, ReactionView::quiet(CommandView::Connect))
}

/// The state after `event` and the reaction to it.
///
/// A session connects, creates a streaming group for its project, opens the
/// stream, announces the group, and then waits for batches. It prints each
/// batch and acknowledges it before it waits again. It completes when the
/// stream ends. It fails when an operation fails, when a notification of a
/// batch has no printed line (what precedes that notification is printed, the
/// batch is not acknowledged), and when an event does not fit the state.
pub open spec fn spec_step(state: StateView, event: EventView) -> (StateView, ReactionView) {
    match (state, event) {
        (StateView::Stopped, _) => spec_fail(Failure::Unexpected),
        (_, EventView::Failed) => spec_fail(Failure::Outside),
        (StateView::Connecting { project_id }, EventView::Connected) => (
            StateView::CreatingGroup,
            ReactionView::quiet(CommandView::CreateGroup(GroupRequestView::for_project(project_id))),
        ),
        (StateView::CreatingGroup, EventView::GroupCreated { stream_group_id }) => (
            StateView::OpeningStream { stream_group_id },
            ReactionView::quiet(
                CommandView::OpenStream { queue_capacity: REQUEST_QUEUE_CAPACITY as nat },
            ),
        ),
        (StateView::OpeningStream { stream_group_id }, EventView::StreamOpened) => (
            StateView::Announcing,
            ReactionView::quiet(CommandView::Send(StreamRequestView::init(stream_group_id))),
        ),
        (StateView::Announcing, EventView::RequestSent) => (
            StateView::Listening,
            ReactionView::quiet(CommandView::Receive),
        ),
        (StateView::Listening, EventView::Batch(batch)) => {
            let rendering = spec_render_batch(batch);
            match rendering.failure {
                None => (
                    StateView::Acknowledging,
                    ReactionView {
                        lines: rendering.lines,
                        command: CommandView::Send(StreamRequestView::ack(batch.ack_chunk_id)),
                    },
                ),
                Some(e) => (
                    StateView::Stopped,
                    ReactionView {
                        lines: rendering.lines,
                        command: CommandView::Stop(Outcome::Failed(Failure::Render(e))),
                    },
                ),
            }
        },
        (StateView::Listening, EventView::StreamEnded) => (
            StateView::Stopped,
            ReactionView::quiet(CommandView::Stop(Outcome::Completed)),
        ),
        (StateView::Acknowledging, EventView::RequestSent) => (
            StateView::Listening,
            ReactionView::quiet(CommandView::Receive),
        ),
        _ => spec_fail(Failure::Unexpected),
    }
}

/// A session is told to stop exactly when it enters the state `Stopped`, and
/// once there it stays there.
pub proof fn stop_iff_stopped(state: StateView, event: EventView)
    ensures
        spec_step(state, event).0 is Stopped <==> spec_step(state, event).1.command is Stop,
        state is Stopped ==> spec_step(state, event).0 is Stopped,
{
}

/// No request that a session sends asks to close the stream.
pub proof fn requests_keep_stream_open(state: StateView, event: EventView)
    ensures
        spec_step(state, event).1.command matches CommandView::Send(request) ==> !request.close,
{
}

/// A session acknowledges only a batch that it received while listening and
/// printed in full, and it acknowledges that batch alone, by its id.
pub proof fn ack_answers_batch(state: StateView, event: EventView)
    requires
        spec_step(state, event).1.command matches CommandView::Send(request)
            && request.action is Ack,
    ensures
        state is Listening,
        event matches EventView::Batch(batch) && {
            &&& spec_render_batch(batch).failure is None
            &&& spec_step(state, event).1.lines == spec_render_batch(batch).lines
            &&& spec_step(state, event).1.command == CommandView::Send(
                StreamRequestView::ack(batch.ack_chunk_id),
            )
        },
{
}

/// Only a batch makes a session print.
pub proof fn only_batches_print(state: StateView, event: EventView)
    requires
        spec_step(state, event).1.lines.len() > 0,
    ensures
        state is Listening,
        event is Batch,
{
}

/// A command with nothing to print before it.
fn quiet(command: Command) -> (r: Reaction)
    ensures
        r@ == ReactionView::quiet(command@),
{
    let lines: Vec<String> = Vec::new();
    assert(string_views(lines@) =~= Seq::<Seq<char>>::empty());
    Reaction { lines, command }
}

/// The end of a session for the given reason.
fn fail(failure: Failure) -> (r: (State, Reaction))
    ensures
        (r.0@, r.1@) == spec_fail(failure),
{
    (State::Stopped, quiet(Command::Stop(Outcome::Failed(failure))))
}

/// Starts a session for the given project.
pub fn begin(project_id: String) -> (r: (State, Reaction))
    ensures
        (r.0@, r.1@) == spec_begin(project_id@),
{
    (State::Connecting { project_id }, quiet(Command::Connect))
}

/// Takes the session from `state` through `event`: the new state, and what
/// the caller is to print and to do next.
pub fn step(state: State, event: Event) -> (r: (State, Reaction))
    ensures
        (r.0@, r.1@) == spec_step(state@, event@),
{
    match (state, event) {
        (State::Stopped, _) => fail(Failure::Unexpected),
        (_, Event::Failed) => fail(Failure::Outside),
        (State::Connecting { project_id }, Event::Connected) => (
            State::CreatingGroup,
            quiet(Command::CreateGroup(GroupRequest::for_project(project_id))),
        ),
        (State::CreatingGroup, Event::GroupCreated { stream_group_id }) => (
            State::OpeningStream { stream_group_id },
            quiet(Command::OpenStream { queue_capacity: REQUEST_QUEUE_CAPACITY }),
        ),
        (State::OpeningStream { stream_group_id }, Event::StreamOpened) => (
            State::Announcing,
            quiet(Command::Send(StreamRequest::init(stream_group_id))),
        ),
        (State::Announcing, Event::RequestSent) => (State::Listening, quiet(Command::Receive)),
        (State::Listening, Event::Batch(batch)) => {
            let rendering = render_batch(&batch);
            match rendering.failure {
                None => (
                    State::Acknowledging,
                    Reaction {
                        lines: rendering.lines,
                        command: Command::Send(StreamRequest::ack(batch.ack_chunk_id)),
                    },
                ),
                Some(e) => (
                    State::Stopped,
                    Reaction {
                        lines: rendering.lines,
                        command: Command::Stop(Outcome::Failed(Failure::Render(e))),
                    },
                ),
            }
        },
        (State::Listening, Event::StreamEnded) => (
            State::Stopped,
            quiet(Command::Stop(Outcome::Completed)),
        ),
        (State::Acknowledging, Event::RequestSent) => (State::Listening, quiet(Command::Receive)),
        _ => fail(Failure::Unexpected),
    }
}

} // verus!
