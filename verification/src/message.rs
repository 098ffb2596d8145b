//! The messages a client exchanges with the notification service, as plain
//! values, each with the mathematical view that the contracts speak of.

use vstd::prelude::*;
use crate::kinds::EventResource;
use crate::timestamp::Timestamp;

verus! {

/// The views of the strings of `v`, in order.
pub open spec fn string_views(v: Seq<String>) -> Seq<Seq<char>> {
    v.map_values(|s: String| s@)
}

/// What changed: the kind and id of a resource and the kind of change, the
/// two kinds as the numeric codes that were received.
#[derive(Clone, Debug, PartialEq, Eq)]
pub struct EventMessage {
    pub resource: i32,
    pub resource_id: String,
    pub updated_type: i32,
}

pub struct EventMessageView {
    pub resource: int,
    pub resource_id: Seq<char>,
    pub updated_type: int,
}

impl View for EventMessage {
    type V = EventMessageView;

    open spec fn view(&self) -> EventMessageView {
        EventMessageView {
            resource: self.resource as int,
            resource_id: self.resource_id@,
            updated_type: self.updated_type as int,
        }
    }
}

/// One notification of a batch.
#[derive(Clone, Debug, PartialEq, Eq)]
pub struct Notification {
    pub message: Option<EventMessage>,
    pub sequence: u64,
    pub timestamp: Option<Timestamp>,
}

pub struct NotificationView {
    pub message: Option<EventMessageView>,
    pub sequence: nat,
    pub timestamp: Option<Timestamp>,
}

impl View for Notification {
    type V = NotificationView;

    open spec fn view(&self) -> NotificationView {
        NotificationView {
            message: match self.message {
                Some(m) => Some(m@),
                None => None,
            },
            sequence: self.sequence as nat,
            timestamp: self.timestamp,
        }
    }
}

/// Notifications that arrive together and are acknowledged together.
#[derive(Clone, Debug, PartialEq, Eq)]
pub struct NotificationBatch {
    pub notifications: Vec<Notification>,
    pub ack_chunk_id: String,
}

pub struct NotificationBatchView {
    pub notifications: Seq<NotificationView>,
    pub ack_chunk_id: Seq<char>,
}

impl View for NotificationBatch {
    type V = NotificationBatchView;

    open spec fn view(&self) -> NotificationBatchView {
        NotificationBatchView {
            notifications: self.notifications@.map_values(|n: Notification| n@),
            ack_chunk_id: self.ack_chunk_id@,
        }
    }
}

/// Which part of a resource's history a subscription asks for.
#[derive(Clone, Copy, Debug, PartialEq, Eq, Structural)]
pub enum StreamType {
    All,
    FromDate(Timestamp),
    FromSequence(u64),
}

/// The request that creates a streaming group.
#[derive(Clone, Debug, PartialEq, Eq)]
pub struct GroupRequest {
    pub resource: EventResource,
    pub resource_id: String,
    pub include_subresource: bool,
    pub stream_type: StreamType,
}

pub struct GroupRequestView {
    pub resource: EventResource,
    pub resource_id: Seq<char>,
    pub include_subresource: bool,
    pub stream_type: StreamType,
}

impl View for GroupRequest {
    type V = GroupRequestView;

    open spec fn view(&self) -> GroupRequestView {
        GroupRequestView {
            resource: self.resource,
            resource_id: self.resource_id@,
            include_subresource: self.include_subresource,
            stream_type: self.stream_type,
        }
    }
}

impl GroupRequestView {
    /// The subscription to every notification of a project and of what
    /// belongs to it.
    pub open spec fn for_project(project_id: Seq<char>) -> GroupRequestView {
        GroupRequestView {
            resource: EventResource::Project,
            resource_id: project_id,
            include_subresource: true,
            stream_type: StreamType::All,
        }
    }
}

impl GroupRequest {
    /// The subscription to every notification of a project and of what
    /// belongs to it.
    pub fn for_project(project_id: String) -> (r: GroupRequest)
        ensures
            r@ == GroupRequestView::for_project(project_id@),
    {
        GroupRequest {
            resource: EventResource::Project,
            resource_id: project_id,
            include_subresource: true,
            stream_type: StreamType::All,
        }
    }
}

/// What a request on the open stream asks for.
#[derive(Clone, Debug, PartialEq, Eq)]
pub enum StreamAction {
    Init { stream_group_id: String },
    Ack { ack_chunk_ids: Vec<String> },
}

pub enum StreamActionView {
    Init { stream_group_id: Seq<char> },
    Ack { ack_chunk_ids: Seq<Seq<char>> },
}

impl View for StreamAction {
    type V = StreamActionView;

    open spec fn view(&self) -> StreamActionView {
        match self {
            StreamAction::Init { stream_group_id } => StreamActionView::Init {
                stream_group_id: stream_group_id@,
            },
            StreamAction::Ack { ack_chunk_ids } => StreamActionView::Ack {
                ack_chunk_ids: string_views(ack_chunk_ids@),
            },
        }
    }
}

/// A request on the open stream.
#[derive(Clone, Debug, PartialEq, Eq)]
pub struct StreamRequest {
    pub close: bool,
    pub action: StreamAction,
}

pub struct StreamRequestView {
    pub close: bool,
    pub action: StreamActionView,
}

impl View for StreamRequest {
    type V = StreamRequestView;

    open spec fn view(&self) -> StreamRequestView {
        StreamRequestView { close: self.close, action: self.action@ }
    }
}

impl StreamRequestView {
    /// The request that announces a streaming group and keeps the stream open.
    pub open spec fn init(stream_group_id: Seq<char>) -> StreamRequestView {
        StreamRequestView {
            close: false,
            action: StreamActionView::Init { stream_group_id },
        }
    }

    /// The request that acknowledges one batch and keeps the stream open.
    pub open spec fn ack(ack_chunk_id: Seq<char>) -> StreamRequestView {
        StreamRequestView {
            close: false,
            action: StreamActionView::Ack { ack_chunk_ids: seq![ack_chunk_id] },
        }
    }
}

impl StreamRequest {
    /// The request that announces a streaming group and keeps the stream open.
    pub fn init(stream_group_id: String) -> (r: StreamRequest)
        ensures
            r@ == StreamRequestView::init(stream_group_id@),
    {
        StreamRequest { close: false, action: StreamAction::Init { stream_group_id } }
    }

    /// The request that acknowledges one batch and keeps the stream open.
    pub fn ack(ack_chunk_id: String) -> (r: StreamRequest)
        ensures
            r@ == StreamRequestView::ack(ack_chunk_id@),
    {
        let mut ack_chunk_ids: Vec<String> = Vec::new();
        ack_chunk_ids.push(ack_chunk_id);
        assert(string_views(ack_chunk_ids@) =~= seq![ack_chunk_id@]);
        StreamRequest { close: false, action: StreamAction::Ack { ack_chunk_ids } }
    }
}

} // verus!
