//! The life of one live connection to a hub, as a state machine. The caller
//! runs the two duties of an active session (relaying the room's frames to
//! the client, and the client's frames to the room and the store), feeds
//! every happening to [`SyncSession::step`], and does what it answers.
use crate::hub::{Edit, EditView, WsMessage};
use vstd::prelude::*;

verus! {

#[derive(Debug, Clone, Copy, PartialEq, Eq, Structural)]
pub enum SessionPhase {
    /// The transport upgrade has not completed yet.
    Connecting,
    /// Joined to the room; both duties run.
    Active,
    /// Both duties are over.
    Closed,
}

/// What happened on a session.
#[derive(Debug)]
pub enum SessionEvent {
    /// The transport was upgraded to a duplex text connection.
    Upgraded,
    /// The client sent a text frame; `decoded` is the edit message that a
    /// tolerant decode of it found, if any.
    Frame { text: String, decoded: Option<WsMessage> },
    /// The inbound duty ended: the client went away or the transport failed.
    InboundEnded,
    /// The outbound duty ended: the room's channel closed or sending to the
    /// client failed.
    OutboundEnded,
    /// The outbound duty fell behind the room and `missed` frames were
    /// dropped for this client; the duty goes on with the next frame.
    Lagged { missed: u64 },
}

/// What the caller is to do next.
#[derive(Debug)]
pub enum SessionAction {
    /// Join the room of the hub and start both duties.
    Join { hub_id: String },
    /// Publish the frame, unchanged, to the room; when `persist` is given,
    /// also apply that edit to the hub's record (best effort: a failure there
    /// is only logged and closes nothing).
    Relay { frame: String, persist: Option<Edit> },
    /// Stop the outbound duty; the session is over.
    CancelOutbound,
    /// Stop the inbound duty; the session is over.
    CancelInbound,
    /// Nothing to do.
    Nothing,
}

#[derive(PartialEq, Eq, Structural)]
pub enum EventKind {
    Upgraded,
    Frame,
    InboundEnded,
    OutboundEnded,
    Lagged,
}

#[derive(PartialEq, Eq, Structural)]
pub enum ActionKind {
    Join,
    Relay,
    CancelOutbound,
    CancelInbound,
    Nothing,
}

impl SessionEvent {
    pub open spec fn kind(&self) -> EventKind {
        match self {
            SessionEvent::Upgraded => EventKind::Upgraded,
            SessionEvent::Frame { .. } => EventKind::Frame,
            SessionEvent::InboundEnded => EventKind::InboundEnded,
            SessionEvent::OutboundEnded => EventKind::OutboundEnded,
            SessionEvent::Lagged { .. } => EventKind::Lagged,
        }
    }
}

impl SessionAction {
    pub open spec fn kind(&self) -> ActionKind {
        match self {
            SessionAction::Join { .. } => ActionKind::Join,
            SessionAction::Relay { .. } => ActionKind::Relay,
            SessionAction::CancelOutbound => ActionKind::CancelOutbound,
            SessionAction::CancelInbound => ActionKind::CancelInbound,
            SessionAction::Nothing => ActionKind::Nothing,
        }
    }
}

/// The phase after an event, and the kind of action it calls for. Falling
/// behind the room costs a client frames, never its session.
pub open spec fn transition(p: SessionPhase, k: EventKind) -> (SessionPhase, ActionKind) {
    match (p, k) {
        (p, EventKind::Lagged) => (p, ActionKind::Nothing),
        (SessionPhase::Connecting, EventKind::Upgraded) => (SessionPhase::Active, ActionKind::Join),
        (SessionPhase::Connecting, EventKind::Frame) => (SessionPhase::Connecting, ActionKind::Nothing),
        (SessionPhase::Connecting, _) => (SessionPhase::Closed, ActionKind::Nothing),
        (SessionPhase::Active, EventKind::Frame) => (SessionPhase::Active, ActionKind::Relay),
        (SessionPhase::Active, EventKind::InboundEnded) => (SessionPhase::Closed, ActionKind::CancelOutbound),
        (SessionPhase::Active, EventKind::OutboundEnded) => (SessionPhase::Closed, ActionKind::CancelInbound),
        (SessionPhase::Active, EventKind::Upgraded) => (SessionPhase::Active, ActionKind::Nothing),
        (SessionPhase::Closed, _) => (SessionPhase::Closed, ActionKind::Nothing),
    }
}

/// The edit that a decoded message calls for: only a stroke with at least
/// one point is stored.
pub open spec fn stroke_edit(decoded: Option<WsMessage>) -> Option<EditView> {
    match decoded {
        Some(WsMessage::PathCompleted(p)) => if p@.points.len() >= 1 {
            Some(EditView::AddPath(p@))
        } else {
            None
        },
        None => None,
    }
}

/// One live connection to a hub.
#[derive(Debug)]
pub struct SyncSession {
    pub hub_id: String,
    pub phase: SessionPhase,
}

impl SyncSession {
    /// A session for a hub, before its transport is upgraded.
    pub fn new(hub_id: String) -> (r: SyncSession)
        ensures
            r.hub_id@ == hub_id@,
            r.phase == SessionPhase::Connecting,
    {
        SyncSession { hub_id, phase: SessionPhase::Connecting }
    }

    /// Takes one event; answers what to do.
    pub fn step(&mut self, ev: SessionEvent) -> (r: SessionAction)
        ensures
            final(self).hub_id@ == old(self).hub_id@,
            (final(self).phase, r.kind()) == transition(old(self).phase, ev.kind()),
            r matches SessionAction::Join { hub_id } ==> hub_id@ == old(self).hub_id@,
            r matches SessionAction::Relay { frame, persist } ==> ev matches SessionEvent::Frame {
                text,
                decoded,
            } && frame@ == text@ && match (persist, stroke_edit(decoded)) {
                (Some(e), Some(ev)) => e@ == ev,
                (None, None) => true,
                _ => false,
            },
    {
        match self.phase {
            SessionPhase::Connecting => match ev {
                SessionEvent::Upgraded => {
                    self.phase = SessionPhase::Active;
                    SessionAction::Join { hub_id: self.hub_id.clone() }
                },
                SessionEvent::Frame { .. } | SessionEvent::Lagged { .. } => SessionAction::Nothing,
                _ => {
                    self.phase = SessionPhase::Closed;
                    SessionAction::Nothing
                },
            },
            SessionPhase::Active => match ev {
                SessionEvent::Frame { text, decoded } => {
                    let persist = match decoded {
                        Some(WsMessage::PathCompleted(p)) => if p.is_drawable() {
                            Some(Edit::AddPath(p))
                        } else {
                            None
                        },
                        None => None,
                    };
                    SessionAction::Relay { frame: text, persist }
                },
                SessionEvent::InboundEnded => {
                    self.phase = SessionPhase::Closed;
                    SessionAction::CancelOutbound
                },
                SessionEvent::OutboundEnded => {
                    self.phase = SessionPhase::Closed;
                    SessionAction::CancelInbound
                },
                SessionEvent::Upgraded | SessionEvent::Lagged { .. } => SessionAction::Nothing,
            },
            SessionPhase::Closed => SessionAction::Nothing,
        }
    }
}

/// The phase after a sequence of events.
pub open spec fn phase_after(p: SessionPhase, ks: Seq<EventKind>) -> SessionPhase
    decreases ks.len(),
{
    if ks.len() == 0 {
        p
    } else {
        phase_after(transition(p, ks[0]).0, ks.drop_first())
    }
}

/// When either duty of an active session ends, the session closes at once and
/// the other duty is cancelled (a lagging outbound duty is not ended); whatever happens after, it stays closed and
/// asks for nothing more. Only the session's own state is involved: other
/// sessions, and the room they share, are not touched.
pub proof fn lemma_closing_ends_both_duties(later: Seq<EventKind>)
    ensures
        transition(SessionPhase::Active, EventKind::InboundEnded) == (
            SessionPhase::Closed,
            ActionKind::CancelOutbound,
        ),
        transition(SessionPhase::Active, EventKind::OutboundEnded) == (
            SessionPhase::Closed,
            ActionKind::CancelInbound,
        ),
        transition(SessionPhase::Active, EventKind::Lagged) == (SessionPhase::Active, ActionKind::Nothing),
        forall|k: EventKind| #[trigger] transition(SessionPhase::Closed, k) == (
            SessionPhase::Closed,
            ActionKind::Nothing,
        ),
        phase_after(SessionPhase::Closed, later) == SessionPhase::Closed,
    decreases later.len(),
{
    if later.len() > 0 {
        lemma_closing_ends_both_duties(later.drop_first());
    }
}

} // verus!
