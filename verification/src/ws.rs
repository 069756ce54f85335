use vstd::prelude::*;
use crate::realtime::ResumeChangedEvent;
use crate::auth::{parse_uuid, parsed_uuid};
use crate::error::{ApplicationError, DbError};
use crate::text::text_equals;

verus! {

/// A message a WebSocket client sends: `{"type": ..., "resume_id": ..., "token": ...}`.
#[derive(Clone, Debug, PartialEq, Eq)]
pub struct ClientMessage {
    pub kind: String,
    pub resume_id: Option<i32>,
    pub token: Option<String>,
}

/// A frame received from the client, with text already decoded from JSON.
#[derive(Clone, Debug)]
pub enum Frame {
    /// A text frame; `None` when it is not a valid client message.
    Text(Option<ClientMessage>),
    /// A binary frame; `None` when it is not UTF-8, else as for text.
    Binary(Option<Option<ClientMessage>>),
    /// A close frame.
    Close,
    /// Any other frame (ping, pong, ...).
    Other,
}

/// What happened on a WebSocket session.
#[derive(Clone, Debug)]
pub enum WsEvent {
    /// The client sent a frame.
    Received(Frame),
    /// The client stream ended or failed.
    StreamEnded,
    /// The answer to an authorization request.
    Authorized(bool),
    /// The hub delivered a notification for the subscribed resume.
    Notification(ResumeChangedEvent),
    /// Sending a notification to the client failed.
    SendFailed,
}

/// Errors reported to the client.
#[derive(Clone, Copy, Debug, PartialEq, Eq, Structural)]
pub enum WsError {
    InvalidMessage,
    ExpectedSubscribe,
    MissingResumeId,
    Forbidden,
}

/// What the session asks its driver to do next.
#[derive(Clone, Debug)]
pub enum WsAction {
    /// Wait for the next event.
    Wait,
    /// Send an error message and keep the session open.
    Report(WsError),
    /// Send an error message and close the session.
    ReportAndClose(WsError),
    /// Check whether the token (if any) may read the resume; answer with `Authorized`.
    Authorize { resume_id: i32, token: Option<String> },
    /// Subscribe to the resume's notifications (replacing any earlier subscription).
    Subscribe(i32),
    /// Send the notification to the client.
    Forward(ResumeChangedEvent),
    /// Close the session.
    Close,
}

/// Where a session stands.
#[derive(Clone, Copy, Debug, PartialEq, Eq, Structural)]
pub enum WsState {
    /// Waiting for the first message, which must subscribe.
    AwaitingSubscribe,
    /// Authorizing the first subscription.
    Authorizing { resume_id: i32 },
    /// Subscribed to a resume.
    Subscribed { resume_id: i32 },
    /// Subscribed, and authorizing a switch to another resume.
    Switching { current: i32, next: i32 },
    /// Finished.
    Closed,
}

/// The JSON text of an error message.
pub open spec fn error_text(e: WsError) -> Seq<char> {
    match e {
        WsError::InvalidMessage => "{\"type\":\"error\",\"message\":\"invalid_message\"}"@,
        WsError::ExpectedSubscribe => "{\"type\":\"error\",\"message\":\"expected_subscribe\"}"@,
        WsError::MissingResumeId => "{\"type\":\"error\",\"message\":\"missing_resume_id\"}"@,
        WsError::Forbidden => "{\"type\":\"error\",\"message\":\"forbidden\"}"@,
    }
}

impl WsError {
    /// The JSON text sent to the client.
    pub fn text(&self) -> (r: &'static str)
        ensures
            r@ == error_text(*self),
    {
        match self {
            WsError::InvalidMessage => "{\"type\":\"error\",\"message\":\"invalid_message\"}",
            WsError::ExpectedSubscribe => "{\"type\":\"error\",\"message\":\"expected_subscribe\"}",
            WsError::MissingResumeId => "{\"type\":\"error\",\"message\":\"missing_resume_id\"}",
            WsError::Forbidden => "{\"type\":\"error\",\"message\":\"forbidden\"}",
        }
    }
}

/// Shape of an action, without the data it carries.
pub enum ActionKind {
    Wait,
    Report(WsError),
    ReportAndClose(WsError),
    Authorize(i32),
    Subscribe(i32),
    Forward,
    Close,
}

/// The shape of an action.
pub open spec fn kind_of(a: WsAction) -> ActionKind {
    match a {
        WsAction::Wait => ActionKind::Wait,
        WsAction::Report(e) => ActionKind::Report(e),
        WsAction::ReportAndClose(e) => ActionKind::ReportAndClose(e),
        WsAction::Authorize { resume_id, .. } => ActionKind::Authorize(resume_id),
        WsAction::Subscribe(r) => ActionKind::Subscribe(r),
        WsAction::Forward(_) => ActionKind::Forward,
        WsAction::Close => ActionKind::Close,
    }
}

/// The message of a frame as the first message of a session: text, or
/// binary that decodes as UTF-8; `None` ends the session silently.
pub open spec fn first_message(f: Frame) -> Option<Option<ClientMessage>> {
    match f {
        Frame::Text(m) => Some(m),
        Frame::Binary(Some(m)) => Some(m),
        _ => None,
    }
}

/// How a session reacts to a message that opens it.
pub open spec fn opening(m: Option<ClientMessage>) -> (WsState, ActionKind) {
    match m {
        None => (WsState::Closed, ActionKind::ReportAndClose(WsError::InvalidMessage)),
        Some(msg) => if msg.kind@ != "subscribe"@ {
            (WsState::Closed, ActionKind::ReportAndClose(WsError::ExpectedSubscribe))
        } else {
            match msg.resume_id {
                None => (WsState::Closed, ActionKind::ReportAndClose(WsError::MissingResumeId)),
                Some(r) => (WsState::Authorizing { resume_id: r }, ActionKind::Authorize(r)),
            }
        },
    }
}

/// How a subscribed session reacts to a text message.
pub open spec fn while_subscribed(current: i32, m: Option<ClientMessage>) -> (WsState, ActionKind) {
    match m {
        None => (WsState::Subscribed { resume_id: current }, ActionKind::Wait),
        Some(msg) => if msg.kind@ == "unsubscribe"@ {
            (WsState::Closed, ActionKind::Close)
        } else if msg.kind@ == "subscribe"@ {
            match msg.resume_id {
                Some(next) => if next != current {
                    (WsState::Switching { current, next }, ActionKind::Authorize(next))
                } else {
                    (WsState::Subscribed { resume_id: current }, ActionKind::Wait)
                },
                None => (WsState::Subscribed { resume_id: current }, ActionKind::Wait),
            }
        } else {
            (WsState::Subscribed { resume_id: current }, ActionKind::Wait)
        },
    }
}

/// The session's transition: the next state and the shape of the action.
pub open spec fn ws_step(s: WsState, e: WsEvent) -> (WsState, ActionKind) {
    match s {
        WsState::AwaitingSubscribe => match e {
            WsEvent::Received(f) => match first_message(f) {
                Some(m) => opening(m),
                None => (WsState::Closed, ActionKind::Close),
            },
            _ => (WsState::Closed, ActionKind::Close),
        },
        WsState::Authorizing { resume_id } => match e {
            WsEvent::Authorized(true) => (WsState::Subscribed { resume_id }, ActionKind::Subscribe(resume_id)),
            _ => (WsState::Closed, ActionKind::ReportAndClose(WsError::Forbidden)),
        },
        WsState::Subscribed { resume_id } => match e {
            WsEvent::Received(Frame::Text(m)) => while_subscribed(resume_id, m),
            WsEvent::Received(Frame::Close) => (WsState::Closed, ActionKind::Close),
            WsEvent::Received(_) => (WsState::Subscribed { resume_id }, ActionKind::Wait),
            WsEvent::StreamEnded => (WsState::Closed, ActionKind::Close),
            WsEvent::Notification(_) => (WsState::Subscribed { resume_id }, ActionKind::Forward),
            WsEvent::SendFailed => (WsState::Closed, ActionKind::Close),
            WsEvent::Authorized(_) => (WsState::Subscribed { resume_id }, ActionKind::Wait),
        },
        WsState::Switching { current, next } => match e {
            WsEvent::Authorized(true) => (WsState::Subscribed { resume_id: next }, ActionKind::Subscribe(next)),
            WsEvent::Authorized(false) => (WsState::Subscribed { resume_id: current }, ActionKind::Report(WsError::Forbidden)),
            _ => (WsState::Switching { current, next }, ActionKind::Wait),
        },
        WsState::Closed => (WsState::Closed, ActionKind::Close),
    }
}

/// The token of the client message an event carries, if it carries one.
pub open spec fn requested_token(e: WsEvent) -> Option<Option<String>> {
    match e {
        WsEvent::Received(Frame::Text(Some(m))) => Some(m.token),
        WsEvent::Received(Frame::Binary(Some(Some(m)))) => Some(m.token),
        _ => None,
    }
}

/// The decisions of a realtime WebSocket session: subscribe to a resume's
/// change notifications after authorization, switch on request, forward
/// notifications, and close on errors.
pub struct WsSession {
    pub state: WsState,
}

impl WsSession {
    /// A session that waits for its first message.
    pub fn new() -> (s: WsSession)
        ensures
            s.state == WsState::AwaitingSubscribe,
    {
        WsSession { state: WsState::AwaitingSubscribe }
    }

    fn open(m: Option<ClientMessage>) -> (r: (WsState, WsAction))
        ensures
            (r.0, kind_of(r.1)) == opening(m),
            m matches Some(msg) ==> (r.1 matches WsAction::Authorize { token, .. } ==> token == msg.token),
    {
        match m {
            None => (WsState::Closed, WsAction::ReportAndClose(WsError::InvalidMessage)),
            Some(msg) => {
                if !text_equals(msg.kind.as_str(), "subscribe") {
                    (WsState::Closed, WsAction::ReportAndClose(WsError::ExpectedSubscribe))
                } else {
                    match msg.resume_id {
                        None => (WsState::Closed, WsAction::ReportAndClose(WsError::MissingResumeId)),
                        Some(r) => (WsState::Authorizing { resume_id: r }, WsAction::Authorize { resume_id: r, token: msg.token }),
                    }
                }
            },
        }
    }

    fn command(current: i32, m: Option<ClientMessage>) -> (r: (WsState, WsAction))
        ensures
            (r.0, kind_of(r.1)) == while_subscribed(current, m),
            m matches Some(msg) ==> (r.1 matches WsAction::Authorize { token, .. } ==> token == msg.token),
    {
        match m {
            None => (WsState::Subscribed { resume_id: current }, WsAction::Wait),
            Some(msg) => {
                if text_equals(msg.kind.as_str(), "unsubscribe") {
                    (WsState::Closed, WsAction::Close)
                } else if text_equals(msg.kind.as_str(), "subscribe") {
                    match msg.resume_id {
                        Some(next) => {
                            if next != current {
                                (WsState::Switching { current, next }, WsAction::Authorize { resume_id: next, token: msg.token })
                            } else {
                                (WsState::Subscribed { resume_id: current }, WsAction::Wait)
                            }
                        },
                        None => (WsState::Subscribed { resume_id: current }, WsAction::Wait),
                    }
                } else {
                    (WsState::Subscribed { resume_id: current }, WsAction::Wait)
                }
            },
        }
    }

    /// Reacts to an event: moves to the next state and says what to do.
    pub fn handle(&mut self, event: WsEvent) -> (a: WsAction)
        ensures
            (final(self).state, kind_of(a)) == ws_step(old(self).state, event),
            a matches WsAction::Forward(n) ==> event == WsEvent::Notification(n),
            a matches WsAction::Authorize { token, .. } ==> requested_token(event) == Some(token),
    {
        let (next, action) = match self.state {
            WsState::AwaitingSubscribe => match event {
                WsEvent::Received(Frame::Text(m)) => Self::open(m),
                WsEvent::Received(Frame::Binary(Some(m))) => Self::open(m),
                _ => (WsState::Closed, WsAction::Close),
            },
            WsState::Authorizing { resume_id } => match event {
                WsEvent::Authorized(true) => (WsState::Subscribed { resume_id }, WsAction::Subscribe(resume_id)),
                _ => (WsState::Closed, WsAction::ReportAndClose(WsError::Forbidden)),
            },
            WsState::Subscribed { resume_id } => match event {
                WsEvent::Received(Frame::Text(m)) => Self::command(resume_id, m),
                WsEvent::Received(Frame::Close) => (WsState::Closed, WsAction::Close),
                WsEvent::Received(_) => (WsState::Subscribed { resume_id }, WsAction::Wait),
                WsEvent::StreamEnded => (WsState::Closed, WsAction::Close),
                WsEvent::Notification(n) => (WsState::Subscribed { resume_id }, WsAction::Forward(n)),
                WsEvent::SendFailed => (WsState::Closed, WsAction::Close),
                WsEvent::Authorized(_) => (WsState::Subscribed { resume_id }, WsAction::Wait),
            },
            WsState::Switching { current, next } => match event {
                WsEvent::Authorized(true) => (WsState::Subscribed { resume_id: next }, WsAction::Subscribe(next)),
                WsEvent::Authorized(false) => (WsState::Subscribed { resume_id: current }, WsAction::Report(WsError::Forbidden)),
                _ => (WsState::Switching { current, next }, WsAction::Wait),
            },
            WsState::Closed => (WsState::Closed, WsAction::Close),
        };
        self.state = next;
        action
    }
}

/// Where the check of a subscription's authorization stands.
#[derive(Clone, Copy, Debug, PartialEq, Eq, Structural)]
pub enum AuthorizeStep {
    /// Look up the user of this session.
    ResolveSession { resume_id: i32, session_id: u128 },
    /// Read the resume as this viewer (`None`: anonymous); the subscription
    /// is allowed when the read succeeds.
    ReadResume { resume_id: i32, viewer: Option<i32> },
    /// The answer.
    Decided(bool),
}

/// The first step of authorizing a subscription to `resume_id` with an
/// optional session token.
pub open spec fn authorize_first(resume_id: i32, token: Option<Seq<char>>) -> AuthorizeStep {
    match token {
        None => AuthorizeStep::ReadResume { resume_id, viewer: None },
        Some(t) => match parsed_uuid(t) {
            Some(session_id) => AuthorizeStep::ResolveSession { resume_id, session_id },
            None => AuthorizeStep::Decided(false),
        },
    }
}

/// Starts authorizing a subscription: a missing token reads the resume
/// anonymously, a token that is not a UUID is refused, any other token's
/// session is looked up first.
pub fn authorize_subscription(resume_id: i32, token: Option<&str>) -> (r: AuthorizeStep)
    ensures
        r == authorize_first(resume_id, match token { Some(t) => Some(t@), None => None }),
{
    match token {
        None => AuthorizeStep::ReadResume { resume_id, viewer: None },
        Some(t) => match parse_uuid(t) {
            Some(session_id) => AuthorizeStep::ResolveSession { resume_id, session_id },
            None => AuthorizeStep::Decided(false),
        },
    }
}

/// Continues after the session lookup: a live session's user reads the
/// resume; an unknown or expired session, or a failed lookup, is refused.
pub fn authorize_after_session(resume_id: i32, resolved: Result<Option<i32>, DbError>) -> (r: AuthorizeStep)
    ensures
        r == match resolved {
            Ok(Some(u)) => AuthorizeStep::ReadResume { resume_id, viewer: Some(u) },
            _ => AuthorizeStep::Decided(false),
        },
{
    match resolved {
        Ok(Some(u)) => AuthorizeStep::ReadResume { resume_id, viewer: Some(u) },
        _ => AuthorizeStep::Decided(false),
    }
}

/// Ends the check: the subscription is allowed exactly when the viewer could read the resume.
pub fn authorize_after_read<T>(read: &Result<T, ApplicationError>) -> (allowed: bool)
    ensures
        allowed == read is Ok,
{
    read.is_ok()
}

/// The session waits for the answer to an authorization request for resume `r`.
pub open spec fn awaits_authorization_of(s: WsState, r: i32) -> bool {
    match s {
        WsState::Authorizing { resume_id } => resume_id == r,
        WsState::Switching { next, .. } => next == r,
        _ => false,
    }
}

/// A session subscribes to a resume only right after the authorization it
/// requested for that very resume succeeded.
pub proof fn lemma_subscribe_only_after_authorization(s: WsState, e: WsEvent, r: i32)
    requires
        ws_step(s, e).1 == ActionKind::Subscribe(r),
    ensures
        e == WsEvent::Authorized(true),
        awaits_authorization_of(s, r),
{
}

/// A closed session stays closed.
pub proof fn lemma_closed_stays_closed(e: WsEvent)
    ensures
        ws_step(WsState::Closed, e) == (WsState::Closed, ActionKind::Close),
{
}

/// Notifications reach the client only while the session is subscribed, and
/// forwarding one leaves the subscription as it was.
pub proof fn lemma_forward_only_when_subscribed(s: WsState, e: WsEvent)
    requires
        ws_step(s, e).1 == ActionKind::Forward,
    ensures
        s is Subscribed,
        ws_step(s, e).0 == s,
{
}

/// A refused switch keeps the session on the resume it was subscribed to.
pub proof fn lemma_refused_switch_keeps_subscription(current: i32, next: i32)
    ensures
        ws_step(WsState::Switching { current, next }, WsEvent::Authorized(false))
            == (WsState::Subscribed { resume_id: current }, ActionKind::Report(WsError::Forbidden)),
{
}

/// The session currently receives the notifications of resume `r`.
pub open spec fn listening_to(s: WsState, r: i32) -> bool {
    match s {
        WsState::Subscribed { resume_id } => resume_id == r,
        WsState::Switching { current, .. } => current == r,
        _ => false,
    }
}

/// A session listening to one resume moves to another only when the switch
/// it requested to that resume was authorized.
pub proof fn lemma_subscription_moves_only_by_authorized_switch(s: WsState, e: WsEvent, r: i32, r2: i32)
    requires
        listening_to(s, r),
        ws_step(s, e).0 == (WsState::Subscribed { resume_id: r2 }),
        r2 != r,
    ensures
        s == (WsState::Switching { current: r, next: r2 }),
        e == WsEvent::Authorized(true),
{
}

} // verus!
