use profile_backend::error::{ApplicationError, DbError};
use profile_backend::realtime::{ResumeChangedAction, ResumeChangedEvent, SectionType};
use profile_backend::ws::{
    authorize_after_read, authorize_after_session, authorize_subscription, AuthorizeStep,
    ClientMessage, Frame, WsAction, WsError, WsEvent, WsSession, WsState,
};

fn msg(kind: &str, resume_id: Option<i32>, token: Option<&str>) -> ClientMessage {
    ClientMessage { kind: kind.to_string(), resume_id, token: token.map(|t| t.to_string()) }
}

fn text(m: ClientMessage) -> WsEvent {
    WsEvent::Received(Frame::Text(Some(m)))
}

fn subscribed_to(resume_id: i32) -> WsSession {
    let mut s = WsSession::new();
    match s.handle(text(msg("subscribe", Some(resume_id), Some("tok")))) {
        WsAction::Authorize { resume_id: r, token } => {
            assert_eq!(r, resume_id);
            assert_eq!(token, Some("tok".to_string()));
        }
        other => panic!("unexpected {:?}", other),
    }
    assert!(matches!(s.handle(WsEvent::Authorized(true)), WsAction::Subscribe(r) if r == resume_id));
    assert_eq!(s.state, WsState::Subscribed { resume_id });
    s
}

#[test]
fn subscribe_authorize_and_forward() {
    let mut s = subscribed_to(42);
    let evt = ResumeChangedEvent {
        kind: "resume.changed".to_string(),
        resume_id: 42,
        action: ResumeChangedAction::Updated(SectionType::PersonalInfo),
    };
    match s.handle(WsEvent::Notification(evt.clone())) {
        WsAction::Forward(e) => assert_eq!(e, evt),
        other => panic!("unexpected {:?}", other),
    }
    assert_eq!(s.state, WsState::Subscribed { resume_id: 42 });
}

#[test]
fn first_message_errors_close_the_session() {
    let mut s = WsSession::new();
    assert!(matches!(
        s.handle(WsEvent::Received(Frame::Text(None))),
        WsAction::ReportAndClose(WsError::InvalidMessage)
    ));
    assert_eq!(s.state, WsState::Closed);

    let mut s = WsSession::new();
    assert!(matches!(
        s.handle(text(msg("unsubscribe", Some(1), None))),
        WsAction::ReportAndClose(WsError::ExpectedSubscribe)
    ));

    let mut s = WsSession::new();
    assert!(matches!(
        s.handle(text(msg("subscribe", None, None))),
        WsAction::ReportAndClose(WsError::MissingResumeId)
    ));

    let mut s = WsSession::new();
    assert!(matches!(s.handle(WsEvent::Received(Frame::Binary(None))), WsAction::Close));
    let mut s = WsSession::new();
    assert!(matches!(s.handle(WsEvent::StreamEnded), WsAction::Close));
    let mut s = WsSession::new();
    assert!(matches!(
        s.handle(WsEvent::Received(Frame::Binary(Some(Some(msg("subscribe", Some(3), None)))))),
        WsAction::Authorize { resume_id: 3, token: None }
    ));
}

#[test]
fn refused_first_subscription_is_forbidden() {
    let mut s = WsSession::new();
    s.handle(text(msg("subscribe", Some(5), None)));
    assert!(matches!(
        s.handle(WsEvent::Authorized(false)),
        WsAction::ReportAndClose(WsError::Forbidden)
    ));
    assert_eq!(s.state, WsState::Closed);
    assert!(matches!(s.handle(WsEvent::StreamEnded), WsAction::Close));
}

#[test]
fn switching_resumes() {
    let mut s = subscribed_to(1);
    assert!(matches!(
        s.handle(text(msg("subscribe", Some(2), None))),
        WsAction::Authorize { resume_id: 2, token: None }
    ));
    assert_eq!(s.state, WsState::Switching { current: 1, next: 2 });
    assert!(matches!(s.handle(WsEvent::Authorized(false)), WsAction::Report(WsError::Forbidden)));
    assert_eq!(s.state, WsState::Subscribed { resume_id: 1 });

    s.handle(text(msg("subscribe", Some(2), None)));
    assert!(matches!(s.handle(WsEvent::Authorized(true)), WsAction::Subscribe(2)));
    assert_eq!(s.state, WsState::Subscribed { resume_id: 2 });

    // The same resume again, a subscribe without id, and unknown messages change nothing.
    assert!(matches!(s.handle(text(msg("subscribe", Some(2), None))), WsAction::Wait));
    assert!(matches!(s.handle(text(msg("subscribe", None, None))), WsAction::Wait));
    assert!(matches!(s.handle(text(msg("ping", None, None))), WsAction::Wait));
    assert!(matches!(s.handle(WsEvent::Received(Frame::Text(None))), WsAction::Wait));
    assert!(matches!(s.handle(WsEvent::Received(Frame::Other)), WsAction::Wait));
    assert_eq!(s.state, WsState::Subscribed { resume_id: 2 });
}

#[test]
fn subscribed_session_ends() {
    let mut s = subscribed_to(1);
    assert!(matches!(s.handle(text(msg("unsubscribe", None, None))), WsAction::Close));
    assert_eq!(s.state, WsState::Closed);
    let mut s = subscribed_to(1);
    assert!(matches!(s.handle(WsEvent::Received(Frame::Close)), WsAction::Close));
    let mut s = subscribed_to(1);
    assert!(matches!(s.handle(WsEvent::SendFailed), WsAction::Close));
    let mut s = subscribed_to(1);
    assert!(matches!(s.handle(WsEvent::StreamEnded), WsAction::Close));
}

#[test]
fn error_texts() {
    assert_eq!(WsError::InvalidMessage.text(), r#"{"type":"error","message":"invalid_message"}"#);
    assert_eq!(WsError::ExpectedSubscribe.text(), r#"{"type":"error","message":"expected_subscribe"}"#);
    assert_eq!(WsError::MissingResumeId.text(), r#"{"type":"error","message":"missing_resume_id"}"#);
    assert_eq!(WsError::Forbidden.text(), r#"{"type":"error","message":"forbidden"}"#);
}

#[test]
fn subscription_authorization_steps() {
    assert_eq!(
        authorize_subscription(3, None),
        AuthorizeStep::ReadResume { resume_id: 3, viewer: None }
    );
    assert_eq!(authorize_subscription(3, Some("nope")), AuthorizeStep::Decided(false));
    assert_eq!(
        authorize_subscription(3, Some("67e55044-10b1-426f-9247-bb680e5fe0c8")),
        AuthorizeStep::ResolveSession { resume_id: 3, session_id: 0x67e5_5044_10b1_426f_9247_bb68_0e5f_e0c8 }
    );
    assert_eq!(
        authorize_after_session(3, Ok(Some(7))),
        AuthorizeStep::ReadResume { resume_id: 3, viewer: Some(7) }
    );
    assert_eq!(authorize_after_session(3, Ok(None)), AuthorizeStep::Decided(false));
    assert_eq!(authorize_after_session(3, Err(DbError::NotFound)), AuthorizeStep::Decided(false));
    assert!(authorize_after_read::<()>(&Ok(())));
    assert!(!authorize_after_read::<()>(&Err(ApplicationError::NotFound("x".to_string()))));
}
