use profile_backend::realtime::{Hub, ResumeChangedAction, SectionType, TryRecvError};

#[test]
fn subscribe_then_publish_delivers_event() {
    let mut hub = Hub::new();
    let mut rx = hub.subscribe(123);

    hub.publish_resume_changed(123, ResumeChangedAction::Updated(SectionType::PersonalInfo));

    let evt = rx.try_recv(&hub).expect("event should be delivered");
    assert_eq!(evt.resume_id, 123);
    assert_eq!(
        evt.action,
        ResumeChangedAction::Updated(SectionType::PersonalInfo)
    );
    assert_eq!(evt.kind, "resume.changed");
}

#[test]
fn caught_up_receiver_gets_only_the_next_event() {
    let mut hub = Hub::new();
    let mut rx = hub.subscribe(7);
    hub.publish_resume_changed(7, ResumeChangedAction::Created);
    let first = rx.try_recv(&hub).expect("created event");
    assert_eq!(first.action, ResumeChangedAction::Created);
    assert_eq!(rx.try_recv(&hub), Err(TryRecvError::Empty));
}

#[test]
fn new_subscriber_does_not_see_earlier_events() {
    let mut hub = Hub::new();
    hub.publish_resume_changed(5, ResumeChangedAction::Created);
    hub.publish_resume_changed(5, ResumeChangedAction::Deleted);
    let mut rx = hub.subscribe(5);
    assert_eq!(rx.try_recv(&hub), Err(TryRecvError::Empty));
    assert_eq!(hub.published_count(5), 2);
}

#[test]
fn events_arrive_in_publication_order() {
    let mut hub = Hub::new();
    let mut rx = hub.subscribe(1);
    hub.publish_resume_changed(1, ResumeChangedAction::Created);
    hub.publish_resume_changed(1, ResumeChangedAction::Updated(SectionType::Skills));
    hub.publish_resume_changed(1, ResumeChangedAction::Deleted);
    assert_eq!(rx.try_recv(&hub).unwrap().action, ResumeChangedAction::Created);
    assert_eq!(
        rx.try_recv(&hub).unwrap().action,
        ResumeChangedAction::Updated(SectionType::Skills)
    );
    assert_eq!(rx.try_recv(&hub).unwrap().action, ResumeChangedAction::Deleted);
    assert_eq!(rx.try_recv(&hub), Err(TryRecvError::Empty));
}

#[test]
fn topics_are_separate_per_resume() {
    let mut hub = Hub::new();
    let mut a = hub.subscribe(1);
    let mut b = hub.subscribe(2);
    hub.publish_resume_changed(2, ResumeChangedAction::Deleted);
    assert_eq!(a.try_recv(&hub), Err(TryRecvError::Empty));
    let evt = b.try_recv(&hub).unwrap();
    assert_eq!(evt.resume_id, 2);
    assert_eq!(hub.published_count(1), 0);
    assert_eq!(hub.published_count(3), 0);
}

#[test]
fn lagging_receiver_reports_missed_and_resumes_at_oldest_kept() {
    let mut hub = Hub::new();
    let mut rx = hub.subscribe(9);
    for _ in 0..130 {
        hub.publish_resume_changed(9, ResumeChangedAction::Updated(SectionType::Education));
    }
    hub.publish_resume_changed(9, ResumeChangedAction::Deleted);
    // 131 published, 128 kept: the first 3 are gone.
    assert_eq!(rx.try_recv(&hub), Err(TryRecvError::Lagged(3)));
    for _ in 0..127 {
        assert_eq!(
            rx.try_recv(&hub).unwrap().action,
            ResumeChangedAction::Updated(SectionType::Education)
        );
    }
    assert_eq!(rx.try_recv(&hub).unwrap().action, ResumeChangedAction::Deleted);
    assert_eq!(rx.try_recv(&hub), Err(TryRecvError::Empty));
}

#[test]
fn every_subscriber_receives_the_whole_burst() {
    let mut hub = Hub::new();
    let mut a = hub.subscribe(4);
    let mut b = hub.subscribe(4);
    let actions = vec![
        ResumeChangedAction::Created,
        ResumeChangedAction::Updated(SectionType::Skills),
        ResumeChangedAction::Updated(SectionType::Languages),
        ResumeChangedAction::Deleted,
    ];
    for act in &actions {
        hub.publish_resume_changed(4, *act);
    }
    for rx in [&mut a, &mut b] {
        for act in &actions {
            let evt = rx.try_recv(&hub).unwrap();
            assert_eq!((evt.kind.as_str(), evt.resume_id, evt.action), ("resume.changed", 4, *act));
        }
        assert_eq!(rx.try_recv(&hub), Err(TryRecvError::Empty));
    }
}

#[test]
fn receivers_read_from_their_own_hub() {
    let mut hub = Hub::new();
    let rx = hub.subscribe(2);
    assert!(rx.reads_from(&hub));
    hub.publish_resume_changed(2, ResumeChangedAction::Deleted);
    assert!(rx.reads_from(&hub));
}
