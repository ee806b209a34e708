use dhcp_client::dispatch::{DispatchLoop, LoopAction, LoopFault, LoopInput, LoopState};
use dhcp_client::event::{AppEvent, RawEvent};
use dhcp_client::lease::{lease_change, LeaseChange, LeaseSnapshot};
use dhcp_client::observer::{handle, lease_status, notice_for, ping, LeaseStatus, Notice};
use dhcp_client::startup::{
    after_stage, EngineObject, StartupError, StartupOutcome, StartupStage,
};
use dhcp_client::event::Classified;

fn popped(discriminant: u32, payload: &[u8]) -> LoopInput {
    LoopInput::Popped(RawEvent { discriminant, payload: payload.to_vec() })
}

#[test]
fn drain_delivers_every_queued_event_in_order() {
    let (mut l, first) = DispatchLoop::new();
    assert!(matches!(first, LoopAction::Advance));
    assert!(matches!(l.on_input(LoopInput::Advanced), LoopAction::Pop));
    let queued = [(1u32, &b""[..]), (7, &b"renewing"[..]), (2, &b""[..])];
    let mut delivered = Vec::new();
    for (d, p) in queued.iter() {
        match l.on_input(popped(*d, p)) {
            LoopAction::Deliver(c) => delivered.push(c),
            other => panic!("expected a delivery, got {:?}", other),
        }
    }
    assert!(matches!(l.on_input(LoopInput::QueueEmpty), LoopAction::Advance));
    assert_eq!(l.state, LoopState::Advancing);
    assert_eq!(delivered.len(), 3);
    assert_eq!(delivered[0].event, AppEvent::Offer);
    assert_eq!(delivered[1].event, AppEvent::Log);
    assert_eq!(delivered[1].message, Some("renewing".to_string()));
    assert_eq!(delivered[2].event, AppEvent::Granted);
}

#[test]
fn empty_queue_re_advances_at_once() {
    let (mut l, _) = DispatchLoop::new();
    assert!(matches!(l.on_input(LoopInput::Advanced), LoopAction::Pop));
    assert!(matches!(l.on_input(LoopInput::QueueEmpty), LoopAction::Advance));
    assert_eq!(l.state, LoopState::Advancing);
}

#[test]
fn advance_failure_stops_the_loop() {
    let (mut l, _) = DispatchLoop::new();
    assert!(matches!(
        l.on_input(LoopInput::AdvanceFailed),
        LoopAction::Stop(LoopFault::AdvanceFailed)
    ));
    assert_eq!(l.state, LoopState::Stopped);
    assert!(matches!(l.on_input(LoopInput::Advanced), LoopAction::Idle));
}

#[test]
fn unknown_event_stops_the_loop() {
    let (mut l, _) = DispatchLoop::new();
    l.on_input(LoopInput::Advanced);
    assert!(matches!(
        l.on_input(popped(9, b"")),
        LoopAction::Stop(LoopFault::UnknownEvent(9))
    ));
    assert_eq!(l.state, LoopState::Stopped);
}

#[test]
fn out_of_turn_report_stops_the_loop() {
    let (mut l, _) = DispatchLoop::new();
    assert!(matches!(
        l.on_input(LoopInput::QueueEmpty),
        LoopAction::Stop(LoopFault::UnexpectedInput)
    ));
    let (mut l, _) = DispatchLoop::new();
    l.on_input(LoopInput::Advanced);
    assert!(matches!(
        l.on_input(LoopInput::Advanced),
        LoopAction::Stop(LoopFault::UnexpectedInput)
    ));
}

#[test]
fn malformed_log_is_delivered_without_message() {
    let (mut l, _) = DispatchLoop::new();
    l.on_input(LoopInput::Advanced);
    match l.on_input(popped(7, &[0xff])) {
        LoopAction::Deliver(c) => {
            assert_eq!(c.event, AppEvent::Log);
            assert_eq!(c.message, None);
            assert!(matches!(notice_for(c), Notice::Transition(AppEvent::Log)));
        }
        other => panic!("expected a delivery, got {:?}", other),
    }
    assert_eq!(l.state, LoopState::Draining);
}

#[test]
fn ping_echoes() {
    assert_eq!(ping("hello".to_string()), "hello");
    assert_eq!(ping("hello".to_string()), "hello");
    assert_eq!(ping(String::new()), "");
}

#[test]
fn notices() {
    let c = Classified { event: AppEvent::Log, message: Some("hi".to_string()) };
    assert!(matches!(notice_for(c), Notice::Message(m) if m == "hi"));
    let c = Classified { event: AppEvent::Expired, message: None };
    assert!(matches!(notice_for(c), Notice::Transition(AppEvent::Expired)));
}

#[test]
fn lease_changes() {
    assert_eq!(lease_change(AppEvent::Granted), LeaseChange::Publish);
    assert_eq!(lease_change(AppEvent::Extended), LeaseChange::Publish);
    for e in [AppEvent::Retracted, AppEvent::Expired, AppEvent::Cancelled, AppEvent::Down] {
        assert_eq!(lease_change(e), LeaseChange::Clear);
    }
    assert_eq!(lease_change(AppEvent::Offer), LeaseChange::Keep);
    assert_eq!(lease_change(AppEvent::Log), LeaseChange::Keep);
}

#[test]
fn lease_snapshot_follows_events() {
    let s = LeaseSnapshot::initial();
    assert_eq!(lease_status(&s), LeaseStatus::NotLeased);
    let s = s.after(AppEvent::Offer);
    assert_eq!(s, LeaseSnapshot { leased: false, revision: 0 });
    let s = s.after(AppEvent::Granted);
    assert_eq!(s, LeaseSnapshot { leased: true, revision: 1 });
    assert_eq!(lease_status(&s), LeaseStatus::Leased);
    let s = s.after(AppEvent::Extended);
    assert_eq!(s, LeaseSnapshot { leased: true, revision: 2 });
    let s = s.after(AppEvent::Expired);
    assert_eq!(s, LeaseSnapshot { leased: false, revision: 3 });
    let s = s.after(AppEvent::Down);
    assert_eq!(s, LeaseSnapshot { leased: false, revision: 3 });
    let top = LeaseSnapshot { leased: false, revision: u64::MAX };
    assert_eq!(top.after(AppEvent::Granted), LeaseSnapshot { leased: true, revision: u64::MAX });
}

#[test]
fn handler_publishes_and_reports() {
    let c = Classified { event: AppEvent::Granted, message: None };
    let (notice, s) = handle(LeaseSnapshot::initial(), c);
    assert!(matches!(notice, Notice::Transition(AppEvent::Granted)));
    assert!(s.leased);
}

#[test]
fn startup_failures_release_what_exists() {
    let r = after_stage(StartupStage::CreateConfig, false);
    assert!(r.release.is_empty());
    assert_eq!(r.outcome, StartupOutcome::Failed(StartupError::ConfigCreationFailed));
    let r = after_stage(StartupStage::CreateClient, false);
    assert_eq!(r.release, vec![EngineObject::Config]);
    assert_eq!(r.outcome, StartupOutcome::Failed(StartupError::ClientCreationFailed));
    let r = after_stage(StartupStage::CreateProbeConfig, false);
    assert_eq!(r.release, vec![EngineObject::Client]);
    assert_eq!(r.outcome, StartupOutcome::Failed(StartupError::ProbeConfigCreationFailed));
    let r = after_stage(StartupStage::StartProbe, false);
    assert_eq!(r.release, vec![EngineObject::ProbeConfig, EngineObject::Client]);
    assert_eq!(r.outcome, StartupOutcome::Failed(StartupError::ProbeStartFailed));
}

#[test]
fn startup_successes_release_spent_configurations() {
    let r = after_stage(StartupStage::CreateConfig, true);
    assert!(r.release.is_empty());
    let r = after_stage(StartupStage::CreateClient, true);
    assert_eq!(r.release, vec![EngineObject::Config]);
    let r = after_stage(StartupStage::StartProbe, true);
    assert_eq!(r.release, vec![EngineObject::ProbeConfig]);
    assert_eq!(r.outcome, StartupOutcome::Ready);
}
