use reserve_tracker::scheduler::{event_of, BackgroundTaskMsg, Scheduler, SchedulerAction, SchedulerEvent, SchedulerState};

#[test]
fn tick_and_run_now_start_a_run_when_idle() {
    let mut s = Scheduler::new();
    assert_eq!(s.on_event(SchedulerEvent::Tick), SchedulerAction::StartRun);
    assert_eq!(s.state(), SchedulerState::Running);
    assert_eq!(s.on_event(SchedulerEvent::RunFinished), SchedulerAction::Wait);
    assert_eq!(s.on_event(SchedulerEvent::RunNow), SchedulerAction::StartRun);
}

#[test]
fn run_now_during_a_run_starts_nothing() {
    let mut s = Scheduler::new();
    let events = [
        SchedulerEvent::Tick,
        SchedulerEvent::RunNow,
        SchedulerEvent::Tick,
        SchedulerEvent::RunNow,
        SchedulerEvent::RunFinished,
        SchedulerEvent::RunNow,
        SchedulerEvent::RunNow,
        SchedulerEvent::RunFinished,
    ];
    let mut in_flight: i32 = 0;
    let mut most: i32 = 0;
    let mut started = 0;
    for e in events {
        if e == SchedulerEvent::RunFinished && in_flight > 0 {
            in_flight -= 1;
        }
        if s.on_event(e) == SchedulerAction::StartRun {
            in_flight += 1;
            started += 1;
        }
        most = most.max(in_flight);
    }
    assert_eq!(most, 1);
    assert_eq!(started, 2);
    assert_eq!(in_flight, 0);
}

#[test]
fn shutdown_when_idle_exits() {
    let mut s = Scheduler::new();
    assert_eq!(s.on_event(SchedulerEvent::Shutdown), SchedulerAction::Exit);
    assert!(s.is_stopped());
    assert_eq!(s.on_event(SchedulerEvent::Tick), SchedulerAction::Exit);
}

#[test]
fn shutdown_during_a_run_waits_for_it() {
    let mut s = Scheduler::new();
    s.on_event(SchedulerEvent::Tick);
    assert_eq!(s.on_event(SchedulerEvent::Shutdown), SchedulerAction::Wait);
    assert_eq!(s.state(), SchedulerState::Draining);
    assert_eq!(s.on_event(SchedulerEvent::RunNow), SchedulerAction::Wait);
    assert!(!s.is_stopped());
    assert_eq!(s.on_event(SchedulerEvent::RunFinished), SchedulerAction::Exit);
    assert!(s.is_stopped());
}

#[test]
fn channel_messages_become_events() {
    assert_eq!(event_of(Some(BackgroundTaskMsg::RunNow)), SchedulerEvent::RunNow);
    assert_eq!(event_of(Some(BackgroundTaskMsg::Shutdown)), SchedulerEvent::Shutdown);
    assert_eq!(event_of(None), SchedulerEvent::Shutdown);
}
