use cosy::frame::{FrameLoop, LoopAction, LoopEvent, LoopState};

#[test]
fn idle_ticks_render_while_running() {
    let mut fl = FrameLoop::new();
    assert_eq!(fl.step(LoopEvent::IdleTick), LoopAction::Render);
    assert_eq!(fl.step(LoopEvent::Other), LoopAction::Ignore);
    assert_eq!(fl.step(LoopEvent::IdleTick), LoopAction::Render);
    assert_eq!(fl.state, LoopState::Running);
    assert!(!fl.released);
}

#[test]
fn close_destroys_exactly_once_and_stops_rendering() {
    let mut fl = FrameLoop::new();
    assert_eq!(fl.step(LoopEvent::IdleTick), LoopAction::Render);
    assert_eq!(fl.step(LoopEvent::CloseRequested), LoopAction::ReleaseInstance);
    assert_eq!(fl.state, LoopState::Destroying);
    assert!(fl.released);
    // Whatever still arrives, the render stub is never invoked again and
    // the instance is never released a second time.
    assert_eq!(fl.step(LoopEvent::IdleTick), LoopAction::Ignore);
    assert_eq!(fl.step(LoopEvent::CloseRequested), LoopAction::Ignore);
    assert_eq!(fl.step(LoopEvent::Other), LoopAction::Ignore);
    assert_eq!(fl.state, LoopState::Destroying);
    assert!(fl.released);
}
