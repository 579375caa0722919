use app_surface::event_loop::{
    ControlFlow, ExampleKind, Key, LoopState, Mode, WaitDecision, WindowAction, WindowEvent,
    POLL_SLEEP_MILLIS, WAIT_MILLIS,
};

#[test]
fn loop_polls_by_default() {
    assert_eq!(Mode::default(), Mode::Poll);
    let state = LoopState::new(Mode::default());
    assert_eq!(
        state,
        LoopState { mode: Mode::Poll, wait_cancelled: false, close_requested: false }
    );
    assert_eq!((WAIT_MILLIS, POLL_SLEEP_MILLIS), (16, 16));
}

#[test]
fn cancelled_wait_counts_only_when_waiting_until() {
    let mut state = LoopState::new(Mode::WaitUntil);
    state.new_events(true);
    assert!(state.wait_cancelled);
    state.new_events(false);
    assert!(!state.wait_cancelled);
    for mode in [Mode::Wait, Mode::Poll] {
        let mut state = LoopState::new(mode);
        state.new_events(true);
        assert!(!state.wait_cancelled);
    }
}

#[test]
fn resize_to_zero_reports_a_minimised_window() {
    let mut state = LoopState::new(Mode::Poll);
    assert_eq!(
        state.window_event(WindowEvent::Resized { width: 0, height: 600 }),
        WindowAction::ReportMinimized
    );
    assert_eq!(
        state.window_event(WindowEvent::Resized { width: 800, height: 0 }),
        WindowAction::ReportMinimized
    );
    assert_eq!(
        state.window_event(WindowEvent::Resized { width: 0, height: 0 }),
        WindowAction::ReportMinimized
    );
    assert_eq!(
        state.window_event(WindowEvent::Resized { width: 1, height: 1 }),
        WindowAction::ResizeSurface
    );
    assert_eq!(state, LoopState::new(Mode::Poll));
}

#[test]
fn digit_keys_select_examples() {
    let mut state = LoopState::new(Mode::Poll);
    let cases = [
        (Key::Digit1, 1),
        (Key::Digit2, 2),
        (Key::Digit3, 3),
        (Key::Digit4, 4),
        (Key::Digit5, 5),
        (Key::Other, 0),
    ];
    for (key, index) in cases {
        assert_eq!(
            state.window_event(WindowEvent::KeyPressed(key)),
            WindowAction::ChangeExample(index)
        );
    }
    assert_eq!(state.user_event(3), WindowAction::ChangeExample(3));
    assert_eq!(state.user_event(1), WindowAction::ChangeExample(1));
    assert_eq!(state.user_event(4), WindowAction::ChangeExample(4));
    assert_eq!(state.user_event(5), WindowAction::ChangeExample(0));
    assert_eq!(state.user_event(0), WindowAction::ChangeExample(0));
    assert_eq!(state.user_event(-1), WindowAction::ChangeExample(0));
}

#[test]
fn example_index_names_a_rendering() {
    assert_eq!(ExampleKind::from_index(0), ExampleKind::Boids);
    assert_eq!(ExampleKind::from_index(1), ExampleKind::MsaaLine);
    assert_eq!(ExampleKind::from_index(2), ExampleKind::Cube);
    assert_eq!(ExampleKind::from_index(3), ExampleKind::Water);
    assert_eq!(ExampleKind::from_index(4), ExampleKind::Shadow);
    assert_eq!(ExampleKind::from_index(5), ExampleKind::HdrImageView);
    assert_eq!(ExampleKind::from_index(-7), ExampleKind::HdrImageView);
    assert_eq!(ExampleKind::from_index(i32::MAX), ExampleKind::HdrImageView);
}

#[test]
fn close_request_is_remembered_until_the_loop_waits() {
    let mut state = LoopState::new(Mode::Wait);
    assert!(!state.about_to_wait().exit);
    assert_eq!(state.window_event(WindowEvent::CloseRequested), WindowAction::Ignore);
    assert!(state.close_requested);
    assert_eq!(state.window_event(WindowEvent::RedrawRequested), WindowAction::RenderFrame);
    assert_eq!(state.window_event(WindowEvent::Other), WindowAction::Ignore);
    assert!(state.close_requested);
    assert!(state.about_to_wait().exit);
}

#[test]
fn each_mode_paces_the_loop_in_its_way() {
    assert_eq!(
        LoopState::new(Mode::Wait).about_to_wait(),
        WaitDecision { sleep_millis: 0, control_flow: Some(ControlFlow::Wait), exit: false }
    );
    assert_eq!(
        LoopState::new(Mode::Poll).about_to_wait(),
        WaitDecision { sleep_millis: 16, control_flow: Some(ControlFlow::Poll), exit: false }
    );
    let mut waiting = LoopState::new(Mode::WaitUntil);
    assert_eq!(
        waiting.about_to_wait(),
        WaitDecision {
            sleep_millis: 0,
            control_flow: Some(ControlFlow::WaitUntil { millis: 16 }),
            exit: false,
        }
    );
    waiting.new_events(true);
    assert_eq!(
        waiting.about_to_wait(),
        WaitDecision { sleep_millis: 0, control_flow: None, exit: false }
    );
}
