use athena_editor::session::{react, ElementState, Frame, GuiEvent, Reaction, SharedData, WindowEvent};
use athena_editor::view::display_error;

#[test]
fn showing_queues_the_layout() {
    let layout = display_error("boom");
    let data = SharedData::showing(layout.clone());
    assert_eq!(data, SharedData { canceled: false, queued_layout: Some(layout) });
}

#[test]
fn take_layout_hands_the_layout_out_once() {
    let layout = display_error("boom");
    let mut data = SharedData::showing(layout.clone());
    assert_eq!(data.take_layout(), Some(layout));
    assert_eq!(data, SharedData { canceled: false, queued_layout: None });
    assert_eq!(data.take_layout(), None);
    assert_eq!(data, SharedData { canceled: false, queued_layout: None });
}

#[test]
fn take_layout_leaves_the_flag_alone() {
    let mut data = SharedData { canceled: true, queued_layout: Some(display_error("x")) };
    assert!(data.take_layout().is_some());
    assert_eq!(data, SharedData { canceled: true, queued_layout: None });
}

#[test]
fn a_frame_with_a_waiting_layout_swaps_it_in() {
    let layout = display_error("boom");
    let mut data = SharedData::showing(layout.clone());
    assert_eq!(data.begin_frame(), Frame::Draw { root: Some(layout) });
    assert_eq!(data, SharedData { canceled: false, queued_layout: None });
}

#[test]
fn a_frame_with_nothing_waiting_keeps_the_root() {
    let mut data = SharedData { canceled: false, queued_layout: None };
    assert_eq!(data.begin_frame(), Frame::Draw { root: None });
    assert_eq!(data, SharedData { canceled: false, queued_layout: None });
}

#[test]
fn a_canceled_editor_stops_and_keeps_what_waits() {
    let layout = display_error("boom");
    let mut data = SharedData { canceled: true, queued_layout: Some(layout.clone()) };
    assert_eq!(data.begin_frame(), Frame::Stop);
    assert_eq!(data, SharedData { canceled: true, queued_layout: Some(layout) });
    let mut idle = SharedData { canceled: true, queued_layout: None };
    assert_eq!(idle.begin_frame(), Frame::Stop);
}

#[test]
fn closing_the_window_quits() {
    assert_eq!(react(WindowEvent::Closed), Reaction::Quit);
}

#[test]
fn pointer_motion_is_passed_on_with_its_position() {
    assert_eq!(
        react(WindowEvent::MouseMoved { x: 12, y: 340 }),
        Reaction::Raise(GuiEvent::MouseMoved { x: 12, y: 340 })
    );
    assert_eq!(
        react(WindowEvent::MouseMoved { x: -5, y: i32::MAX }),
        Reaction::Raise(GuiEvent::MouseMoved { x: -5, y: i32::MAX })
    );
}

#[test]
fn a_button_coming_up_is_a_click() {
    assert_eq!(
        react(WindowEvent::MouseInput { state: ElementState::Released }),
        Reaction::Raise(GuiEvent::MouseClick)
    );
}

#[test]
fn a_button_going_down_is_ignored() {
    assert_eq!(react(WindowEvent::MouseInput { state: ElementState::Pressed }), Reaction::Ignore);
}

#[test]
fn other_events_are_ignored() {
    assert_eq!(react(WindowEvent::Other), Reaction::Ignore);
}
