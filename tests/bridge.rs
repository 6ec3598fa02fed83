use window_host::{
    pixel_delta, scroll_phase, Bridge, EngineEvent, HostAction, HostEvent, PixelDelta,
    ScrollPhase, SessionState, TouchPhase, WheelDelta, LINE_HEIGHT, RELOAD_KEY,
};

type Event = HostEvent<(f64, f64), f32, u32>;
type Action = HostAction<(f64, f64), f32, u32>;

fn active_bridge(id: u32) -> Bridge<(f64, f64), u32> {
    let mut b: Bridge<(f64, f64), u32> = Bridge::new((0.0, 0.0));
    b.handle::<f32>(Event::Start);
    b.handle::<f32>(Event::SessionCreated(id));
    b
}

#[test]
fn phases_map_onto_three_states() {
    assert_eq!(scroll_phase(TouchPhase::Started), ScrollPhase::Down);
    assert_eq!(scroll_phase(TouchPhase::Moved), ScrollPhase::Move);
    assert_eq!(scroll_phase(TouchPhase::Ended), ScrollPhase::Up);
    assert_eq!(scroll_phase(TouchPhase::Cancelled), ScrollPhase::Up);
}

#[test]
fn line_delta_scales_vertically_by_line_height() {
    let d = pixel_delta(WheelDelta::Lines { dx: 2.0f32, dy: 3.0f32 });
    assert_eq!(d, PixelDelta { dx: 2.0, dy: 3.0, dy_scale: 38 });
    assert_eq!(LINE_HEIGHT, 38);
    assert_eq!(d.dx, 2.0);
    assert_eq!(d.dy * d.dy_scale as f32, 114.0);
}

#[test]
fn pixel_delta_passes_through() {
    let d = pixel_delta(WheelDelta::Pixels { dx: -4.5f32, dy: 12.25f32 });
    assert_eq!(d, PixelDelta { dx: -4.5, dy: 12.25, dy_scale: 1 });
    assert_eq!(d.dy * d.dy_scale as f32, 12.25);
}

#[test]
fn pointer_state_is_last_move() {
    let mut b: Bridge<(f64, f64), u32> = Bridge::new((0.0, 0.0));
    let moves = [(1.0, 2.0), (30.5, 40.0), (7.0, 8.0)];
    for &m in moves.iter() {
        let r = b.handle::<f32>(Event::PointerMoved(m));
        assert_eq!(r, vec![Action::Submit(EngineEvent::PointerMove(m))]);
        assert_eq!(b.pointer, m);
    }
    assert_eq!(b.pointer, (7.0, 8.0));
}

#[test]
fn scroll_uses_last_pointer_position() {
    let mut b: Bridge<(f64, f64), u32> = Bridge::new((0.0, 0.0));
    b.handle::<f32>(Event::PointerMoved((10.0, 20.0)));
    b.handle::<f32>(Event::PointerMoved((15.0, 25.0)));
    b.handle::<f32>(Event::Other);
    let r = b.handle(Event::Wheel {
        delta: WheelDelta::Lines { dx: 0.0, dy: -1.0 },
        phase: TouchPhase::Moved,
    });
    assert_eq!(
        r,
        vec![Action::Submit(EngineEvent::Scroll {
            delta: PixelDelta { dx: 0.0, dy: -1.0, dy_scale: 38 },
            at: (15.0, 25.0),
            phase: ScrollPhase::Move,
        })]
    );
    assert_eq!(b.pointer, (15.0, 25.0));
}

#[test]
fn scroll_before_any_move_uses_origin() {
    let mut b: Bridge<(f64, f64), u32> = Bridge::new((0.0, 0.0));
    let r = b.handle(Event::Wheel {
        delta: WheelDelta::Pixels { dx: 3.0, dy: 4.0 },
        phase: TouchPhase::Cancelled,
    });
    assert_eq!(
        r,
        vec![Action::Submit(EngineEvent::Scroll {
            delta: PixelDelta { dx: 3.0, dy: 4.0, dy_scale: 1 },
            at: (0.0, 0.0),
            phase: ScrollPhase::Up,
        })]
    );
}

#[test]
fn resize_notifies_engine_then_resizes_surface() {
    let mut b = active_bridge(1);
    let before = b;
    let r = b.handle::<f32>(Event::Resized { width: 1024, height: 768 });
    assert_eq!(
        r,
        vec![
            Action::Submit(EngineEvent::Resize),
            Action::ResizeSurface { width: 1024, height: 768 },
        ]
    );
    assert_eq!(b, before);
}

#[test]
fn wake_hands_over_an_empty_batch() {
    let mut b: Bridge<(f64, f64), u32> = Bridge::new((5.0, 6.0));
    let before = b;
    for _ in 0..5 {
        let r = b.handle::<f32>(Event::Awakened);
        assert_eq!(r, vec![Action::Drain]);
        assert_eq!(b, before);
    }
}

#[test]
fn unused_events_are_dropped() {
    let mut b = active_bridge(3);
    let before = b;
    assert_eq!(b.handle::<f32>(Event::Other), vec![]);
    assert_eq!(b, before);
}

#[test]
fn session_handshake_selects_the_answered_identifier() {
    let mut b: Bridge<(f64, f64), u32> = Bridge::new((0.0, 0.0));
    assert_eq!(b.active_session(), None);
    assert_eq!(b.handle::<f32>(Event::Start), vec![Action::RequestSession]);
    assert_eq!(b.session, SessionState::Pending);
    assert_eq!(b.handle::<f32>(Event::Start), vec![]);
    assert_eq!(
        b.handle::<f32>(Event::SessionCreated(7)),
        vec![Action::Submit(EngineEvent::SelectSession(7))]
    );
    assert_eq!(b.active_session(), Some(7));
    assert_eq!(b.handle::<f32>(Event::SessionCreated(9)), vec![]);
    assert_eq!(b.active_session(), Some(7));
}

#[test]
fn answer_without_request_is_ignored() {
    let mut b: Bridge<(f64, f64), u32> = Bridge::new((0.0, 0.0));
    assert_eq!(b.handle::<f32>(Event::SessionCreated(4)), vec![]);
    assert_eq!(b.session, SessionState::Unrequested);
}

#[test]
fn reload_key_reloads_active_session() {
    let mut b = active_bridge(7);
    let r = b.handle::<f32>(Event::Key { pressed: true, letter: Some(RELOAD_KEY) });
    assert_eq!(r, vec![Action::Submit(EngineEvent::Reload(7))]);
    assert_eq!(b.handle::<f32>(Event::Key { pressed: false, letter: Some('r') }), vec![]);
    assert_eq!(b.handle::<f32>(Event::Key { pressed: true, letter: Some('q') }), vec![]);
    assert_eq!(b.handle::<f32>(Event::Key { pressed: true, letter: None }), vec![]);
}

#[test]
fn reload_without_session_does_nothing() {
    let mut b: Bridge<(f64, f64), u32> = Bridge::new((0.0, 0.0));
    assert_eq!(b.handle::<f32>(Event::Key { pressed: true, letter: Some('r') }), vec![]);
    b.handle::<f32>(Event::Start);
    assert_eq!(b.handle::<f32>(Event::Key { pressed: true, letter: Some('r') }), vec![]);
}
