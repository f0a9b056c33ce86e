use pulse_ui::event::{is_quit, ALT, CONTROL, SHIFT};
use pulse_ui::{
    Event, Exit, Flow, FrameOutcome, KeyCode, KeyEvent, MediaKey, ModifierKey, MouseButton,
    MouseEvent, MouseKind, RenderLoop, SetupView, View, ViewController,
};

fn key(c: char, modifiers: u8) -> Event {
    Event::Key(KeyEvent::new(KeyCode::Char(c), modifiers))
}

fn ctrl_c() -> Event {
    key('c', CONTROL)
}

fn handled_of(lp: &RenderLoop) -> Vec<Event> {
    match lp.view() {
        View::Setup(s) => s.handled().clone(),
        View::Dashboard => panic!("the session left the setup view"),
    }
}

#[test]
fn quit_hotkey_is_control_c_only() {
    assert!(is_quit(&ctrl_c()));
    assert!(!is_quit(&key('c', 0)));
    assert!(!is_quit(&key('C', CONTROL)));
    assert!(!is_quit(&key('c', CONTROL | SHIFT)));
    assert!(!is_quit(&key('c', CONTROL | ALT)));
    assert!(!is_quit(&key('x', CONTROL)));
    assert!(!is_quit(&Event::Resize(80, 24)));
}

#[test]
fn default_view_is_empty_setup() {
    let v = View::default();
    match v {
        View::Setup(s) => assert!(s.handled().is_empty()),
        View::Dashboard => panic!("default view must be setup"),
    }
}

#[test]
fn setup_view_keeps_events_in_order() {
    let mut s = SetupView::default();
    s.handle_event(key('a', 0));
    s.handle_event(Event::Resize(10, 5));
    assert_eq!(s.handled(), &vec![key('a', 0), Event::Resize(10, 5)]);
}

#[test]
fn view_dispatches_to_setup() {
    let mut v = View::default();
    ViewController::handle_event(&mut v, key('z', SHIFT));
    match &v {
        View::Setup(s) => assert_eq!(s.handled(), &vec![key('z', SHIFT)]),
        View::Dashboard => panic!("view changed variant"),
    }
    assert!(v.is_setup());
    assert!(!View::Dashboard.is_setup());
}

#[test]
fn quit_stops_before_the_view_sees_it() {
    let events = vec![
        FrameOutcome::Drawn(Some(key('a', 0))),
        FrameOutcome::Drawn(Some(key('b', 0))),
        FrameOutcome::Drawn(Some(ctrl_c())),
        FrameOutcome::Drawn(Some(key('d', 0))),
    ];
    let mut lp = RenderLoop::new(View::default());
    let frames = lp.run(&events);
    assert_eq!(frames, 3);
    assert_eq!(lp.exit(), Some(Exit::Quit));
    assert_eq!(handled_of(&lp), vec![key('a', 0), key('b', 0)]);
    assert!(lp.finish());
    assert!(!lp.finish());
}

#[test]
fn idle_frames_never_dispatch() {
    let n: usize = 25;
    let outcomes = vec![FrameOutcome::Drawn(None); n];
    let mut lp = RenderLoop::new(View::default());
    let frames = lp.run(&outcomes);
    assert_eq!(frames, n);
    assert_eq!(lp.exit(), None);
    assert!(handled_of(&lp).is_empty());
    assert!(!lp.finish());
    assert_eq!(lp.frame(FrameOutcome::Drawn(None)), Flow::Continue);
}

#[test]
fn draw_failure_stops_and_cleans_up_once() {
    let outcomes = vec![
        FrameOutcome::Drawn(Some(key('a', 0))),
        FrameOutcome::DrawFailed,
        FrameOutcome::Drawn(Some(key('b', 0))),
    ];
    let mut lp = RenderLoop::new(View::default());
    assert_eq!(lp.run(&outcomes), 2);
    assert_eq!(lp.exit(), Some(Exit::DrawFailed));
    assert_eq!(handled_of(&lp), vec![key('a', 0)]);
    assert!(lp.finish());
    assert!(!lp.finish());
    assert!(!lp.finish());
}

#[test]
fn quit_works_on_dashboard() {
    let mut lp = RenderLoop::new(View::Dashboard);
    assert_eq!(lp.frame(FrameOutcome::Drawn(None)), Flow::Continue);
    assert_eq!(lp.frame(FrameOutcome::Drawn(Some(ctrl_c()))), Flow::Stop(Exit::Quit));
    assert!(!lp.view().is_setup());
    assert!(lp.finish());
}

#[test]
fn other_events_are_forwarded_verbatim_once() {
    let mouse = Event::Mouse(MouseEvent {
        kind: MouseKind::Down(MouseButton::Left),
        column: 7,
        row: 3,
        modifiers: CONTROL,
    });
    let plain_c = key('c', 0);
    let mut lp = RenderLoop::new(View::default());
    assert_eq!(lp.frame(FrameOutcome::Drawn(Some(mouse))), Flow::Continue);
    assert_eq!(lp.frame(FrameOutcome::Drawn(None)), Flow::Continue);
    assert_eq!(lp.frame(FrameOutcome::Drawn(Some(plain_c))), Flow::Continue);
    assert_eq!(lp.frame(FrameOutcome::Drawn(Some(Event::FocusLost))), Flow::Continue);
    assert_eq!(handled_of(&lp), vec![mouse, plain_c, Event::FocusLost]);
    assert_eq!(lp.exit(), None);
}

#[test]
fn events_queued_across_slow_frames_keep_their_order() {
    let produced: Vec<Event> = (0..10u16).map(|i| Event::Resize(i, i + 1)).collect();
    let mut outcomes = Vec::new();
    for e in &produced {
        outcomes.push(FrameOutcome::Drawn(None));
        outcomes.push(FrameOutcome::Drawn(Some(*e)));
    }
    let mut lp = RenderLoop::new(View::default());
    assert_eq!(lp.run(&outcomes), 20);
    assert_eq!(handled_of(&lp), produced);
}

#[test]
fn media_and_modifier_keys_keep_their_payload() {
    let play = Event::Key(KeyEvent::new(KeyCode::Media(MediaKey::PlayPause), 0));
    let shift = Event::Key(KeyEvent::new(KeyCode::Modifier(ModifierKey::RightShift), SHIFT));
    let mut lp = RenderLoop::new(View::default());
    assert_eq!(lp.frame(FrameOutcome::Drawn(Some(play))), Flow::Continue);
    assert_eq!(lp.frame(FrameOutcome::Drawn(Some(shift))), Flow::Continue);
    assert_eq!(handled_of(&lp), vec![play, shift]);
    assert_ne!(handled_of(&lp)[0], Event::Key(KeyEvent::new(KeyCode::Media(MediaKey::Play), 0)));
}
