use surface_dial_daemon::controller::controls::paddle::{
    apply_delta, apply_falloff, KeyAction, Msg, Paddle, Worker, WorkerInput,
};
use surface_dial_daemon::fake_input::Key;

fn view(actions: &[KeyAction]) -> Vec<(bool, Vec<Key>)> {
    actions
        .iter()
        .map(|a| match a {
            KeyAction::Press(k) => (true, k.clone()),
            KeyAction::Release(k) => (false, k.clone()),
        })
        .collect()
}

#[test]
fn worker_presses_arrow_of_direction() {
    let mut w = Worker::new();
    assert!(!w.is_enabled());
    assert_eq!(w.timeout_ms(), 5);
    let a = w.step(WorkerInput::Msg(Msg::Enabled(true))).unwrap();
    assert_eq!(view(&a), vec![(false, vec![Key::KEY_LEFT, Key::KEY_RIGHT])]);
    assert!(w.is_enabled());
    let a = w.step(WorkerInput::Msg(Msg::Delta(30))).unwrap();
    assert_eq!(view(&a), vec![(true, vec![Key::KEY_RIGHT])]);
    // reversing restarts from zero: -5 is inside the dead zone
    let a = w.step(WorkerInput::Msg(Msg::Delta(-5))).unwrap();
    assert_eq!(view(&a), vec![(false, vec![Key::KEY_LEFT, Key::KEY_RIGHT])]);
    let a = w.step(WorkerInput::Msg(Msg::Delta(-20))).unwrap();
    assert_eq!(view(&a), vec![(true, vec![Key::KEY_LEFT])]);
}

#[test]
fn worker_button_is_space_and_disable_releases_everything() {
    let mut w = Worker::new();
    let a = w.step(WorkerInput::Msg(Msg::ButtonDown)).unwrap();
    assert_eq!(view(&a), vec![(true, vec![Key::KEY_SPACE]), (false, vec![Key::KEY_LEFT, Key::KEY_RIGHT])]);
    let a = w.step(WorkerInput::Msg(Msg::ButtonUp)).unwrap();
    assert_eq!(view(&a)[0], (false, vec![Key::KEY_SPACE]));
    let a = w.step(WorkerInput::Msg(Msg::Enabled(false))).unwrap();
    assert_eq!(view(&a)[0], (false, vec![Key::KEY_SPACE, Key::KEY_LEFT, Key::KEY_RIGHT]));
    assert!(w.step(WorkerInput::Msg(Msg::Kill)).is_none());
}

#[test]
fn worker_comes_to_rest_on_timeouts() {
    let mut w = Worker::new();
    w.step(WorkerInput::Msg(Msg::Delta(1000))).unwrap();
    let mut steps = 0;
    loop {
        let a = w.step(WorkerInput::Timeout).unwrap();
        steps += 1;
        if view(&a) == vec![(false, vec![Key::KEY_LEFT, Key::KEY_RIGHT])] {
            break;
        }
        assert!(steps < 250);
    }
}

#[test]
fn worker_refuses_overflowing_delta() {
    let mut w = Worker::new();
    w.step(WorkerInput::Msg(Msg::Delta(100))).unwrap();
    assert!(!w.accepts(WorkerInput::Msg(Msg::Delta(i32::MAX))));
    assert!(w.accepts(WorkerInput::Msg(Msg::Delta(i32::MIN))));
}

#[test]
fn falloff_never_passes_zero() {
    for v in -250..=250 {
        let r = apply_falloff(v, 10, 250);
        assert!(r.abs() < v.abs() || v == 0);
        assert!(r == 0 || r.signum() == v.signum());
    }
    // with a divisor of 1 a speed of 1 overshoots
    assert_eq!(apply_falloff(1, 1, 250), -1);
    // a negative divisor rounds toward zero
    assert_eq!(apply_falloff(50, -10, 250), 54);
}

#[test]
fn delta_is_kept_as_last_delta() {
    assert_eq!(apply_delta(250, 3, 9, 250), (250, 9));
    assert_eq!(apply_delta(-3, -1, 0, 250), (0, 0));
}

#[test]
fn paddle_mode_messages() {
    let mut p = Paddle::new();
    assert_eq!(p.on_start(), Msg::Enabled(true));
    assert_eq!(p.on_end(), Msg::Enabled(false));
    assert_eq!(p.on_btn_press(), Msg::ButtonDown);
    assert_eq!(p.on_btn_release(), Msg::ButtonUp);
    assert_eq!(p.on_dial(7), Msg::Delta(7));
    assert_eq!(p.meta().icon, "input-gaming");
}
