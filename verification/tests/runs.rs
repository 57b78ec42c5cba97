use easyray::config::Backend;
use easyray::session::{Action, Outcome, Phase, Runner, POLL_MILLIS, TARGET_FPS};

fn start(backend: Backend, title: &str, windows: bool) -> (Runner, Action) {
    let r = Runner::new(backend, title, windows);
    let a = r.action();
    (r, a)
}

#[test]
fn window_run_from_start_to_end() {
    let (mut r, a) = start(Backend::Ray, "Snake", false);
    assert!(matches!(a, Action::ReadHome { ref var } if var == "HOMEPATH"));
    let a = r.step(Outcome::Home("/home/ann".to_string()));
    assert!(matches!(a, Action::Load { ref path } if path == "/home/ann/.config/Snake"));
    let a = r.step(Outcome::Done);
    assert!(matches!(a, Action::OpenWindow { ref title, fps } if title == "Snake" && fps == 48));
    let a = r.step(Outcome::Done);
    assert!(matches!(a, Action::Update));
    // a frame whose drawing produced a message
    assert!(matches!(r.step(Outcome::Continue(true)), Action::Draw));
    assert!(matches!(r.step(Outcome::Message(true)), Action::HandleMessage));
    assert!(matches!(r.step(Outcome::Done), Action::Update));
    // a frame without a message
    assert!(matches!(r.step(Outcome::Continue(true)), Action::Draw));
    assert!(matches!(r.step(Outcome::Message(false)), Action::Update));
    // the update says stop
    let a = r.step(Outcome::Continue(false));
    assert!(matches!(a, Action::Exit { ref path } if path == "/home/ann/.config/Snake"));
    assert!(matches!(r.step(Outcome::Done), Action::Stop));
    assert!(r.is_done());
}

#[test]
fn terminal_run_from_start_to_end() {
    let (mut r, a) = start(Backend::Tui, "Words", false);
    assert!(matches!(a, Action::ReadHome { ref var } if var == "HOME"));
    let a = r.step(Outcome::Home("/home/bo".to_string()));
    assert!(matches!(a, Action::Load { ref path } if path == "/home/bo/.Words"));
    assert!(matches!(r.step(Outcome::Done), Action::QuerySize));
    assert!(matches!(r.step(Outcome::Size(Some((80, 24)))), Action::Resize { width: 80, height: 24 }));
    // the clock starts after the resize, just before the first update
    assert!(matches!(r.step(Outcome::Done), Action::RestartClock));
    assert!(matches!(r.step(Outcome::Done), Action::Update));
    // a frame with an input event ready; the clock restarts first
    assert!(matches!(r.step(Outcome::Continue(true)), Action::RestartClock));
    assert!(matches!(r.step(Outcome::Done), Action::Poll { millis: 20 }));
    assert!(matches!(r.step(Outcome::Ready(true)), Action::HandleInput));
    assert!(matches!(r.step(Outcome::Done), Action::Draw));
    assert!(matches!(r.step(Outcome::Done), Action::Update));
    // a frame without input
    assert!(matches!(r.step(Outcome::Continue(true)), Action::RestartClock));
    assert!(matches!(r.step(Outcome::Done), Action::Poll { .. }));
    assert!(matches!(r.step(Outcome::Ready(false)), Action::Draw));
    assert!(matches!(r.step(Outcome::Done), Action::Update));
    let a = r.step(Outcome::Continue(false));
    assert!(matches!(a, Action::Exit { ref path } if path == "/home/bo/.Words"));
    assert!(matches!(r.step(Outcome::Done), Action::Stop));
    assert_eq!(r.phase(), Phase::Done);
}

#[test]
fn terminal_on_windows_reads_homepath() {
    let (_, a) = start(Backend::Tui, "Words", true);
    assert!(matches!(a, Action::ReadHome { ref var } if var == "HOMEPATH"));
}

#[test]
fn terminal_without_size_goes_to_update() {
    let (mut r, _) = start(Backend::Tui, "T", false);
    r.step(Outcome::Home("/h".to_string()));
    r.step(Outcome::Done);
    assert!(matches!(r.step(Outcome::Size(None)), Action::RestartClock));
    assert!(matches!(r.step(Outcome::Done), Action::Update));
}

#[test]
fn stop_before_first_frame() {
    let (mut r, _) = start(Backend::Ray, "G", false);
    r.step(Outcome::Home("/h".to_string()));
    r.step(Outcome::Done);
    r.step(Outcome::Done);
    let a = r.step(Outcome::Continue(false));
    assert!(matches!(a, Action::Exit { ref path } if path == "/h/.config/G"));
}

#[test]
fn outcome_that_does_not_fit_changes_nothing() {
    let (mut r, _) = start(Backend::Ray, "G", false);
    assert!(matches!(r.step(Outcome::Done), Action::ReadHome { .. }));
    assert_eq!(r.phase(), Phase::Home);
    assert_eq!(r.path(), "");
    r.step(Outcome::Home("/h".to_string()));
    // a second home report at the load is ignored; the path stays
    let a = r.step(Outcome::Home("/other".to_string()));
    assert!(matches!(a, Action::Load { ref path } if path == "/h/.config/G"));
    r.step(Outcome::Done);
    r.step(Outcome::Done);
    assert_eq!(r.phase(), Phase::Update);
    // the window back end never takes a terminal report
    assert!(matches!(r.step(Outcome::Ready(true)), Action::Update));
    assert!(matches!(r.step(Outcome::Continue(true)), Action::Draw));
    assert!(matches!(r.step(Outcome::Done), Action::Draw));
}

#[test]
fn terminal_draw_takes_no_message() {
    let (mut r, _) = start(Backend::Tui, "T", false);
    r.step(Outcome::Home("/h".to_string()));
    r.step(Outcome::Done);
    r.step(Outcome::Size(None));
    r.step(Outcome::Done);
    r.step(Outcome::Continue(true));
    r.step(Outcome::Done);
    r.step(Outcome::Ready(false));
    assert_eq!(r.phase(), Phase::Draw);
    assert!(matches!(r.step(Outcome::Message(true)), Action::Draw));
}

#[test]
fn finished_run_stays_finished() {
    let (mut r, _) = start(Backend::Ray, "G", false);
    r.step(Outcome::Home("/h".to_string()));
    r.step(Outcome::Done);
    r.step(Outcome::Done);
    r.step(Outcome::Continue(false));
    r.step(Outcome::Done);
    assert!(r.is_done());
    assert!(matches!(r.step(Outcome::Done), Action::Stop));
    assert!(matches!(r.step(Outcome::Continue(true)), Action::Stop));
    assert!(matches!(r.action(), Action::Stop));
    assert_eq!(r.path(), "/h/.config/G");
}

#[test]
fn exit_path_equals_load_path_over_many_frames() {
    let (mut r, _) = start(Backend::Tui, "Words", false);
    let load = match r.step(Outcome::Home("/u".to_string())) {
        Action::Load { path } => path,
        other => panic!("unexpected {:?}", other),
    };
    r.step(Outcome::Done);
    r.step(Outcome::Size(Some((100, 40))));
    r.step(Outcome::Done);
    r.step(Outcome::Done);
    for i in 0..50 {
        assert!(matches!(r.step(Outcome::Continue(true)), Action::RestartClock));
        r.step(Outcome::Done);
        r.step(Outcome::Ready(i % 3 == 0));
        if i % 3 == 0 {
            r.step(Outcome::Done);
        }
        assert!(matches!(r.step(Outcome::Done), Action::Update));
    }
    match r.step(Outcome::Continue(false)) {
        Action::Exit { path } => assert_eq!(path, load),
        other => panic!("unexpected {:?}", other),
    }
}

#[test]
fn constants() {
    assert_eq!(TARGET_FPS, 48);
    assert_eq!(POLL_MILLIS, 20);
}

#[test]
fn window_never_restarts_a_clock() {
    let (mut r, _) = start(Backend::Ray, "G", false);
    r.step(Outcome::Home("/h".to_string()));
    r.step(Outcome::Done);
    r.step(Outcome::Done);
    for _ in 0..5 {
        assert!(matches!(r.step(Outcome::Continue(true)), Action::Draw));
        assert!(matches!(r.step(Outcome::Message(false)), Action::Update));
    }
}

#[test]
fn nothing_but_the_home_read_before_the_load() {
    let (mut r, a) = start(Backend::Tui, "T", false);
    assert!(matches!(a, Action::ReadHome { .. }));
    assert!(matches!(r.step(Outcome::Continue(true)), Action::ReadHome { .. }));
    assert!(matches!(r.step(Outcome::Size(None)), Action::ReadHome { .. }));
    assert!(matches!(r.step(Outcome::Home("/h".to_string())), Action::Load { .. }));
}
