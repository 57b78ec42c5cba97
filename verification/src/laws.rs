//! What holds of every run, over any sequence of reported outcomes.
use vstd::prelude::*;
use crate::config::{Backend, spec_config_path, spec_home_var};
use crate::session::{
    ActionView, OutcomeView, Phase, RunnerView, advance, fits, pending, stage, valid,
};

verus! {

/// The state a run reaches after the outcomes are reported in order.
pub open spec fn run(v: RunnerView, outcomes: Seq<OutcomeView>) -> RunnerView
    decreases outcomes.len(),
{
    if outcomes.len() == 0 {
        v
    } else {
        run(advance(v, outcomes[0]), outcomes.drop_first())
    }
}

/// Every step keeps a run valid: its phase stays one of its back end's,
/// and its path stays the one built from its home directory and title.
pub proof fn law_step_keeps_valid(v: RunnerView, o: OutcomeView)
    requires
        valid(v),
    ensures
        valid(advance(v, o)),
{
}

/// A run stays valid whatever outcomes are reported.
pub proof fn law_run_keeps_valid(v: RunnerView, outcomes: Seq<OutcomeView>)
    requires
        valid(v),
    ensures
        valid(run(v, outcomes)),
    decreases outcomes.len(),
{
    if outcomes.len() > 0 {
        law_run_keeps_valid(advance(v, outcomes[0]), outcomes.drop_first());
    }
}

/// An outcome moves a run on exactly when it fits the pending action; one
/// that does not fit leaves the run as it was.
pub proof fn law_fitting_outcome_moves_on(v: RunnerView, o: OutcomeView)
    requires
        valid(v),
    ensures
        fits(v, o) <==> advance(v, o).phase != v.phase,
        !fits(v, o) ==> advance(v, o) == v,
{
}

/// A run never goes back to an earlier stage.
pub proof fn law_stage_never_decreases(v: RunnerView, outcomes: Seq<OutcomeView>)
    ensures
        stage(v.phase) <= stage(run(v, outcomes).phase),
    decreases outcomes.len(),
{
    if outcomes.len() > 0 {
        law_stage_never_decreases(advance(v, outcomes[0]), outcomes.drop_first());
    }
}

/// Once the home directory is known, the title, the home directory and the
/// state file's path stay as they are for the rest of the run.
pub proof fn law_path_fixed(v: RunnerView, outcomes: Seq<OutcomeView>)
    requires
        v.phase != Phase::Home,
    ensures
        run(v, outcomes).path == v.path,
        run(v, outcomes).home == v.home,
        run(v, outcomes).title == v.title,
        run(v, outcomes).backend == v.backend,
    decreases outcomes.len(),
{
    if outcomes.len() > 0 {
        law_path_fixed(advance(v, outcomes[0]), outcomes.drop_first());
    }
}

/// The model is told to exit with the very state file it was loaded from:
/// where a run asks for a load with one path and later for an exit with
/// another, the two are the same, and it is the path built from the home
/// directory and the title.
pub proof fn law_exit_path_is_load_path(
    v: RunnerView,
    before: Seq<OutcomeView>,
    after: Seq<OutcomeView>,
    loaded: Seq<char>,
    exited: Seq<char>,
)
    requires
        valid(v),
        pending(run(v, before)) == (ActionView::Load { path: loaded }),
        pending(run(run(v, before), after)) == (ActionView::Exit { path: exited }),
    ensures
        loaded == exited,
        loaded == spec_config_path(run(v, before).backend, run(v, before).home, v.title),
{
    law_run_keeps_valid(v, before);
    let w = run(v, before);
    law_path_fixed(w, after);
    if v.phase != Phase::Home {
        law_path_fixed(v, before);
    } else {
        lemma_title_fixed(v, before);
    }
}

/// No step changes the title.
proof fn lemma_title_fixed(v: RunnerView, outcomes: Seq<OutcomeView>)
    ensures
        run(v, outcomes).title == v.title,
    decreases outcomes.len(),
{
    if outcomes.len() > 0 {
        lemma_title_fixed(advance(v, outcomes[0]), outcomes.drop_first());
    }
}

/// The model is loaded once: once a run has gone past the load, it never
/// asks for the home directory or a load again.
pub proof fn law_load_once(v: RunnerView, outcomes: Seq<OutcomeView>)
    requires
        stage(v.phase) > stage(Phase::Load),
    ensures
        pending(run(v, outcomes)) !is ReadHome,
        pending(run(v, outcomes)) !is Load,
{
    law_stage_never_decreases(v, outcomes);
}

/// The run ends exactly when the model's update says so: an update that
/// answers no is followed by the exit, with the state file's path, and an
/// exit is never asked for after anything else.
pub proof fn law_exit_exactly_on_stop(v: RunnerView, o: OutcomeView)
    requires
        valid(v),
    ensures
        v.phase == Phase::Update && o == OutcomeView::Continue(false)
            ==> pending(advance(v, o)) == (ActionView::Exit { path: v.path }),
        advance(v, o).phase == Phase::Exit && v.phase != Phase::Exit
            ==> v.phase == Phase::Update && o == OutcomeView::Continue(false),
{
}

/// An update that answers yes starts a frame: on a window the model is
/// drawn; in a terminal the frame clock is restarted and then the input
/// queue is polled for the set time.
pub proof fn law_update_yes_starts_frame(v: RunnerView)
    requires
        valid(v),
        v.phase == Phase::Update,
    ensures
        v.backend == Backend::Ray ==> pending(advance(v, OutcomeView::Continue(true)))
            == ActionView::Draw,
        v.backend == Backend::Tui ==> pending(advance(v, OutcomeView::Continue(true)))
            == ActionView::RestartClock,
        v.backend == Backend::Tui ==> pending(
            advance(advance(v, OutcomeView::Continue(true)), OutcomeView::Done),
        ) == (ActionView::Poll { millis: 20 }),
{
}

/// In a terminal the clock that times the updates is started just before
/// the first update and restarted at the start of every frame: a terminal
/// run reaches an update only from the first clock start or from the end of
/// a frame's drawing, and reaches a frame's poll only from a clock restart.
pub proof fn law_clock_restarts_before_updates(v: RunnerView, o: OutcomeView)
    requires
        valid(v),
        v.backend == Backend::Tui,
        advance(v, o).phase != v.phase,
    ensures
        advance(v, o).phase == Phase::Update ==> v.phase == (Phase::Clock { frame: false })
            || v.phase == Phase::Draw,
        advance(v, o).phase == Phase::Poll ==> v.phase == (Phase::Clock { frame: true }),
        advance(v, o).phase is Clock ==> (v.phase == Phase::Update && o == OutcomeView::Continue(true))
            || v.phase == Phase::Size || v.phase is Resize,
{
}

/// Nothing touches the model before it is created: until the home directory
/// is reported the run asks for nothing but the home directory, and the
/// first action after it is the model's creation and load.
pub proof fn law_model_created_after_home(v: RunnerView, o: OutcomeView)
    requires
        valid(v),
        v.phase == Phase::Home,
    ensures
        pending(v) is ReadHome,
        advance(v, o).phase == Phase::Home || advance(v, o).phase == Phase::Load,
        o is Home ==> pending(advance(v, o)) is Load,
{
}

/// Once the exit is asked for, the model is never updated, drawn or fed
/// again: all that follows is the exit and then nothing.
pub proof fn law_nothing_after_exit(v: RunnerView, outcomes: Seq<OutcomeView>)
    requires
        v.phase == Phase::Exit || v.phase == Phase::Done,
    ensures
        pending(run(v, outcomes)) is Exit || pending(run(v, outcomes)) is Stop,
{
    law_stage_never_decreases(v, outcomes);
}

/// A finished run stays finished and asks for nothing.
pub proof fn law_done_is_final(v: RunnerView, outcomes: Seq<OutcomeView>)
    requires
        v.phase == Phase::Done,
    ensures
        run(v, outcomes) == v,
        pending(v) == ActionView::Stop,
    decreases outcomes.len(),
{
    if outcomes.len() > 0 {
        law_done_is_final(advance(v, outcomes[0]), outcomes.drop_first());
    }
}

/// Within a frame, what the model is fed follows what was reported: on a
/// window the drawing's message is handed over exactly when there is one,
/// and in a terminal an input event is read exactly when the poll found one
/// ready; either way the model is then drawn or updated again.
pub proof fn law_frame_feeds_what_was_reported(v: RunnerView, reported: bool)
    requires
        valid(v),
    ensures
        v.phase == Phase::Draw && v.backend == Backend::Ray ==> pending(
            advance(v, OutcomeView::Message(reported)),
        ) == (if reported { ActionView::HandleMessage } else { ActionView::Update }),
        v.phase == Phase::Poll ==> pending(advance(v, OutcomeView::Ready(reported)))
            == (if reported { ActionView::HandleInput } else { ActionView::Draw }),
        v.phase == Phase::Message ==> pending(advance(v, OutcomeView::Done)) == ActionView::Update,
        v.phase == Phase::Input ==> pending(advance(v, OutcomeView::Done)) == ActionView::Draw,
        v.phase == Phase::Draw && v.backend == Backend::Tui ==> pending(
            advance(v, OutcomeView::Done),
        ) == ActionView::Update,
{
}

/// In a terminal the model is told the terminal's size, exactly as it was
/// reported, before the first update; where the size is unknown the clock
/// is started at once, and the first update follows.
pub proof fn law_terminal_size_handed_on(v: RunnerView, size: Option<(u16, u16)>)
    requires
        valid(v),
        v.phase == Phase::Size,
    ensures
        size matches Some((w, h)) ==> pending(advance(v, OutcomeView::Size(size)))
            == (ActionView::Resize { width: w, height: h }),
        size is None ==> pending(advance(v, OutcomeView::Size(size))) == ActionView::RestartClock,
        size is Some ==> pending(
            advance(advance(v, OutcomeView::Size(size)), OutcomeView::Done),
        ) == ActionView::RestartClock,
        size is Some ==> pending(
            advance(
                advance(advance(v, OutcomeView::Size(size)), OutcomeView::Done),
                OutcomeView::Done,
            ),
        ) == ActionView::Update,
        size is None ==> pending(
            advance(advance(v, OutcomeView::Size(size)), OutcomeView::Done),
        ) == ActionView::Update,
{
}


/// The home directory is named by `HOMEPATH` for a window on every platform,
/// and for a terminal by `HOMEPATH` on Windows and `HOME` elsewhere: a run
/// that waits for the home directory asks for exactly that variable.
pub proof fn law_home_variable(v: RunnerView)
    requires
        v.phase == Phase::Home,
    ensures
        v.backend == Backend::Ray ==> pending(v) == (ActionView::ReadHome { var: "HOMEPATH"@ }),
        v.backend == Backend::Tui && v.windows ==> pending(v) == (ActionView::ReadHome {
            var: "HOMEPATH"@,
        }),
        v.backend == Backend::Tui && !v.windows ==> pending(v) == (ActionView::ReadHome {
            var: "HOME"@,
        }),
        spec_home_var(Backend::Ray, true) == spec_home_var(Backend::Ray, false),
{
}

/// The state file's path begins with the home directory exactly as it was
/// read, whatever it holds, and goes on with `/.config/` and the title for a
/// window, or with `/.` and the title for a terminal.
pub proof fn law_path_starts_with_home(backend: Backend, home: Seq<char>, title: Seq<char>)
    ensures
        spec_config_path(backend, home, title).subrange(0, home.len() as int) == home,
        backend == Backend::Ray ==> spec_config_path(backend, home, title).skip(home.len() as int)
            == "/.config/"@ + title,
        backend == Backend::Tui ==> spec_config_path(backend, home, title).skip(home.len() as int)
            == "/."@ + title,
        backend == Backend::Ray ==> spec_config_path(backend, home, title) == home + "/.config/"@
            + title,
        backend == Backend::Tui ==> spec_config_path(backend, home, title) == home + "/."@ + title,
{
    let p = spec_config_path(backend, home, title);
    assert(p.subrange(0, home.len() as int) =~= home);
    if backend == Backend::Ray {
        assert(p.skip(home.len() as int) =~= "/.config/"@ + title);
    } else {
        assert(p.skip(home.len() as int) =~= "/."@ + title);
    }
}

/// A run on Windows and the same run elsewhere differ only in the variable
/// that names the home directory: every outcome moves both alike, and every
/// action after the home read is the same for both.
pub proof fn law_platform_only_names_home(v: RunnerView, o: OutcomeView)
    ensures
        advance(RunnerView { windows: !v.windows, ..v }, o) == (RunnerView {
            windows: !v.windows,
            ..advance(v, o)
        }),
        v.phase != Phase::Home ==> pending(RunnerView { windows: !v.windows, ..v }) == pending(v),
{
}

/// After the load a window is opened, titled with the program's title and
/// set to 48 frames per second, on every platform; the window is open
/// before the first update, which follows the opening.
pub proof fn law_window_opens_after_load(v: RunnerView)
    requires
        valid(v),
        v.backend == Backend::Ray,
        v.phase == Phase::Load,
    ensures
        pending(advance(v, OutcomeView::Done)) == (ActionView::OpenWindow {
            title: v.title,
            fps: 48,
        }),
        pending(advance(advance(v, OutcomeView::Done), OutcomeView::Done)) == ActionView::Update,
{
}

/// A run waiting to open its window asks for a window titled with the
/// program's title, at 48 frames per second, on every platform.
pub proof fn law_window_title_is_program_title(v: RunnerView)
    requires
        v.phase == Phase::Open,
    ensures
        pending(v) == (ActionView::OpenWindow { title: v.title, fps: 48 }),
{
}

/// The window title is the title the run was started with, whatever the
/// home directory and outcomes were.
pub proof fn law_window_title_from_start(
    backend: Backend,
    windows: bool,
    title: Seq<char>,
    outcomes: Seq<OutcomeView>,
)
    requires
        run(
            RunnerView {
                backend,
                windows,
                title,
                home: Seq::empty(),
                path: Seq::empty(),
                phase: Phase::Home,
            },
            outcomes,
        ).phase == Phase::Open,
    ensures
        pending(
            run(
                RunnerView {
                    backend,
                    windows,
                    title,
                    home: Seq::empty(),
                    path: Seq::empty(),
                    phase: Phase::Home,
                },
                outcomes,
            ),
        ) == (ActionView::OpenWindow { title, fps: 48 }),
{
    lemma_title_fixed(
        RunnerView {
            backend,
            windows,
            title,
            home: Seq::empty(),
            path: Seq::empty(),
            phase: Phase::Home,
        },
        outcomes,
    );
}

/// After the load a terminal run asks for the terminal's size, on every
/// platform; a known size is handed to the model as a resize, then the
/// clock is started, and only then comes the first update.
pub proof fn law_terminal_asks_size_after_load(v: RunnerView, w: u16, h: u16)
    requires
        valid(v),
        v.backend == Backend::Tui,
        v.phase == Phase::Load,
    ensures
        pending(advance(v, OutcomeView::Done)) == ActionView::QuerySize,
        pending(advance(advance(v, OutcomeView::Done), OutcomeView::Size(Some((w, h)))))
            == (ActionView::Resize { width: w, height: h }),
        pending(
            advance(
                advance(advance(v, OutcomeView::Done), OutcomeView::Size(Some((w, h)))),
                OutcomeView::Done,
            ),
        ) == ActionView::RestartClock,
        pending(
            advance(
                advance(
                    advance(advance(v, OutcomeView::Done), OutcomeView::Size(Some((w, h)))),
                    OutcomeView::Done,
                ),
                OutcomeView::Done,
            ),
        ) == ActionView::Update,
{
}

/// From the load on, a window run can only reach its first update through
/// the opening of the window, and a terminal run only through the size
/// query: a single outcome never takes a run from the load to a frame.
pub proof fn law_no_frame_straight_after_load(v: RunnerView, o: OutcomeView)
    requires
        valid(v),
        v.phase == Phase::Load,
    ensures
        v.backend == Backend::Ray ==> advance(v, o).phase == Phase::Load || advance(v, o).phase
            == Phase::Open,
        v.backend == Backend::Tui ==> advance(v, o).phase == Phase::Load || advance(v, o).phase
            == Phase::Size,
{
}

} // verus!
