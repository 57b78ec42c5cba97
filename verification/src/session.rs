//! The decisions of a console program's run: which piece of outside work
//! comes next, given what the previous one reported.
//!
//! A run reads the home directory, creates the model and loads it from its
//! state file, opens the window (or asks the terminal for its size), and then
//! repeats frames for as long as the model's update says so. In each frame of
//! the window back end the model is drawn and, where the drawing produced a
//! message, the message is handed back to the model. The terminal back end
//! keeps its own clock for the time an update is given: it is started just
//! before the first update and restarted after each update that says go on;
//! in each of its frames the event queue is then polled for a short while, a
//! ready event is handed to the model, and the model is drawn. When the
//! update says stop, the model is told to exit, with the path it was loaded
//! from.
//!
//! The caller performs each [`Action`] and reports what came of it as an
//! [`Outcome`]; [`Runner::step`] then decides the next action.
use vstd::prelude::*;
use crate::config::{Backend, spec_config_path, spec_home_var, config_path, home_var};

verus! {

/// The number of frames per second the window is asked to keep to.
pub const TARGET_FPS: u32 = 48;

/// How long, in milliseconds, each terminal frame waits for an input event.
pub const POLL_MILLIS: u64 = 20;

/// Where a run stands: which piece of outside work it waits for.
#[derive(Clone, Copy, PartialEq, Eq, Structural, Debug)]
pub enum Phase {
    /// The home directory is to be read.
    Home,
    /// The model is to be created and loaded from its state file.
    Load,
    /// The window is to be opened (window back end).
    Open,
    /// The terminal is to be asked for its size (terminal back end).
    Size,
    /// The model is to be told the terminal's size (terminal back end).
    Resize { width: u16, height: u16 },
    /// The frame clock is to be restarted (terminal back end); before the
    /// first update when `frame` is false, at the start of a frame otherwise.
    Clock { frame: bool },
    /// The model is to be updated; its answer decides whether the run goes on.
    Update,
    /// The event queue is to be polled (terminal back end).
    Poll,
    /// A ready input event is to be read and handed to the model (terminal back end).
    Input,
    /// The model is to be drawn.
    Draw,
    /// The message the drawing produced is to be handed to the model (window back end).
    Message,
    /// The model is to be told to exit.
    Exit,
    /// The run is over.
    Done,
}

/// A piece of outside work that the caller is to perform next.
#[derive(Debug)]
pub enum Action {
    /// Read the environment variable `var`, which names the home directory.
    ReadHome { var: String },
    /// Create the model with its default values and load it from the state
    /// file at `path`. No model exists before this action.
    Load { path: String },
    /// Open a full-screen window titled `title`, keeping to `fps` frames per second.
    OpenWindow { title: String, fps: u32 },
    /// Ask the terminal for its size.
    QuerySize,
    /// Hand the model a resize event of the given size.
    Resize { width: u16, height: u16 },
    /// Restart the frame clock: the next update is given the time elapsed
    /// from here.
    RestartClock,
    /// Update the model with the time elapsed since the last frame: on a
    /// window the frame time the window reports, in a terminal the time on
    /// the frame clock.
    Update,
    /// Wait up to `millis` milliseconds for an input event.
    Poll { millis: u64 },
    /// Read the ready input event and hand it to the model.
    HandleInput,
    /// Draw the model.
    Draw,
    /// Hand the model the message its drawing produced.
    HandleMessage,
    /// Tell the model to exit, with the state file at `path`.
    Exit { path: String },
    /// Nothing is left to do.
    Stop,
}

/// What came of the last action.
#[derive(Debug)]
pub enum Outcome {
    /// The home directory was read.
    Home(String),
    /// The action was performed and has nothing to report.
    Done,
    /// The terminal's size, where the terminal could tell it.
    Size(Option<(u16, u16)>),
    /// The model's update answered whether the run goes on.
    Continue(bool),
    /// The poll answered whether an input event is ready.
    Ready(bool),
    /// The drawing answered whether it produced a message.
    Message(bool),
}

/// The mathematical form of an [`Action`].
pub enum ActionView {
    ReadHome { var: Seq<char> },
    Load { path: Seq<char> },
    OpenWindow { title: Seq<char>, fps: u32 },
    QuerySize,
    Resize { width: u16, height: u16 },
    RestartClock,
    Update,
    Poll { millis: u64 },
    HandleInput,
    Draw,
    HandleMessage,
    Exit { path: Seq<char> },
    Stop,
}

/// The mathematical form of an [`Outcome`].
pub enum OutcomeView {
    Home(Seq<char>),
    Done,
    Size(Option<(u16, u16)>),
    Continue(bool),
    Ready(bool),
    Message(bool),
}

impl View for Action {
    type V = ActionView;

    open spec fn view(&self) -> ActionView {
        match self {
            Action::ReadHome { var } => ActionView::ReadHome { var: var@ },
            Action::Load { path } => ActionView::Load { path: path@ },
            Action::OpenWindow { title, fps } => ActionView::OpenWindow { title: title@, fps: *fps },
            Action::QuerySize => ActionView::QuerySize,
            Action::Resize { width, height } => ActionView::Resize { width: *width, height: *height },
            Action::RestartClock => ActionView::RestartClock,
            Action::Update => ActionView::Update,
            Action::Poll { millis } => ActionView::Poll { millis: *millis },
            Action::HandleInput => ActionView::HandleInput,
            Action::Draw => ActionView::Draw,
            Action::HandleMessage => ActionView::HandleMessage,
            Action::Exit { path } => ActionView::Exit { path: path@ },
            Action::Stop => ActionView::Stop,
        }
    }
}

impl View for Outcome {
    type V = OutcomeView;

    open spec fn view(&self) -> OutcomeView {
        match self {
            Outcome::Home(h) => OutcomeView::Home(h@),
            Outcome::Done => OutcomeView::Done,
            Outcome::Size(s) => OutcomeView::Size(*s),
            Outcome::Continue(b) => OutcomeView::Continue(*b),
            Outcome::Ready(b) => OutcomeView::Ready(*b),
            Outcome::Message(b) => OutcomeView::Message(*b),
        }
    }
}

/// The mathematical form of a [`Runner`].
pub struct RunnerView {
    pub backend: Backend,
    /// Whether the program runs on Windows.
    pub windows: bool,
    pub title: Seq<char>,
    /// The home directory, once it was read.
    pub home: Seq<char>,
    /// The state file's path, once the home directory was read.
    pub path: Seq<char>,
    pub phase: Phase,
}

/// The phases a run on the given back end passes through.
pub open spec fn phase_of_backend(backend: Backend, phase: Phase) -> bool {
    match phase {
        Phase::Open | Phase::Message => backend == Backend::Ray,
        Phase::Size | Phase::Resize { .. } | Phase::Clock { .. } | Phase::Poll | Phase::Input => {
            backend == Backend::Tui
        },
        _ => true,
    }
}

/// What holds of every run: its phase belongs to its back end, and once the
/// home directory is known the path is the state file's path built from it.
pub open spec fn valid(v: RunnerView) -> bool {
    &&& phase_of_backend(v.backend, v.phase)
    &&& v.phase != Phase::Home ==> v.path == spec_config_path(v.backend, v.home, v.title)
}

/// How far a run has come: the home read, the load, the opening, the
/// frames, the exit, the end. A run never goes back to an earlier stage.
pub open spec fn stage(phase: Phase) -> int {
    match phase {
        Phase::Home => 0,
        Phase::Load => 1,
        Phase::Open | Phase::Size | Phase::Resize { .. } | Phase::Clock { frame: false } => 2,
        Phase::Clock { frame: true } => 3,
        Phase::Update | Phase::Poll | Phase::Input | Phase::Draw | Phase::Message => 3,
        Phase::Exit => 4,
        Phase::Done => 5,
    }
}

/// The action a run in the given state waits to have performed.
pub open spec fn pending(v: RunnerView) -> ActionView {
    match v.phase {
        Phase::Home => ActionView::ReadHome { var: spec_home_var(v.backend, v.windows) },
        Phase::Load => ActionView::Load { path: v.path },
        Phase::Open => ActionView::OpenWindow { title: v.title, fps: TARGET_FPS },
        Phase::Size => ActionView::QuerySize,
        Phase::Resize { width, height } => ActionView::Resize { width, height },
        Phase::Clock { .. } => ActionView::RestartClock,
        Phase::Update => ActionView::Update,
        Phase::Poll => ActionView::Poll { millis: POLL_MILLIS },
        Phase::Input => ActionView::HandleInput,
        Phase::Draw => ActionView::Draw,
        Phase::Message => ActionView::HandleMessage,
        Phase::Exit => ActionView::Exit { path: v.path },
        Phase::Done => ActionView::Stop,
    }
}

/// Whether the outcome is the kind of report the pending action gives.
pub open spec fn fits(v: RunnerView, o: OutcomeView) -> bool {
    match v.phase {
        Phase::Home => o is Home,
        Phase::Size => o is Size,
        Phase::Update => o is Continue,
        Phase::Poll => o is Ready,
        Phase::Draw => if v.backend == Backend::Ray { o is Message } else { o is Done },
        Phase::Done => false,
        _ => o is Done,
    }
}

/// The phase that follows a fitting outcome.
pub open spec fn next_phase(v: RunnerView, o: OutcomeView) -> Phase {
    match o {
        OutcomeView::Home(_) => Phase::Load,
        OutcomeView::Size(Some((w, h))) => Phase::Resize { width: w, height: h },
        OutcomeView::Size(None) => Phase::Clock { frame: false },
        OutcomeView::Continue(go_on) => if !go_on {
            Phase::Exit
        } else if v.backend == Backend::Ray {
            Phase::Draw
        } else {
            Phase::Clock { frame: true }
        },
        OutcomeView::Ready(ready) => if ready { Phase::Input } else { Phase::Draw },
        OutcomeView::Message(produced) => if produced { Phase::Message } else { Phase::Update },
        OutcomeView::Done => match v.phase {
            Phase::Load => if v.backend == Backend::Ray { Phase::Open } else { Phase::Size },
            Phase::Resize { .. } => Phase::Clock { frame: false },
            Phase::Clock { frame } => if frame { Phase::Poll } else { Phase::Update },
            Phase::Input => Phase::Draw,
            Phase::Exit => Phase::Done,
            _ => Phase::Update,
        },
    }
}

/// The state a run is in after the outcome is reported. An outcome that
/// does not fit the pending action changes nothing; a fitting one moves the
/// run to the next phase, and the home directory fixes the path.
pub open spec fn advance(v: RunnerView, o: OutcomeView) -> RunnerView {
    if !fits(v, o) {
        v
    } else {
        match o {
            OutcomeView::Home(h) => RunnerView {
                home: h,
                path: spec_config_path(v.backend, h, v.title),
                phase: Phase::Load,
                ..v
            },
            _ => RunnerView { phase: next_phase(v, o), ..v },
        }
    }
}

/// A run of a console program on one back end.
pub struct Runner {
    backend: Backend,
    windows: bool,
    title: String,
    home: String,
    path: String,
    phase: Phase,
}

impl View for Runner {
    type V = RunnerView;

    closed spec fn view(&self) -> RunnerView {
        RunnerView {
            backend: self.backend,
            windows: self.windows,
            title: self.title@,
            home: self.home@,
            path: self.path@,
            phase: self.phase,
        }
    }
}

impl Runner {
    #[verifier::type_invariant]
    closed spec fn well_formed(&self) -> bool {
        valid(self@)
    }

    /// Starts a run of the program titled `title` on the given back end.
    pub fn new(backend: Backend, title: &str, windows: bool) -> (r: Runner)
        ensures
            r@ == (RunnerView {
                backend,
                windows,
                title: title@,
                home: Seq::empty(),
                path: Seq::empty(),
                phase: Phase::Home,
            }),
            valid(r@),
    {
        Runner {
            backend,
            windows,
            title: title.to_owned(),
            home: String::new(),
            path: String::new(),
            phase: Phase::Home,
        }
    }

    /// The phase the run is in.
    pub fn phase(&self) -> (p: Phase)
        ensures
            p == self@.phase,
            valid(self@),
    {
        proof {
            use_type_invariant(self);
        }
        self.phase
    }

    /// Whether the run is over.
    pub fn is_done(&self) -> (b: bool)
        ensures
            b == (self@.phase == Phase::Done),
    {
        match self.phase {
            Phase::Done => true,
            _ => false,
        }
    }

    /// The state file's path; empty until the home directory is read.
    pub fn path(&self) -> (p: String)
        ensures
            p@ == self@.path,
    {
        self.path.clone()
    }

    /// The action the run waits to have performed.
    pub fn action(&self) -> (a: Action)
        ensures
            a@ == pending(self@),
            valid(self@),
    {
        proof {
            use_type_invariant(self);
        }
        match self.phase {
            Phase::Home => Action::ReadHome { var: home_var(self.backend, self.windows) },
            Phase::Load => Action::Load { path: self.path.clone() },
            Phase::Open => Action::OpenWindow { title: self.title.clone(), fps: TARGET_FPS },
            Phase::Size => Action::QuerySize,
            Phase::Resize { width, height } => Action::Resize { width, height },
            Phase::Clock { .. } => Action::RestartClock,
            Phase::Update => Action::Update,
            Phase::Poll => Action::Poll { millis: POLL_MILLIS },
            Phase::Input => Action::HandleInput,
            Phase::Draw => Action::Draw,
            Phase::Message => Action::HandleMessage,
            Phase::Exit => Action::Exit { path: self.path.clone() },
            Phase::Done => Action::Stop,
        }
    }

    /// Takes in what came of the pending action, and gives the action that
    /// follows. An outcome that does not fit the pending action leaves the
    /// run as it was, and that action is given again.
    pub fn step(&mut self, o: Outcome) -> (a: Action)
        ensures
            final(self)@ == advance(old(self)@, o@),
            a@ == pending(final(self)@),
            valid(old(self)@),
            valid(final(self)@),
    {
        proof {
            use_type_invariant(&*self);
        }
        let ray = match self.backend {
            Backend::Ray => true,
            Backend::Tui => false,
        };
        let next: Option<Phase> = match (self.phase, o) {
            (Phase::Home, Outcome::Home(h)) => {
                let path = config_path(self.backend, h.as_str(), self.title.as_str());
                let title = self.title.clone();
                *self = Runner {
                    backend: self.backend,
                    windows: self.windows,
                    title,
                    home: h,
                    path,
                    phase: Phase::Load,
                };
                None
            },
            (Phase::Load, Outcome::Done) => Some(if ray { Phase::Open } else { Phase::Size }),
            (Phase::Open, Outcome::Done) => Some(Phase::Update),
            (Phase::Size, Outcome::Size(Some((w, h)))) => Some(Phase::Resize { width: w, height: h }),
            (Phase::Size, Outcome::Size(None)) => Some(Phase::Clock { frame: false }),
            (Phase::Resize { .. }, Outcome::Done) => Some(Phase::Clock { frame: false }),
            (Phase::Clock { frame }, Outcome::Done) => Some(
                if frame {
                    Phase::Poll
                } else {
                    Phase::Update
                },
            ),
            (Phase::Update, Outcome::Continue(go_on)) => Some(
                if !go_on {
                    Phase::Exit
                } else if ray {
                    Phase::Draw
                } else {
                    Phase::Clock { frame: true }
                },
            ),
            (Phase::Poll, Outcome::Ready(ready)) => Some(if ready { Phase::Input } else { Phase::Draw }),
            (Phase::Input, Outcome::Done) => Some(Phase::Draw),
            (Phase::Draw, Outcome::Message(produced)) => if ray {
                Some(if produced { Phase::Message } else { Phase::Update })
            } else {
                None
            },
            (Phase::Draw, Outcome::Done) => if ray { None } else { Some(Phase::Update) },
            (Phase::Message, Outcome::Done) => Some(Phase::Update),
            (Phase::Exit, Outcome::Done) => Some(Phase::Done),
            _ => None,
        };
        if let Some(p) = next {
            self.phase = p;
        }
        self.action()
    }
}

} // verus!
