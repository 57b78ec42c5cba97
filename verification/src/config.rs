//! Where a console program keeps its saved state: the name of the
//! environment variable that holds the user's home directory, and the
//! path built from that directory and the program's title.
use vstd::prelude::*;

verus! {

/// The two drawing back ends a console program can run on.
#[derive(Clone, Copy, PartialEq, Eq, Structural, Debug)]
pub enum Backend {
    /// A full-screen raylib window, driven by the keyboard.
    Ray,
    /// A terminal, driven through ratatui and crossterm events.
    Tui,
}

/// The environment variable read for the home directory.
/// The window back end always reads `HOMEPATH`; the terminal back end reads
/// `HOMEPATH` on Windows and `HOME` everywhere else.
pub open spec fn spec_home_var(backend: Backend, windows: bool) -> Seq<char> {
    match backend {
        Backend::Ray => "HOMEPATH"@,
        Backend::Tui => if windows { "HOMEPATH"@ } else { "HOME"@ },
    }
}

/// The separator put between the home directory and the title.
pub open spec fn spec_path_infix(backend: Backend) -> Seq<char> {
    match backend {
        Backend::Ray => "/.config/"@,
        Backend::Tui => "/."@,
    }
}

/// The file a program keeps its state in: `{home}/.config/{title}` for the
/// window back end, `{home}/.{title}` for the terminal back end.
pub open spec fn spec_config_path(backend: Backend, home: Seq<char>, title: Seq<char>) -> Seq<char> {
    home + spec_path_infix(backend) + title
}

/// Names the environment variable that holds the home directory.
pub fn home_var(backend: Backend, windows: bool) -> (var: String)
    ensures
        var@ == spec_home_var(backend, windows),
{
    match backend {
        Backend::Ray => "HOMEPATH".to_owned(),
        Backend::Tui => if windows {
            "HOMEPATH".to_owned()
        } else {
            "HOME".to_owned()
        },
    }
}

/// Builds the path of the state file from the home directory and the title.
pub fn config_path(backend: Backend, home: &str, title: &str) -> (path: String)
    ensures
        path@ == spec_config_path(backend, home@, title@),
{
    let mut path = home.to_owned();
    match backend {
        Backend::Ray => path.append("/.config/"),
        Backend::Tui => path.append("/."),
    }
    path.append(title);
    path
}

} // verus!
