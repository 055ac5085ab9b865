//! Applying a chosen file as wallpaper and screensaver.
//!
//! Each desktop environment has its own manager, and each manager decides
//! the exact OS command for a given file path; running that command is the
//! caller's side effect.  A manager may also decide that nothing is to be
//! run (the headless manager, or a window manager without a screensaver).

pub mod gnome;
pub mod i3;
pub mod dummy;

use vstd::prelude::*;

verus! {

/// An OS command to run: a program and its arguments, in order.
pub struct ShellCommand {
    pub program: String,
    pub args: Vec<String>,
}

/// The mathematical shape of a command: program and arguments as character
/// sequences.  `None` means nothing is to be run.
pub open spec fn command_view(r: Option<ShellCommand>) -> Option<(Seq<char>, Seq<Seq<char>>)> {
    match r {
        Some(c) => Some((c.program@, c.args.deep_view())),
        None => None,
    }
}

/// Decides the command that sets the desktop background.
pub trait Wallpaper {
    /// The command this manager runs for a given path.
    spec fn wallpaper_action(&self, path: Seq<char>) -> Option<(Seq<char>, Seq<Seq<char>>)>;

    /// The command to run so that the file at `path` becomes the wallpaper,
    /// or nothing when this manager has no such command.
    fn set_wallpaper(&self, path: &str) -> (r: Option<ShellCommand>)
        ensures
            command_view(r) == self.wallpaper_action(path@),
    ;
}

/// Decides the command that sets the screensaver image.
pub trait Screensaver {
    /// The command this manager runs for a given path.
    spec fn screensaver_action(&self, path: Seq<char>) -> Option<(Seq<char>, Seq<Seq<char>>)>;

    /// The command to run so that the file at `path` becomes the screensaver
    /// image, or nothing when this manager has no such command.
    fn set_screensaver(&self, path: &str) -> (r: Option<ShellCommand>)
        ensures
            command_view(r) == self.screensaver_action(path@),
    ;
}

/// Both capabilities at once, so one manager value can be carried around.
pub trait WallpaperAndScreensaver: Wallpaper + Screensaver {

}

impl<T: Wallpaper + Screensaver> WallpaperAndScreensaver for T {

}

/// The manager chosen for a desktop session, one variant per environment.
pub enum SessionManager {
    Gnome(gnome::Manager),
    I3(i3::Manager),
    Dummy(dummy::Manager),
}

impl Wallpaper for SessionManager {
    open spec fn wallpaper_action(&self, path: Seq<char>) -> Option<(Seq<char>, Seq<Seq<char>>)> {
        match self {
            SessionManager::Gnome(m) => m.wallpaper_action(path),
            SessionManager::I3(m) => m.wallpaper_action(path),
            SessionManager::Dummy(m) => m.wallpaper_action(path),
        }
    }

    fn set_wallpaper(&self, path: &str) -> (r: Option<ShellCommand>) {
        match self {
            SessionManager::Gnome(m) => m.set_wallpaper(path),
            SessionManager::I3(m) => m.set_wallpaper(path),
            SessionManager::Dummy(m) => m.set_wallpaper(path),
        }
    }
}

impl Screensaver for SessionManager {
    open spec fn screensaver_action(&self, path: Seq<char>) -> Option<(Seq<char>, Seq<Seq<char>>)> {
        match self {
            SessionManager::Gnome(m) => m.screensaver_action(path),
            SessionManager::I3(m) => m.screensaver_action(path),
            SessionManager::Dummy(m) => m.screensaver_action(path),
        }
    }

    fn set_screensaver(&self, path: &str) -> (r: Option<ShellCommand>) {
        match self {
            SessionManager::Gnome(m) => m.set_screensaver(path),
            SessionManager::I3(m) => m.set_screensaver(path),
            SessionManager::Dummy(m) => m.set_screensaver(path),
        }
    }
}

/// Picks the manager for the named desktop session; an unrecognized session
/// gets the manager that does nothing.
pub fn detect_session(session: &str) -> (r: SessionManager)
    ensures
        session@ == "i3"@ ==> r is I3,
        session@ == "gnome"@ ==> r is Gnome,
        session@ != "i3"@ && session@ != "gnome"@ ==> r is Dummy,
{
    proof {
        reveal_strlit("i3");
        reveal_strlit("gnome");
        assert("i3"@.len() == 2);
        assert("gnome"@.len() == 5);
        assert("i3"@ != "gnome"@);
    }
    if crate::text::str_eq(session, "i3") {
        SessionManager::I3(i3::Manager {  })
    } else if crate::text::str_eq(session, "gnome") {
        SessionManager::Gnome(gnome::Manager {  })
    } else {
        SessionManager::Dummy(dummy::Manager {  })
    }
}

} // verus!
