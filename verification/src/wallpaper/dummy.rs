//! The headless manager: recognizes no desktop and runs nothing, so the
//! engine can be exercised without side effects.

use vstd::prelude::*;
use crate::wallpaper::{ShellCommand, Wallpaper, Screensaver};

verus! {

/// The do-nothing manager.
pub struct Manager {

}

impl Wallpaper for Manager {
    open spec fn wallpaper_action(&self, path: Seq<char>) -> Option<(Seq<char>, Seq<Seq<char>>)> {
        None
    }

    fn set_wallpaper(&self, path: &str) -> (r: Option<ShellCommand>) {
        None
    }
}

impl Screensaver for Manager {
    open spec fn screensaver_action(&self, path: Seq<char>) -> Option<(Seq<char>, Seq<Seq<char>>)> {
        None
    }

    fn set_screensaver(&self, path: &str) -> (r: Option<ShellCommand>) {
        None
    }
}

} // verus!
