//! Lightweight window managers in the i3 family: the wallpaper is painted
//! with `feh`, and there is no screensaver to set.

use vstd::prelude::*;
use crate::wallpaper::{ShellCommand, Wallpaper, Screensaver};

verus! {

/// The i3 manager.
pub struct Manager {

}

impl Wallpaper for Manager {
    open spec fn wallpaper_action(&self, path: Seq<char>) -> Option<(Seq<char>, Seq<Seq<char>>)> {
        Some(("feh"@, seq!["--bg-fill"@, path]))
    }

    fn set_wallpaper(&self, path: &str) -> (r: Option<ShellCommand>) {
        let mut args: Vec<String> = Vec::new();
        args.push("--bg-fill".to_owned());
        args.push(path.to_owned());
        let c = ShellCommand { program: "feh".to_owned(), args };
        proof {
            assert(c.args.deep_view() =~= seq!["--bg-fill"@, path@]);
        }
        Some(c)
    }
}

impl Screensaver for Manager {
    open spec fn screensaver_action(&self, path: Seq<char>) -> Option<(Seq<char>, Seq<Seq<char>>)> {
        None
    }

    fn set_screensaver(&self, path: &str) -> (r: Option<ShellCommand>) {
        None
    }
}

} // verus!
