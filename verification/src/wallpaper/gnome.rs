//! The GNOME desktop: wallpaper and screensaver are both set through
//! `gsettings`.

use vstd::prelude::*;
use crate::wallpaper::{ShellCommand, Wallpaper, Screensaver};

verus! {

/// The GNOME manager.
pub struct Manager {

}

impl Wallpaper for Manager {
    open spec fn wallpaper_action(&self, path: Seq<char>) -> Option<(Seq<char>, Seq<Seq<char>>)> {
        Some(
            (
                "gsettings"@,
                seq!["set"@, "org.gnome.desktop.background"@, "picture-uri"@, path],
            ),
        )
    }

    fn set_wallpaper(&self, path: &str) -> (r: Option<ShellCommand>) {
        let mut args: Vec<String> = Vec::new();
        args.push("set".to_owned());
        args.push("org.gnome.desktop.background".to_owned());
        args.push("picture-uri".to_owned());
        args.push(path.to_owned());
        let c = ShellCommand { program: "gsettings".to_owned(), args };
        proof {
            assert(c.args.deep_view() =~= seq![
                "set"@,
                "org.gnome.desktop.background"@,
                "picture-uri"@,
                path@,
            ]);
        }
        Some(c)
    }
}

impl Screensaver for Manager {
    open spec fn screensaver_action(&self, path: Seq<char>) -> Option<(Seq<char>, Seq<Seq<char>>)> {
        Some(
            (
                "gsettings"@,
                seq!["set"@, "org.gnome.desktop.screensaver"@, "picture-uri"@, path],
            ),
        )
    }

    fn set_screensaver(&self, path: &str) -> (r: Option<ShellCommand>) {
        let mut args: Vec<String> = Vec::new();
        args.push("set".to_owned());
        args.push("org.gnome.desktop.screensaver".to_owned());
        args.push("picture-uri".to_owned());
        args.push(path.to_owned());
        let c = ShellCommand { program: "gsettings".to_owned(), args };
        proof {
            assert(c.args.deep_view() =~= seq![
                "set"@,
                "org.gnome.desktop.screensaver"@,
                "picture-uri"@,
                path@,
            ]);
        }
        Some(c)
    }
}

} // verus!
