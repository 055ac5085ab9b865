use blisspaper::bliss::Bliss;
use blisspaper::fetch::unsplash::CollectionEndpoint;
use blisspaper::store::Store;
use blisspaper::wallpaper::{detect_session, dummy, gnome, i3, SessionManager, Screensaver, Wallpaper};

#[test]
fn test_detect_session_variants() {
    assert!(matches!(detect_session("i3"), SessionManager::I3(_)));
    assert!(matches!(detect_session("gnome"), SessionManager::Gnome(_)));
    assert!(matches!(detect_session("kde"), SessionManager::Dummy(_)));
    assert!(matches!(detect_session(""), SessionManager::Dummy(_)));
}

#[test]
fn test_gnome_commands() {
    let m = gnome::Manager {};
    let cmd = m.set_wallpaper("/tmp/w.jpg").expect("gnome paints wallpapers");
    assert_eq!(cmd.program, "gsettings");
    assert_eq!(
        cmd.args,
        vec![
            "set".to_owned(),
            "org.gnome.desktop.background".to_owned(),
            "picture-uri".to_owned(),
            "/tmp/w.jpg".to_owned(),
        ]
    );

    let cmd = m.set_screensaver("/tmp/w.jpg").expect("gnome sets screensavers");
    assert_eq!(cmd.program, "gsettings");
    assert_eq!(
        cmd.args,
        vec![
            "set".to_owned(),
            "org.gnome.desktop.screensaver".to_owned(),
            "picture-uri".to_owned(),
            "/tmp/w.jpg".to_owned(),
        ]
    );
}

#[test]
fn test_i3_commands() {
    let m = i3::Manager {};
    let cmd = m.set_wallpaper("/tmp/w.jpg").expect("i3 paints wallpapers");
    assert_eq!(cmd.program, "feh");
    assert_eq!(cmd.args, vec!["--bg-fill".to_owned(), "/tmp/w.jpg".to_owned()]);
    assert!(m.set_screensaver("/tmp/w.jpg").is_none());
}

#[test]
fn test_dummy_does_nothing() {
    let m = dummy::Manager {};
    assert!(m.set_wallpaper("/tmp/w.jpg").is_none());
    assert!(m.set_screensaver("/tmp/w.jpg").is_none());
}

#[test]
fn test_session_manager_delegates() {
    let m = detect_session("i3");
    let cmd = m.set_wallpaper("/x").expect("i3 paints wallpapers");
    assert_eq!(cmd.program, "feh");
    assert!(m.set_screensaver("/x").is_none());
}

#[test]
fn test_engine_presents_through_its_manager() {
    let store = Store::new(".cache".to_owned(), 2);
    let bliss = Bliss::new(i3::Manager {}, store, CollectionEndpoint::new(1));
    let (wallpaper, screensaver) = bliss.present("/tmp/w.jpg");
    let cmd = wallpaper.expect("i3 paints wallpapers");
    assert_eq!(cmd.program, "feh");
    assert_eq!(cmd.args, vec!["--bg-fill".to_owned(), "/tmp/w.jpg".to_owned()]);
    assert!(screensaver.is_none());
}
