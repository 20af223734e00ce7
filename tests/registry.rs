use mpris::root::Root;
use mpris::Error;

fn names(list: &[&str]) -> Vec<String> {
    list.iter().map(|s| s.to_string()).collect()
}

fn current(root: &Root<()>) -> Option<String> {
    root.get_player().ok().map(|p| p.name.clone())
}

#[test]
fn discovery_selects_alphabetically_first_and_cycles() {
    let mut root = Root::new((), names(&["org.mpris.MediaPlayer2.vlc", "org.mpris.MediaPlayer2.spotify"]));
    assert_eq!(
        root.get_players(),
        &names(&["org.mpris.MediaPlayer2.spotify", "org.mpris.MediaPlayer2.vlc"])
    );
    assert_eq!(current(&root).as_deref(), Some("org.mpris.MediaPlayer2.spotify"));
    assert!(root.next_player().is_ok());
    assert_eq!(current(&root).as_deref(), Some("org.mpris.MediaPlayer2.vlc"));
    assert!(root.next_player().is_ok());
    assert_eq!(current(&root).as_deref(), Some("org.mpris.MediaPlayer2.spotify"));
}

#[test]
fn empty_discovery_has_no_player_and_moves_are_no_ops() {
    let mut root = Root::new((), Vec::new());
    assert!(root.get_players().is_empty());
    assert!(matches!(root.get_player(), Err(Error::NoPlayerFound)));
    assert!(root.next_player().is_ok());
    assert!(root.previous_player().is_ok());
    assert!(matches!(root.get_player(), Err(Error::NoPlayerFound)));
}

#[test]
fn discovery_keeps_only_player_services_sorted_once() {
    let root = Root::new(
        (),
        names(&[
            "org.freedesktop.DBus",
            "org.mpris.MediaPlayer2.mpv",
            ":1.42",
            "org.mpris.MediaPlayer2",
            "org.mpris.MediaPlayer2.firefox.instance_1_7",
            "org.mpris.MediaPlayer2.mpv",
            "org.mpris.MediaPlayer2.Amberol",
        ]),
    );
    assert_eq!(
        root.get_players(),
        &names(&[
            "org.mpris.MediaPlayer2.Amberol",
            "org.mpris.MediaPlayer2.firefox.instance_1_7",
            "org.mpris.MediaPlayer2.mpv",
        ])
    );
    assert_eq!(current(&root).as_deref(), Some("org.mpris.MediaPlayer2.Amberol"));
}

#[test]
fn discovery_without_players_is_empty() {
    let root = Root::new((), names(&["org.freedesktop.Notifications", ":1.7"]));
    assert!(root.get_players().is_empty());
    assert!(matches!(root.get_player(), Err(Error::NoPlayerFound)));
}

#[test]
fn previous_from_first_wraps_to_last() {
    let mut root = Root::new(
        (),
        names(&["org.mpris.MediaPlayer2.a", "org.mpris.MediaPlayer2.b", "org.mpris.MediaPlayer2.c"]),
    );
    assert!(root.previous_player().is_ok());
    assert_eq!(current(&root).as_deref(), Some("org.mpris.MediaPlayer2.c"));
    assert!(root.previous_player().is_ok());
    assert_eq!(current(&root).as_deref(), Some("org.mpris.MediaPlayer2.b"));
}

#[test]
fn previous_undoes_next_at_every_position() {
    let list = names(&["org.mpris.MediaPlayer2.a", "org.mpris.MediaPlayer2.b", "org.mpris.MediaPlayer2.c"]);
    let mut root = Root::new((), list.clone());
    for name in &list {
        assert!(root.set_player(name).is_ok());
        root.next_player().unwrap();
        root.previous_player().unwrap();
        assert_eq!(current(&root).as_ref(), Some(name));
    }
}

#[test]
fn next_n_times_returns_to_start() {
    let list = names(&[
        "org.mpris.MediaPlayer2.a",
        "org.mpris.MediaPlayer2.b",
        "org.mpris.MediaPlayer2.c",
        "org.mpris.MediaPlayer2.d",
    ]);
    let mut root = Root::new((), list.clone());
    root.set_player("org.mpris.MediaPlayer2.c").unwrap();
    for _ in 0..list.len() {
        root.next_player().unwrap();
    }
    assert_eq!(current(&root).as_deref(), Some("org.mpris.MediaPlayer2.c"));
}

#[test]
fn single_player_next_and_previous_stay() {
    let mut root = Root::new((), names(&["org.mpris.MediaPlayer2.solo"]));
    root.next_player().unwrap();
    assert_eq!(current(&root).as_deref(), Some("org.mpris.MediaPlayer2.solo"));
    root.previous_player().unwrap();
    assert_eq!(current(&root).as_deref(), Some("org.mpris.MediaPlayer2.solo"));
}

#[test]
fn set_player_selects_by_exact_name() {
    let mut root = Root::new((), names(&["org.mpris.MediaPlayer2.spotify", "org.mpris.MediaPlayer2.vlc"]));
    assert!(root.set_player("org.mpris.MediaPlayer2.vlc").is_ok());
    assert_eq!(current(&root).as_deref(), Some("org.mpris.MediaPlayer2.vlc"));
}

#[test]
fn set_player_unknown_name_reports_and_keeps_selection() {
    let mut root = Root::new((), names(&["org.mpris.MediaPlayer2.spotify", "org.mpris.MediaPlayer2.vlc"]));
    root.set_player("org.mpris.MediaPlayer2.vlc").unwrap();
    for unknown in ["org.mpris.MediaPlayer2.VLC", "vlc", "org.mpris.MediaPlayer2.vl", ""] {
        match root.set_player(unknown) {
            Err(Error::PlayerNotFound(name)) => assert_eq!(name, unknown),
            other => panic!("unexpected result {:?}", other),
        }
        assert_eq!(current(&root).as_deref(), Some("org.mpris.MediaPlayer2.vlc"));
    }
}

#[test]
fn set_player_on_empty_registry_reports_not_found() {
    let mut root = Root::new((), Vec::new());
    assert!(matches!(root.set_player("org.mpris.MediaPlayer2.vlc"), Err(Error::PlayerNotFound(_))));
    assert!(matches!(root.get_player(), Err(Error::NoPlayerFound)));
}
