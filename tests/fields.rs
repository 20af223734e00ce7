use mpris::position::set_position_track;
use mpris::properties::{
    get_metadata_field, get_player_properties_field, get_root_properties_field, join_list, FieldText,
    PlayerMetadata, PlayerProperties, RootProperties,
};
use mpris::value::{Double, PropertyMap};
use mpris::Error;

fn empty_root() -> RootProperties {
    RootProperties::from_map(&PropertyMap::new())
}

fn text(r: Option<FieldText>) -> Option<String> {
    match r {
        Some(FieldText::Text(s)) => Some(s),
        Some(FieldText::Number(d)) => panic!("a number: {:?}", d),
        None => None,
    }
}

#[test]
fn root_field_table_shows_each_kind() {
    let mut props = empty_root();
    props.identity = Some("VLC media player".to_string());
    props.can_quit = Some(true);
    props.fullscreen = Some(false);
    props.supported_mime_types = Some(vec!["audio/mpeg".to_string(), "video/mp4".to_string(), "audio/ogg".to_string()]);
    assert_eq!(get_root_properties_field(&props, "Identity").as_deref(), Some("VLC media player"));
    assert_eq!(get_root_properties_field(&props, "CanQuit").as_deref(), Some("true"));
    assert_eq!(get_root_properties_field(&props, "Fullscreen").as_deref(), Some("false"));
    assert_eq!(
        get_root_properties_field(&props, "SupportedMimeTypes").as_deref(),
        Some("audio/mpeg, video/mp4, audio/ogg")
    );
}

#[test]
fn root_field_table_unknown_or_absent_is_none() {
    let props = empty_root();
    assert_eq!(get_root_properties_field(&props, "Identity"), None);
    assert_eq!(get_root_properties_field(&props, "NoSuchField"), None);
    assert_eq!(get_root_properties_field(&props, "identity"), None);
    assert_eq!(get_root_properties_field(&props, ""), None);
}

#[test]
fn player_field_table_shows_text_and_numbers() {
    let mut props = PlayerProperties::from_map(&PropertyMap::new());
    props.position = Some(-42);
    props.playback_status = Some("Playing".to_string());
    props.can_seek = Some(true);
    props.volume = Some(Double { bits: 0.75f64.to_bits() });
    assert_eq!(text(get_player_properties_field(&props, "Position")).as_deref(), Some("-42"));
    assert_eq!(text(get_player_properties_field(&props, "PlaybackStatus")).as_deref(), Some("Playing"));
    assert_eq!(text(get_player_properties_field(&props, "CanSeek")).as_deref(), Some("true"));
    match get_player_properties_field(&props, "Volume") {
        Some(FieldText::Number(d)) => assert_eq!(f64::from_bits(d.bits), 0.75),
        other => panic!("unexpected {:?}", other),
    }
    assert!(get_player_properties_field(&props, "Rate").is_none());
    assert!(get_player_properties_field(&props, "Bogus").is_none());
}

#[test]
fn metadata_field_table_shows_lists_and_integers() {
    let mut meta = PlayerMetadata::from_map(&PropertyMap::new());
    meta.xesam_artist = Some(vec!["Simon".to_string(), "Garfunkel".to_string()]);
    meta.xesam_track_number = Some(7);
    meta.mpris_length = Some(i64::MIN);
    meta.xesam_user_count = Some(1234567890);
    meta.xesam_genre = Some(Vec::new());
    assert_eq!(text(get_metadata_field(&meta, "xesam:artist")).as_deref(), Some("Simon, Garfunkel"));
    assert_eq!(text(get_metadata_field(&meta, "xesam:trackNumber")).as_deref(), Some("7"));
    assert_eq!(text(get_metadata_field(&meta, "mpris:length")).as_deref(), Some("-9223372036854775808"));
    assert_eq!(text(get_metadata_field(&meta, "xesam:useCount")).as_deref(), Some("1234567890"));
    assert_eq!(text(get_metadata_field(&meta, "xesam:genre")).as_deref(), Some(""));
    assert!(get_metadata_field(&meta, "xesam:title").is_none());
    assert!(get_metadata_field(&meta, "title").is_none());
}

#[test]
fn join_list_separates_with_comma_space() {
    assert_eq!(join_list(&Vec::new()), "");
    assert_eq!(join_list(&vec!["one".to_string()]), "one");
    assert_eq!(join_list(&vec!["a".to_string(), "b".to_string(), "c".to_string()]), "a, b, c");
}

fn metadata_with_track(track: Option<&str>) -> PlayerMetadata {
    let mut meta = PlayerMetadata::from_map(&PropertyMap::new());
    meta.mpris_trackid = track.map(|t| t.to_string());
    meta
}

#[test]
fn set_position_without_track_makes_no_call() {
    assert!(matches!(set_position_track(&metadata_with_track(None)), Ok(None)));
}

#[test]
fn set_position_addresses_the_current_track() {
    for path in ["/org/mpris/MediaPlayer2/Track/1", "/", "/a_b/C9"] {
        match set_position_track(&metadata_with_track(Some(path))) {
            Ok(Some(track)) => assert_eq!(track, path),
            other => panic!("unexpected {:?}", other),
        }
    }
}

#[test]
fn set_position_rejects_a_malformed_track_id() {
    for path in ["", "track/1", "/a/", "/a//b", "/a-b", "/é"] {
        assert!(matches!(set_position_track(&metadata_with_track(Some(path))), Err(Error::ZVariant(_))), "{}", path);
    }
}
