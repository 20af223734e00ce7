use mpris::properties::{PlayerMetadata, PlayerProperties, RootProperties};
use mpris::value::{extract_value, Double, ObjectPathText, PropValue, PropertyMap};

fn s(text: &str) -> PropValue {
    PropValue::Str(text.to_string())
}

#[test]
fn volume_and_shuffle_decode_into_player_properties() {
    let mut map = PropertyMap::new();
    map.insert("Volume".to_string(), PropValue::F64(0.5f64.to_bits()));
    map.insert("Shuffle".to_string(), PropValue::Bool(true));
    let props = PlayerProperties::from_map(&map);
    assert_eq!(props.volume, Some(Double { bits: 0.5f64.to_bits() }));
    assert_eq!(f64::from_bits(props.volume.unwrap().bits), 0.5);
    assert_eq!(props.shuffle, Some(true));
    assert_eq!(props.playback_status, None);
    assert_eq!(props.loop_status, None);
    assert_eq!(props.position, None);
    assert_eq!(props.rate, None);
    assert_eq!(props.minimum_rate, None);
    assert_eq!(props.maximum_rate, None);
    assert_eq!(props.can_control, None);
    assert_eq!(props.can_play, None);
    assert_eq!(props.can_pause, None);
    assert_eq!(props.can_seek, None);
    assert_eq!(props.can_go_next, None);
    assert_eq!(props.can_go_previous, None);
}

#[test]
fn missing_key_gives_none_for_every_type() {
    let mut map = PropertyMap::new();
    map.insert("Other".to_string(), PropValue::Bool(true));
    assert_eq!(extract_value::<bool>(&map, "Missing"), None);
    assert_eq!(extract_value::<i64>(&map, "Missing"), None);
    assert_eq!(extract_value::<Double>(&map, "Missing"), None);
    assert_eq!(extract_value::<String>(&map, "Missing"), None);
    assert_eq!(extract_value::<Vec<String>>(&map, "Missing"), None);
    assert!(extract_value::<ObjectPathText>(&map, "Missing").is_none());
}

#[test]
fn mismatched_kind_gives_none() {
    let mut map = PropertyMap::new();
    map.insert("Flag".to_string(), s("true"));
    map.insert("Count".to_string(), PropValue::I32(7));
    map.insert("Ratio".to_string(), PropValue::I64(1));
    map.insert("Name".to_string(), PropValue::ObjectPath("/a".to_string()));
    map.insert("Tags".to_string(), s("rock"));
    map.insert("Path".to_string(), s("/a"));
    assert_eq!(extract_value::<bool>(&map, "Flag"), None);
    assert_eq!(extract_value::<i64>(&map, "Count"), None);
    assert_eq!(extract_value::<Double>(&map, "Ratio"), None);
    assert_eq!(extract_value::<String>(&map, "Name"), None);
    assert_eq!(extract_value::<Vec<String>>(&map, "Tags"), None);
    assert!(extract_value::<ObjectPathText>(&map, "Path").is_none());
}

#[test]
fn matching_kind_decodes() {
    let mut map = PropertyMap::new();
    map.insert("Flag".to_string(), PropValue::Bool(false));
    map.insert("Count".to_string(), PropValue::I64(-12));
    map.insert("Name".to_string(), s("VLC media player"));
    map.insert("Path".to_string(), PropValue::ObjectPath("/org/videolan/track/3".to_string()));
    assert_eq!(extract_value::<bool>(&map, "Flag"), Some(false));
    assert_eq!(extract_value::<i64>(&map, "Count"), Some(-12));
    assert_eq!(extract_value::<String>(&map, "Name").as_deref(), Some("VLC media player"));
    assert_eq!(extract_value::<ObjectPathText>(&map, "Path").unwrap().0, "/org/videolan/track/3");
}

#[test]
fn string_lists_accept_plain_and_wrapped_strings() {
    let mut map = PropertyMap::new();
    map.insert(
        "Artists".to_string(),
        PropValue::Array(vec![s("Daft Punk"), PropValue::Variant(Box::new(s("Pharrell")))]),
    );
    map.insert("Empty".to_string(), PropValue::Array(Vec::new()));
    map.insert("Mixed".to_string(), PropValue::Array(vec![s("a"), PropValue::I64(2)]));
    map.insert(
        "Deep".to_string(),
        PropValue::Array(vec![PropValue::Variant(Box::new(PropValue::Variant(Box::new(s("a")))))]),
    );
    assert_eq!(
        extract_value::<Vec<String>>(&map, "Artists"),
        Some(vec!["Daft Punk".to_string(), "Pharrell".to_string()])
    );
    assert_eq!(extract_value::<Vec<String>>(&map, "Empty"), Some(Vec::new()));
    assert_eq!(extract_value::<Vec<String>>(&map, "Mixed"), None);
    assert_eq!(extract_value::<Vec<String>>(&map, "Deep"), None);
}

#[test]
fn top_level_variant_is_not_unwrapped() {
    let mut map = PropertyMap::new();
    map.insert("Flag".to_string(), PropValue::Variant(Box::new(PropValue::Bool(true))));
    assert_eq!(extract_value::<bool>(&map, "Flag"), None);
}

#[test]
fn insert_replaces_existing_value() {
    let mut map = PropertyMap::new();
    map.insert("Volume".to_string(), PropValue::F64(1.0f64.to_bits()));
    map.insert("Volume".to_string(), PropValue::F64(0.25f64.to_bits()));
    assert_eq!(extract_value::<Double>(&map, "Volume"), Some(Double { bits: 0.25f64.to_bits() }));
    assert!(map.get("volume").is_none());
}

#[test]
fn root_properties_read_canonical_names() {
    let mut map = PropertyMap::new();
    map.insert("Identity".to_string(), s("Spotify"));
    map.insert("DesktopEntry".to_string(), s("spotify"));
    map.insert("CanQuit".to_string(), PropValue::Bool(true));
    map.insert("CanRaise".to_string(), PropValue::Bool(false));
    map.insert("Fullscreen".to_string(), PropValue::U8(1));
    map.insert("SupportedUriSchemes".to_string(), PropValue::Array(vec![s("spotify")]));
    map.insert("identity".to_string(), s("wrong case"));
    let props = RootProperties::from_map(&map);
    assert_eq!(props.identity.as_deref(), Some("Spotify"));
    assert_eq!(props.desktop_entry.as_deref(), Some("spotify"));
    assert_eq!(props.can_quit, Some(true));
    assert_eq!(props.can_raise, Some(false));
    assert_eq!(props.fullscreen, None);
    assert_eq!(props.has_track_list, None);
    assert_eq!(props.supported_uri_schemes, Some(vec!["spotify".to_string()]));
    assert_eq!(props.supported_mime_types, None);
    assert_eq!(props.can_set_fullscreen, None);
}

#[test]
fn metadata_reads_track_fields() {
    let mut map = PropertyMap::new();
    map.insert("mpris:trackid".to_string(), PropValue::ObjectPath("/com/spotify/track/42".to_string()));
    map.insert("mpris:length".to_string(), PropValue::I64(215_000_000));
    map.insert("xesam:title".to_string(), s("Get Lucky"));
    map.insert("xesam:artist".to_string(), PropValue::Array(vec![s("Daft Punk")]));
    map.insert("xesam:useCount".to_string(), PropValue::I64(3));
    map.insert("xesam:userRating".to_string(), PropValue::F64(0.8f64.to_bits()));
    map.insert("xesam:trackNumber".to_string(), PropValue::I32(8));
    let meta = PlayerMetadata::from_map(&map);
    assert_eq!(meta.mpris_trackid.as_deref(), Some("/com/spotify/track/42"));
    assert_eq!(meta.mpris_length, Some(215_000_000));
    assert_eq!(meta.xesam_title.as_deref(), Some("Get Lucky"));
    assert_eq!(meta.xesam_artist, Some(vec!["Daft Punk".to_string()]));
    assert_eq!(meta.xesam_user_count, Some(3));
    assert_eq!(meta.xesam_user_rating, Some(Double { bits: 0.8f64.to_bits() }));
    assert_eq!(meta.xesam_track_number, None);
    assert_eq!(meta.xesam_album, None);
}

#[test]
fn metadata_track_id_must_be_an_object_path() {
    let mut map = PropertyMap::new();
    map.insert("mpris:trackid".to_string(), s("/com/spotify/track/42"));
    assert_eq!(PlayerMetadata::from_map(&map).mpris_trackid, None);
}
