use vstd::prelude::*;
use vstd::string::*;
use crate::text::{text_eq, texts};
use crate::value::{extract_value, extracted, Double, ObjectPathText, PropValue, PropertyMap};

verus! {

/// The digit character for `d`, which is below ten.
pub open spec fn digit_char(d: int) -> char {
    "0123456789"@[d]
}

/// The decimal digits of `m`, most significant first.
pub open spec fn digits(m: nat) -> Seq<char>
    decreases m,
{
    if m < 10 {
        seq![digit_char(m as int)]
    } else {
        digits(m / 10) + seq![digit_char((m % 10) as int)]
    }
}

/// The decimal text of `n`, with a leading `-` when it is negative.
pub open spec fn decimal(n: int) -> Seq<char> {
    if n < 0 {
        seq!['-'] + digits((-n) as nat)
    } else {
        digits(n as nat)
    }
}

/// Relies on the standard library's `Display` for `i64` (through `to_string`):
/// its decimal digits, with a leading `-` for a negative number.
#[verifier::external_body]
fn int_text(n: i64) -> (r: String)
    ensures
        r@ == decimal(n as int),
{
    n.to_string()
}

/// The texts of a list joined with ", " between neighbours.
pub open spec fn joined(items: Seq<Seq<char>>) -> Seq<char>
    decreases items.len(),
{
    if items.len() == 0 {
        Seq::empty()
    } else if items.len() == 1 {
        items[0]
    } else {
        joined(items.drop_last()) + ", "@ + items.last()
    }
}

/// The text of an optional string.
pub open spec fn opt_text(o: Option<String>) -> Option<Seq<char>> {
    match o {
        Some(s) => Some(s@),
        None => None,
    }
}

/// How a flag is shown.
pub open spec fn bool_text(b: bool) -> Seq<char> {
    if b { "true"@ } else { "false"@ }
}

/// How an optional flag is shown.
pub open spec fn opt_bool_text(o: Option<bool>) -> Option<Seq<char>> {
    match o {
        Some(b) => Some(bool_text(b)),
        None => None,
    }
}

/// How an optional list of strings is shown: joined with ", ".
pub open spec fn opt_list_text(o: Option<Vec<String>>) -> Option<Seq<char>> {
    match o {
        Some(v) => Some(joined(texts(v@))),
        None => None,
    }
}

/// How an optional integer is shown: in decimal.
pub open spec fn opt_int_text(o: Option<i64>) -> Option<Seq<char>> {
    match o {
        Some(n) => Some(decimal(n as int)),
        None => None,
    }
}

/// The bits of an optional `Double`.
pub open spec fn opt_bits(o: Option<Double>) -> Option<u64> {
    match o {
        Some(d) => Some(d.bits),
        None => None,
    }
}

/// What `extract_value::<ObjectPathText>` followed by taking the text yields
/// for `key` of `map`, as a relation on the result.
pub open spec fn extracted_path(map: PropertyMap, key: Seq<char>, r: Option<String>) -> bool {
    if map@.contains_key(key) {
        match map@[key] {
            PropValue::ObjectPath(s) => r is Some && r.unwrap()@ == s@,
            _ => r is None,
        }
    } else {
        r is None
    }
}

fn path_text(p: Option<ObjectPathText>) -> (r: Option<String>)
    ensures
        opt_text(r) == match p {
            Some(t) => Some(t.0@),
            None => None::<Seq<char>>,
        },
{
    match p {
        Some(t) => Some(t.0),
        None => None,
    }
}

/// How one field is shown: as text, or, for a `Double`, as its bits, which
/// only a floating-point formatter can turn into text.
#[derive(Debug)]
pub enum FieldText {
    Text(String),
    Number(Double),
}

/// The text of a shown field, when it is shown as text.
pub open spec fn shown_text(r: Option<FieldText>) -> Option<Seq<char>> {
    match r {
        Some(FieldText::Text(s)) => Some(s@),
        _ => None,
    }
}

/// The bits of a shown field, when it is a `Double`.
pub open spec fn shown_number(r: Option<FieldText>) -> Option<u64> {
    match r {
        Some(FieldText::Number(d)) => Some(d.bits),
        _ => None,
    }
}

fn text_field(o: Option<String>) -> (r: Option<FieldText>)
    ensures
        shown_text(r) == opt_text(o),
        shown_number(r) is None,
{
    match o {
        Some(s) => Some(FieldText::Text(s)),
        None => None,
    }
}

fn number_field(o: Option<Double>) -> (r: Option<FieldText>)
    ensures
        shown_text(r) is None,
        shown_number(r) == opt_bits(o),
{
    match o {
        Some(d) => Some(FieldText::Number(d)),
        None => None,
    }
}

fn show_text(o: &Option<String>) -> (r: Option<String>)
    ensures
        opt_text(r) == opt_text(*o),
{
    match o {
        Some(s) => Some(s.clone()),
        None => None,
    }
}

fn show_bool(o: &Option<bool>) -> (r: Option<String>)
    ensures
        opt_text(r) == opt_bool_text(*o),
{
    match o {
        Some(b) => Some(if *b { "true".to_owned() } else { "false".to_owned() }),
        None => None,
    }
}

fn show_int(o: &Option<i64>) -> (r: Option<String>)
    ensures
        opt_text(r) == opt_int_text(*o),
{
    match o {
        Some(n) => Some(int_text(*n)),
        None => None,
    }
}

/// The texts of `v` joined with ", ".
pub fn join_list(v: &Vec<String>) -> (r: String)
    ensures
        r@ == joined(texts(v@)),
{
    let mut out = String::new();
    let mut i: usize = 0;
    while i < v.len()
        invariant
            i <= v.len(),
            out@ == joined(texts(v@).take(i as int)),
        decreases v.len() - i,
    {
        let ghost prev = texts(v@).take(i as int);
        let ghost next = texts(v@).take(i + 1);
        assert(next.drop_last() =~= prev);
        assert(next.last() == v@[i as int]@);
        if i > 0 {
            out.append(", ");
        } else {
            assert(next =~= seq![v@[0]@]);
        }
        out.append(v[i].as_str());
        i = i + 1;
    }
    assert(texts(v@).take(v.len() as int) =~= texts(v@));
    out
}

fn show_list(o: &Option<Vec<String>>) -> (r: Option<String>)
    ensures
        opt_text(r) == opt_list_text(*o),
{
    match o {
        Some(v) => Some(join_list(v)),
        None => None,
    }
}

/// The properties of a player's root interface. Each field is absent when the player does not advertise it or advertises a value of another kind.
#[derive(Debug)]
pub struct RootProperties {
    pub identity: Option<String>,
    pub desktop_entry: Option<String>,
    pub fullscreen: Option<bool>,
    pub has_track_list: Option<bool>,
    pub supported_mime_types: Option<Vec<String>>,
    pub supported_uri_schemes: Option<Vec<String>>,
    pub can_set_fullscreen: Option<bool>,
    pub can_quit: Option<bool>,
    pub can_raise: Option<bool>,
}

/// The properties of a player's playback interface. Each field is absent when the player does not advertise it or advertises a value of another kind. Numbers with a fraction are held as `Double`.
#[derive(Debug)]
pub struct PlayerProperties {
    pub playback_status: Option<String>,
    pub loop_status: Option<String>,
    pub shuffle: Option<bool>,
    pub volume: Option<Double>,
    pub position: Option<i64>,
    pub rate: Option<Double>,
    pub minimum_rate: Option<Double>,
    pub maximum_rate: Option<Double>,
    pub can_control: Option<bool>,
    pub can_play: Option<bool>,
    pub can_pause: Option<bool>,
    pub can_seek: Option<bool>,
    pub can_go_next: Option<bool>,
    pub can_go_previous: Option<bool>,
}

/// The metadata of the current track. Each field is absent when the player does not advertise it or advertises a value of another kind. The track identifier is the text of an object path.
#[derive(Debug)]
pub struct PlayerMetadata {
    pub mpris_art_url: Option<String>,
    pub mpris_length: Option<i64>,
    pub mpris_trackid: Option<String>,
    pub xesam_album: Option<String>,
    pub xesam_album_artist: Option<Vec<String>>,
    pub xesam_artist: Option<Vec<String>>,
    pub xesam_as_text: Option<String>,
    pub xesam_audio_bpm: Option<i64>,
    pub xesam_auto_rating: Option<Double>,
    pub xesam_comment: Option<Vec<String>>,
    pub xesam_composer: Option<Vec<String>>,
    pub xesam_content_created: Option<String>,
    pub xesam_disc_number: Option<i64>,
    pub xesam_first_used: Option<String>,
    pub xesam_genre: Option<Vec<String>>,
    pub xesam_last_used: Option<String>,
    pub xesam_lyricist: Option<Vec<String>>,
    pub xesam_title: Option<String>,
    pub xesam_track_number: Option<i64>,
    pub xesam_url: Option<String>,
    pub xesam_user_count: Option<i64>,
    pub xesam_user_rating: Option<Double>,
}

impl RootProperties {
    /// Reads each field from the root interface's property map, under its protocol name.
    pub fn from_map(map: &PropertyMap) -> (r: RootProperties)
        ensures
            extracted(*map, "Identity"@, r.identity),
            extracted(*map, "DesktopEntry"@, r.desktop_entry),
            extracted(*map, "Fullscreen"@, r.fullscreen),
            extracted(*map, "HasTrackList"@, r.has_track_list),
            extracted(*map, "SupportedMimeTypes"@, r.supported_mime_types),
            extracted(*map, "SupportedUriSchemes"@, r.supported_uri_schemes),
            extracted(*map, "CanSetFullscreen"@, r.can_set_fullscreen),
            extracted(*map, "CanQuit"@, r.can_quit),
            extracted(*map, "CanRaise"@, r.can_raise),
    {
        RootProperties {
            identity: extract_value(map, "Identity"),
            desktop_entry: extract_value(map, "DesktopEntry"),
            fullscreen: extract_value(map, "Fullscreen"),
            has_track_list: extract_value(map, "HasTrackList"),
            supported_mime_types: extract_value(map, "SupportedMimeTypes"),
            supported_uri_schemes: extract_value(map, "SupportedUriSchemes"),
            can_set_fullscreen: extract_value(map, "CanSetFullscreen"),
            can_quit: extract_value(map, "CanQuit"),
            can_raise: extract_value(map, "CanRaise"),
        }
    }
}

impl PlayerProperties {
    /// Reads each field from the playback interface's property map, under its protocol name.
    pub fn from_map(map: &PropertyMap) -> (r: PlayerProperties)
        ensures
            extracted(*map, "PlaybackStatus"@, r.playback_status),
            extracted(*map, "LoopStatus"@, r.loop_status),
            extracted(*map, "Shuffle"@, r.shuffle),
            extracted(*map, "Volume"@, r.volume),
            extracted(*map, "Position"@, r.position),
            extracted(*map, "Rate"@, r.rate),
            extracted(*map, "MinimumRate"@, r.minimum_rate),
            extracted(*map, "MaximumRate"@, r.maximum_rate),
            extracted(*map, "CanControl"@, r.can_control),
            extracted(*map, "CanPlay"@, r.can_play),
            extracted(*map, "CanPause"@, r.can_pause),
            extracted(*map, "CanSeek"@, r.can_seek),
            extracted(*map, "CanGoNext"@, r.can_go_next),
            extracted(*map, "CanGoPrevious"@, r.can_go_previous),
    {
        PlayerProperties {
            playback_status: extract_value(map, "PlaybackStatus"),
            loop_status: extract_value(map, "LoopStatus"),
            shuffle: extract_value(map, "Shuffle"),
            volume: extract_value(map, "Volume"),
            position: extract_value(map, "Position"),
            rate: extract_value(map, "Rate"),
            minimum_rate: extract_value(map, "MinimumRate"),
            maximum_rate: extract_value(map, "MaximumRate"),
            can_control: extract_value(map, "CanControl"),
            can_play: extract_value(map, "CanPlay"),
            can_pause: extract_value(map, "CanPause"),
            can_seek: extract_value(map, "CanSeek"),
            can_go_next: extract_value(map, "CanGoNext"),
            can_go_previous: extract_value(map, "CanGoPrevious"),
        }
    }
}

impl PlayerMetadata {
    /// Reads each field from a track's metadata map, under its protocol name.
    pub fn from_map(map: &PropertyMap) -> (r: PlayerMetadata)
        ensures
            extracted(*map, "mpris:artUrl"@, r.mpris_art_url),
            extracted(*map, "mpris:length"@, r.mpris_length),
            extracted_path(*map, "mpris:trackid"@, r.mpris_trackid),
            extracted(*map, "xesam:album"@, r.xesam_album),
            extracted(*map, "xesam:albumArtist"@, r.xesam_album_artist),
            extracted(*map, "xesam:artist"@, r.xesam_artist),
            extracted(*map, "xesam:asText"@, r.xesam_as_text),
            extracted(*map, "xesam:audioBPM"@, r.xesam_audio_bpm),
            extracted(*map, "xesam:autoRating"@, r.xesam_auto_rating),
            extracted(*map, "xesam:comment"@, r.xesam_comment),
            extracted(*map, "xesam:composer"@, r.xesam_composer),
            extracted(*map, "xesam:contentCreated"@, r.xesam_content_created),
            extracted(*map, "xesam:discNumber"@, r.xesam_disc_number),
            extracted(*map, "xesam:firstUsed"@, r.xesam_first_used),
            extracted(*map, "xesam:genre"@, r.xesam_genre),
            extracted(*map, "xesam:lastUsed"@, r.xesam_last_used),
            extracted(*map, "xesam:lyricist"@, r.xesam_lyricist),
            extracted(*map, "xesam:title"@, r.xesam_title),
            extracted(*map, "xesam:trackNumber"@, r.xesam_track_number),
            extracted(*map, "xesam:url"@, r.xesam_url),
            extracted(*map, "xesam:useCount"@, r.xesam_user_count),
            extracted(*map, "xesam:userRating"@, r.xesam_user_rating),
    {
        PlayerMetadata {
            mpris_art_url: extract_value(map, "mpris:artUrl"),
            mpris_length: extract_value(map, "mpris:length"),
            mpris_trackid: path_text(extract_value::<ObjectPathText>(map, "mpris:trackid")),
            xesam_album: extract_value(map, "xesam:album"),
            xesam_album_artist: extract_value(map, "xesam:albumArtist"),
            xesam_artist: extract_value(map, "xesam:artist"),
            xesam_as_text: extract_value(map, "xesam:asText"),
            xesam_audio_bpm: extract_value(map, "xesam:audioBPM"),
            xesam_auto_rating: extract_value(map, "xesam:autoRating"),
            xesam_comment: extract_value(map, "xesam:comment"),
            xesam_composer: extract_value(map, "xesam:composer"),
            xesam_content_created: extract_value(map, "xesam:contentCreated"),
            xesam_disc_number: extract_value(map, "xesam:discNumber"),
            xesam_first_used: extract_value(map, "xesam:firstUsed"),
            xesam_genre: extract_value(map, "xesam:genre"),
            xesam_last_used: extract_value(map, "xesam:lastUsed"),
            xesam_lyricist: extract_value(map, "xesam:lyricist"),
            xesam_title: extract_value(map, "xesam:title"),
            xesam_track_number: extract_value(map, "xesam:trackNumber"),
            xesam_url: extract_value(map, "xesam:url"),
            xesam_user_count: extract_value(map, "xesam:useCount"),
            xesam_user_rating: extract_value(map, "xesam:userRating"),
        }
    }
}

/// The display text of the root property called `name`, if it is known and set.
pub open spec fn root_field_text(p: RootProperties, name: Seq<char>) -> Option<Seq<char>> {
    if name == "Identity"@ {
        opt_text(p.identity)
    } else if name == "DesktopEntry"@ {
        opt_text(p.desktop_entry)
    } else if name == "Fullscreen"@ {
        opt_bool_text(p.fullscreen)
    } else if name == "HasTrackList"@ {
        opt_bool_text(p.has_track_list)
    } else if name == "SupportedMimeTypes"@ {
        opt_list_text(p.supported_mime_types)
    } else if name == "SupportedUriSchemes"@ {
        opt_list_text(p.supported_uri_schemes)
    } else if name == "CanSetFullscreen"@ {
        opt_bool_text(p.can_set_fullscreen)
    } else if name == "CanQuit"@ {
        opt_bool_text(p.can_quit)
    } else if name == "CanRaise"@ {
        opt_bool_text(p.can_raise)
    } else {
        None
    }
}

/// The display text of the playback property called `name`, if it is known, set and not a `Double`.
pub open spec fn player_field_text(p: PlayerProperties, name: Seq<char>) -> Option<Seq<char>> {
    if name == "PlaybackStatus"@ {
        opt_text(p.playback_status)
    } else if name == "LoopStatus"@ {
        opt_text(p.loop_status)
    } else if name == "Shuffle"@ {
        opt_bool_text(p.shuffle)
    } else if name == "Volume"@ {
        None
    } else if name == "Position"@ {
        opt_int_text(p.position)
    } else if name == "Rate"@ {
        None
    } else if name == "MinimumRate"@ {
        None
    } else if name == "MaximumRate"@ {
        None
    } else if name == "CanControl"@ {
        opt_bool_text(p.can_control)
    } else if name == "CanPlay"@ {
        opt_bool_text(p.can_play)
    } else if name == "CanPause"@ {
        opt_bool_text(p.can_pause)
    } else if name == "CanSeek"@ {
        opt_bool_text(p.can_seek)
    } else if name == "CanGoNext"@ {
        opt_bool_text(p.can_go_next)
    } else if name == "CanGoPrevious"@ {
        opt_bool_text(p.can_go_previous)
    } else {
        None
    }
}

/// The bits of the playback property called `name`, if it is a known `Double` field and set.
pub open spec fn player_field_number(p: PlayerProperties, name: Seq<char>) -> Option<u64> {
    if name == "PlaybackStatus"@ {
        None
    } else if name == "LoopStatus"@ {
        None
    } else if name == "Shuffle"@ {
        None
    } else if name == "Volume"@ {
        opt_bits(p.volume)
    } else if name == "Position"@ {
        None
    } else if name == "Rate"@ {
        opt_bits(p.rate)
    } else if name == "MinimumRate"@ {
        opt_bits(p.minimum_rate)
    } else if name == "MaximumRate"@ {
        opt_bits(p.maximum_rate)
    } else if name == "CanControl"@ {
        None
    } else if name == "CanPlay"@ {
        None
    } else if name == "CanPause"@ {
        None
    } else if name == "CanSeek"@ {
        None
    } else if name == "CanGoNext"@ {
        None
    } else if name == "CanGoPrevious"@ {
        None
    } else {
        None
    }
}

/// The display text of the metadata field called `name`, if it is known, set and not a `Double`.
pub open spec fn metadata_field_text(p: PlayerMetadata, name: Seq<char>) -> Option<Seq<char>> {
    if name == "mpris:artUrl"@ {
        opt_text(p.mpris_art_url)
    } else if name == "mpris:length"@ {
        opt_int_text(p.mpris_length)
    } else if name == "mpris:trackid"@ {
        opt_text(p.mpris_trackid)
    } else if name == "xesam:album"@ {
        opt_text(p.xesam_album)
    } else if name == "xesam:albumArtist"@ {
        opt_list_text(p.xesam_album_artist)
    } else if name == "xesam:artist"@ {
        opt_list_text(p.xesam_artist)
    } else if name == "xesam:asText"@ {
        opt_text(p.xesam_as_text)
    } else if name == "xesam:audioBPM"@ {
        opt_int_text(p.xesam_audio_bpm)
    } else if name == "xesam:autoRating"@ {
        None
    } else if name == "xesam:comment"@ {
        opt_list_text(p.xesam_comment)
    } else if name == "xesam:composer"@ {
        opt_list_text(p.xesam_composer)
    } else if name == "xesam:contentCreated"@ {
        opt_text(p.xesam_content_created)
    } else if name == "xesam:discNumber"@ {
        opt_int_text(p.xesam_disc_number)
    } else if name == "xesam:firstUsed"@ {
        opt_text(p.xesam_first_used)
    } else if name == "xesam:genre"@ {
        opt_list_text(p.xesam_genre)
    } else if name == "xesam:lastUsed"@ {
        opt_text(p.xesam_last_used)
    } else if name == "xesam:lyricist"@ {
        opt_list_text(p.xesam_lyricist)
    } else if name == "xesam:title"@ {
        opt_text(p.xesam_title)
    } else if name == "xesam:trackNumber"@ {
        opt_int_text(p.xesam_track_number)
    } else if name == "xesam:url"@ {
        opt_text(p.xesam_url)
    } else if name == "xesam:useCount"@ {
        opt_int_text(p.xesam_user_count)
    } else if name == "xesam:userRating"@ {
        None
    } else {
        None
    }
}

/// The bits of the metadata field called `name`, if it is a known `Double` field and set.
pub open spec fn metadata_field_number(p: PlayerMetadata, name: Seq<char>) -> Option<u64> {
    if name == "mpris:artUrl"@ {
        None
    } else if name == "mpris:length"@ {
        None
    } else if name == "mpris:trackid"@ {
        None
    } else if name == "xesam:album"@ {
        None
    } else if name == "xesam:albumArtist"@ {
        None
    } else if name == "xesam:artist"@ {
        None
    } else if name == "xesam:asText"@ {
        None
    } else if name == "xesam:audioBPM"@ {
        None
    } else if name == "xesam:autoRating"@ {
        opt_bits(p.xesam_auto_rating)
    } else if name == "xesam:comment"@ {
        None
    } else if name == "xesam:composer"@ {
        None
    } else if name == "xesam:contentCreated"@ {
        None
    } else if name == "xesam:discNumber"@ {
        None
    } else if name == "xesam:firstUsed"@ {
        None
    } else if name == "xesam:genre"@ {
        None
    } else if name == "xesam:lastUsed"@ {
        None
    } else if name == "xesam:lyricist"@ {
        None
    } else if name == "xesam:title"@ {
        None
    } else if name == "xesam:trackNumber"@ {
        None
    } else if name == "xesam:url"@ {
        None
    } else if name == "xesam:useCount"@ {
        None
    } else if name == "xesam:userRating"@ {
        opt_bits(p.xesam_user_rating)
    } else {
        None
    }
}

/// The display text of the root property called `name`; nothing for an unknown name or an absent value.
pub fn get_root_properties_field(props: &RootProperties, name: &str) -> (r: Option<String>)
    ensures
        opt_text(r) == root_field_text(*props, name@),
{
    if text_eq(name, "Identity") {
        show_text(&props.identity)
    } else if text_eq(name, "DesktopEntry") {
        show_text(&props.desktop_entry)
    } else if text_eq(name, "Fullscreen") {
        show_bool(&props.fullscreen)
    } else if text_eq(name, "HasTrackList") {
        show_bool(&props.has_track_list)
    } else if text_eq(name, "SupportedMimeTypes") {
        show_list(&props.supported_mime_types)
    } else if text_eq(name, "SupportedUriSchemes") {
        show_list(&props.supported_uri_schemes)
    } else if text_eq(name, "CanSetFullscreen") {
        show_bool(&props.can_set_fullscreen)
    } else if text_eq(name, "CanQuit") {
        show_bool(&props.can_quit)
    } else if text_eq(name, "CanRaise") {
        show_bool(&props.can_raise)
    } else {
        None
    }
}

/// The display form of the playback property called `name`; nothing for an unknown name or an absent value.
pub fn get_player_properties_field(props: &PlayerProperties, name: &str) -> (r: Option<FieldText>)
    ensures
        shown_text(r) == player_field_text(*props, name@),
        shown_number(r) == player_field_number(*props, name@),
{
    if text_eq(name, "PlaybackStatus") {
        text_field(show_text(&props.playback_status))
    } else if text_eq(name, "LoopStatus") {
        text_field(show_text(&props.loop_status))
    } else if text_eq(name, "Shuffle") {
        text_field(show_bool(&props.shuffle))
    } else if text_eq(name, "Volume") {
        number_field(props.volume)
    } else if text_eq(name, "Position") {
        text_field(show_int(&props.position))
    } else if text_eq(name, "Rate") {
        number_field(props.rate)
    } else if text_eq(name, "MinimumRate") {
        number_field(props.minimum_rate)
    } else if text_eq(name, "MaximumRate") {
        number_field(props.maximum_rate)
    } else if text_eq(name, "CanControl") {
        text_field(show_bool(&props.can_control))
    } else if text_eq(name, "CanPlay") {
        text_field(show_bool(&props.can_play))
    } else if text_eq(name, "CanPause") {
        text_field(show_bool(&props.can_pause))
    } else if text_eq(name, "CanSeek") {
        text_field(show_bool(&props.can_seek))
    } else if text_eq(name, "CanGoNext") {
        text_field(show_bool(&props.can_go_next))
    } else if text_eq(name, "CanGoPrevious") {
        text_field(show_bool(&props.can_go_previous))
    } else {
        None
    }
}

/// The display form of the metadata field called `name`; nothing for an unknown name or an absent value.
pub fn get_metadata_field(props: &PlayerMetadata, name: &str) -> (r: Option<FieldText>)
    ensures
        shown_text(r) == metadata_field_text(*props, name@),
        shown_number(r) == metadata_field_number(*props, name@),
{
    if text_eq(name, "mpris:artUrl") {
        text_field(show_text(&props.mpris_art_url))
    } else if text_eq(name, "mpris:length") {
        text_field(show_int(&props.mpris_length))
    } else if text_eq(name, "mpris:trackid") {
        text_field(show_text(&props.mpris_trackid))
    } else if text_eq(name, "xesam:album") {
        text_field(show_text(&props.xesam_album))
    } else if text_eq(name, "xesam:albumArtist") {
        text_field(show_list(&props.xesam_album_artist))
    } else if text_eq(name, "xesam:artist") {
        text_field(show_list(&props.xesam_artist))
    } else if text_eq(name, "xesam:asText") {
        text_field(show_text(&props.xesam_as_text))
    } else if text_eq(name, "xesam:audioBPM") {
        text_field(show_int(&props.xesam_audio_bpm))
    } else if text_eq(name, "xesam:autoRating") {
        number_field(props.xesam_auto_rating)
    } else if text_eq(name, "xesam:comment") {
        text_field(show_list(&props.xesam_comment))
    } else if text_eq(name, "xesam:composer") {
        text_field(show_list(&props.xesam_composer))
    } else if text_eq(name, "xesam:contentCreated") {
        text_field(show_text(&props.xesam_content_created))
    } else if text_eq(name, "xesam:discNumber") {
        text_field(show_int(&props.xesam_disc_number))
    } else if text_eq(name, "xesam:firstUsed") {
        text_field(show_text(&props.xesam_first_used))
    } else if text_eq(name, "xesam:genre") {
        text_field(show_list(&props.xesam_genre))
    } else if text_eq(name, "xesam:lastUsed") {
        text_field(show_text(&props.xesam_last_used))
    } else if text_eq(name, "xesam:lyricist") {
        text_field(show_list(&props.xesam_lyricist))
    } else if text_eq(name, "xesam:title") {
        text_field(show_text(&props.xesam_title))
    } else if text_eq(name, "xesam:trackNumber") {
        text_field(show_int(&props.xesam_track_number))
    } else if text_eq(name, "xesam:url") {
        text_field(show_text(&props.xesam_url))
    } else if text_eq(name, "xesam:useCount") {
        text_field(show_int(&props.xesam_user_count))
    } else if text_eq(name, "xesam:userRating") {
        number_field(props.xesam_user_rating)
    } else {
        None
    }
}

} // verus!
