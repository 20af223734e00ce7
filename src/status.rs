use vstd::prelude::*;
use zbus::zvariant::Error as VariantError;
use crate::text::text_eq;
use crate::value::{FromValue, PropValue};

verus! {

/// Relies on zvariant's `Error::IncorrectType`: the error it reports for a value
/// of the wrong kind.
#[verifier::external_body]
fn incorrect_type() -> VariantError {
    zbus::zvariant::Error::IncorrectType
}

/// Whether a player is playing, paused or stopped.
#[derive(Clone, Copy, Debug, PartialEq, Eq, Structural)]
pub enum PlaybackStatus {
    Playing,
    Paused,
    Stopped,
}

/// How a player repeats: not at all (`Off`, named "None" on the bus), the
/// current track, or the playlist.
#[derive(Clone, Copy, Debug, PartialEq, Eq, Structural)]
pub enum LoopStatus {
    Off,
    Track,
    Playlist,
}

impl PlaybackStatus {
    /// The exact-case name that stands for the status on the bus.
    pub open spec fn name(self) -> Seq<char> {
        match self {
            PlaybackStatus::Playing => "Playing"@,
            PlaybackStatus::Paused => "Paused"@,
            PlaybackStatus::Stopped => "Stopped"@,
        }
    }

    /// The status whose name is `t`, if any.
    pub open spec fn from_name(t: Seq<char>) -> Option<PlaybackStatus> {
        if t == "Playing"@ {
            Some(PlaybackStatus::Playing)
        } else if t == "Paused"@ {
            Some(PlaybackStatus::Paused)
        } else if t == "Stopped"@ {
            Some(PlaybackStatus::Stopped)
        } else {
            None
        }
    }

    /// Encodes the status as a bus string value.
    pub fn to_value(self) -> (r: PropValue)
        ensures
            r matches PropValue::Str(s) && s@ == self.name(),
    {
        match self {
            PlaybackStatus::Playing => PropValue::Str("Playing".to_owned()),
            PlaybackStatus::Paused => PropValue::Str("Paused".to_owned()),
            PlaybackStatus::Stopped => PropValue::Str("Stopped".to_owned()),
        }
    }

    /// Decodes a bus value: a string that names a status exactly, case included.
    /// Anything else is a type error.
    pub fn try_from_value(v: &PropValue) -> (r: core::result::Result<PlaybackStatus, VariantError>)
        ensures
            r is Ok <==> (v matches PropValue::Str(s) && Self::from_name(s@) is Some),
            r is Ok ==> (v matches PropValue::Str(s) && Self::from_name(s@) == Some(r.unwrap())),
    {
        match v {
            PropValue::Str(s) => {
                if text_eq(s.as_str(), "Playing") {
                    Ok(PlaybackStatus::Playing)
                } else if text_eq(s.as_str(), "Paused") {
                    Ok(PlaybackStatus::Paused)
                } else if text_eq(s.as_str(), "Stopped") {
                    Ok(PlaybackStatus::Stopped)
                } else {
                    Err(incorrect_type())
                }
            },
            _ => Err(incorrect_type()),
        }
    }
}

impl LoopStatus {
    /// The exact-case name that stands for the status on the bus.
    pub open spec fn name(self) -> Seq<char> {
        match self {
            LoopStatus::Off => "None"@,
            LoopStatus::Track => "Track"@,
            LoopStatus::Playlist => "Playlist"@,
        }
    }

    /// The status whose name is `t`, if any.
    pub open spec fn from_name(t: Seq<char>) -> Option<LoopStatus> {
        if t == "None"@ {
            Some(LoopStatus::Off)
        } else if t == "Track"@ {
            Some(LoopStatus::Track)
        } else if t == "Playlist"@ {
            Some(LoopStatus::Playlist)
        } else {
            None
        }
    }

    /// Encodes the status as a bus string value.
    pub fn to_value(self) -> (r: PropValue)
        ensures
            r matches PropValue::Str(s) && s@ == self.name(),
    {
        match self {
            LoopStatus::Off => PropValue::Str("None".to_owned()),
            LoopStatus::Track => PropValue::Str("Track".to_owned()),
            LoopStatus::Playlist => PropValue::Str("Playlist".to_owned()),
        }
    }

    /// Decodes a bus value: a string that names a status exactly, case included.
    /// Anything else is a type error.
    pub fn try_from_value(v: &PropValue) -> (r: core::result::Result<LoopStatus, VariantError>)
        ensures
            r is Ok <==> (v matches PropValue::Str(s) && Self::from_name(s@) is Some),
            r is Ok ==> (v matches PropValue::Str(s) && Self::from_name(s@) == Some(r.unwrap())),
    {
        match v {
            PropValue::Str(s) => {
                if text_eq(s.as_str(), "None") {
                    Ok(LoopStatus::Off)
                } else if text_eq(s.as_str(), "Track") {
                    Ok(LoopStatus::Track)
                } else if text_eq(s.as_str(), "Playlist") {
                    Ok(LoopStatus::Playlist)
                } else {
                    Err(incorrect_type())
                }
            },
            _ => Err(incorrect_type()),
        }
    }
}

impl FromValue for PlaybackStatus {
    open spec fn accepts(v: PropValue) -> bool {
        v matches PropValue::Str(s) && PlaybackStatus::from_name(s@) is Some
    }

    open spec fn decodes_as(v: PropValue, r: PlaybackStatus) -> bool {
        v matches PropValue::Str(s) && PlaybackStatus::from_name(s@) == Some(r)
    }

    fn from_value(v: &PropValue) -> (r: Option<PlaybackStatus>) {
        match PlaybackStatus::try_from_value(v) {
            Ok(status) => Some(status),
            Err(_) => None,
        }
    }
}

impl FromValue for LoopStatus {
    open spec fn accepts(v: PropValue) -> bool {
        v matches PropValue::Str(s) && LoopStatus::from_name(s@) is Some
    }

    open spec fn decodes_as(v: PropValue, r: LoopStatus) -> bool {
        v matches PropValue::Str(s) && LoopStatus::from_name(s@) == Some(r)
    }

    fn from_value(v: &PropValue) -> (r: Option<LoopStatus>) {
        match LoopStatus::try_from_value(v) {
            Ok(status) => Some(status),
            Err(_) => None,
        }
    }
}

/// Decoding the name of any playback status gives that status back.
pub proof fn lemma_playback_status_round_trip(s: PlaybackStatus)
    ensures
        PlaybackStatus::from_name(s.name()) == Some(s),
{
    reveal_strlit("Playing");
    reveal_strlit("Paused");
    reveal_strlit("Stopped");
    assert("Paused"@.len() != "Playing"@.len());
    assert("Stopped"@[0] != "Playing"@[0]);
    assert("Stopped"@.len() != "Paused"@.len());
}

/// Decoding the name of any loop status gives that status back.
pub proof fn lemma_loop_status_round_trip(s: LoopStatus)
    ensures
        LoopStatus::from_name(s.name()) == Some(s),
{
    reveal_strlit("None");
    reveal_strlit("Track");
    reveal_strlit("Playlist");
    assert("Track"@.len() != "None"@.len());
    assert("Playlist"@.len() != "None"@.len());
    assert("Playlist"@.len() != "Track"@.len());
}

/// A string that is not the name of any playback status decodes to no status,
/// and one that is not the name of any loop status decodes to no loop status.
pub proof fn lemma_unknown_names_rejected(t: Seq<char>)
    ensures
        (forall|s: PlaybackStatus| s.name() != t) ==> PlaybackStatus::from_name(t) is None,
        (forall|s: LoopStatus| s.name() != t) ==> LoopStatus::from_name(t) is None,
{
    assert(PlaybackStatus::Playing.name() == "Playing"@);
    assert(PlaybackStatus::Paused.name() == "Paused"@);
    assert(PlaybackStatus::Stopped.name() == "Stopped"@);
    assert(LoopStatus::Off.name() == "None"@);
    assert(LoopStatus::Track.name() == "Track"@);
    assert(LoopStatus::Playlist.name() == "Playlist"@);
}

} // verus!
