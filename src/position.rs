use vstd::prelude::*;
use zbus::zvariant::Error as VariantError;
use zbus::zvariant::ObjectPath;
use crate::error::{Error, Result};
use crate::properties::PlayerMetadata;

verus! {

/// A character allowed inside an element of an object path: an ASCII letter or
/// digit, or `_`.
pub open spec fn is_path_element_char(c: char) -> bool {
    (48 <= c as int <= 57) || (65 <= c as int <= 90) || (97 <= c as int <= 122) || c == '_'
}

/// An object path: `/` alone, or `/` followed by non-empty elements of
/// letters, digits and `_`, separated by single `/`.
pub open spec fn valid_object_path(s: Seq<char>) -> bool {
    &&& s.len() >= 1
    &&& s[0] == '/'
    &&& forall|i: int| 0 <= i < s.len() ==> s[i] == '/' || is_path_element_char(#[trigger] s[i])
    &&& forall|i: int| 0 <= i < s.len() - 1 && s[i] == '/' ==> #[trigger] s[i + 1] != '/'
    &&& s.len() > 1 ==> s[s.len() - 1] != '/'
}

/// Relies on zvariant's `ObjectPath::try_from(&str)`, which accepts exactly the
/// object paths of the bus specification and fails otherwise.
#[verifier::external_body]
fn check_object_path(s: &str) -> (r: core::result::Result<(), VariantError>)
    ensures
        r is Ok <==> valid_object_path(s@),
{
    match ObjectPath::try_from(s) {
        Ok(_) => Ok(()),
        Err(e) => Err(e),
    }
}

/// Decides what setting the playback position within the current track
/// takes, given the track's metadata: no call at all when the player reports
/// no track identifier, a call addressed to that identifier when it is an
/// object path, and an encoding error when it is not.
pub fn set_position_track(metadata: &PlayerMetadata) -> (r: Result<Option<String>>)
    ensures
        metadata.mpris_trackid is None ==> r matches Ok(None),
        metadata.mpris_trackid is Some && valid_object_path(metadata.mpris_trackid.unwrap()@) ==> (r
            is Ok && r->Ok_0 is Some && r->Ok_0.unwrap()@ == metadata.mpris_trackid.unwrap()@),
        metadata.mpris_trackid is Some && !valid_object_path(metadata.mpris_trackid.unwrap()@) ==> (r
            matches Err(Error::ZVariant(_))),
{
    match &metadata.mpris_trackid {
        Some(track) => match check_object_path(track.as_str()) {
            Ok(()) => Ok(Some(track.clone())),
            Err(e) => Err(Error::ZVariant(e)),
        },
        None => Ok(None),
    }
}

} // verus!
