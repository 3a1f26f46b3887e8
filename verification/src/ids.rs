//! Identifiers of catalog records.

use vstd::prelude::*;

verus! {

/// Whether `c` is an ASCII letter or digit.
pub open spec fn is_ascii_alphanumeric(c: char) -> bool {
    ('0' <= c && c <= '9') || ('a' <= c && c <= 'z') || ('A' <= c && c <= 'Z')
}

/// Whether `id` can identify a track: it holds ASCII letters and digits only.
pub open spec fn is_track_id(id: Seq<char>) -> bool {
    forall|i: int| 0 <= i < id.len() ==> is_ascii_alphanumeric(#[trigger] id[i])
}

/// Asks `rspotify_model::TrackId::from_id` whether it takes `id`.
///
/// Trusted: it takes the text exactly when every character of it is an ASCII
/// letter or digit, which is the validity that `rspotify_model` defines for
/// the identifiers of tracks.
#[verifier::external_body]
fn track_id_accepts(id: &str) -> (accepted: bool)
    ensures
        accepted == is_track_id(id@),
{
    rspotify_model::TrackId::from_id(id).is_ok()
}

/// The identifier of a track, checked to be one.
#[derive(Debug, PartialEq, Eq)]
pub struct TrackId {
    id: String,
}

impl View for TrackId {
    type V = Seq<char>;

    closed spec fn view(&self) -> Seq<char> {
        self.id@
    }
}

impl DeepView for TrackId {
    type V = Seq<char>;

    open spec fn deep_view(&self) -> Seq<char> {
        self@
    }
}

impl TrackId {
    #[verifier::type_invariant]
    spec fn well_formed(self) -> bool {
        is_track_id(self.id@)
    }

    /// Checks a text and makes it the identifier of a track; fails when the
    /// text cannot be one.
    pub fn from_id(id: String) -> (checked: Option<TrackId>)
        ensures
            checked is Some <==> is_track_id(id@),
            checked matches Some(track) ==> track@ == id@,
    {
        if track_id_accepts(id.as_str()) {
            Some(TrackId { id })
        } else {
            None
        }
    }

    /// The text of the identifier.
    pub fn id(&self) -> (id: &str)
        ensures
            id@ == self@,
            is_track_id(id@),
    {
        proof {
            use_type_invariant(self);
        }
        self.id.as_str()
    }
}

} // verus!
