//! Resolving a radio: from a seed to the tracks of the station that the
//! service recommends for it.
//!
//! The resolution takes two questions to the session's message bus, one
//! decoding and one lookup in the catalog, each depending on the one before.
//! This module decides what is asked next and what an answer is worth; the
//! caller asks, and hands back what came. A failure at any step ends the
//! resolution: there is no other way to the tracks.

use vstd::prelude::*;
use vstd::string::StringExecFns;
use vstd::utf8::{decode_utf8, valid_utf8};
use crate::error::{ClientError, DecodeError};
use crate::ids::{TrackId, is_track_id};
use crate::model::{Track, TrackView, tracks_from_full, tracks_of};
use crate::upstream::{FullTrack, FullTrackView};

verus! {

/// An answer of the message bus.
#[derive(Clone, Debug, PartialEq, Eq)]
pub struct MercuryResponse {
    pub status_code: i32,
    pub payload: Vec<Vec<u8>>,
}

/// The view of [`MercuryResponse`]: the same, with texts and lists as sequences.
pub struct MercuryResponseView {
    pub status_code: i32,
    pub payload: Seq<Seq<u8>>,
}

impl View for MercuryResponse {
    type V = MercuryResponseView;

    open spec fn view(&self) -> MercuryResponseView {
        MercuryResponseView { status_code: self.status_code, payload: self.payload.deep_view() }
    }
}

/// The steps of the resolution of a radio.
#[derive(Clone, Copy, Debug, PartialEq, Eq, Structural)]
pub enum RadioStage {
    /// The question for the station of the seed.
    Autoplay,
    /// The question for the contents of the station.
    Station,
    /// The decoding of the station's contents.
    Decoding,
    /// The lookup of the station's tracks in the catalog.
    Lookup,
}

/// Where the resolution of a radio stands, and with it what the caller is to
/// do next.
#[derive(Debug, PartialEq, Eq)]
pub enum Radio {
    /// Ask the message bus at `uri` for the station of the seed.
    AskAutoplay { uri: String },
    /// Ask the message bus at `uri` for the contents of the station.
    AskStation { uri: String },
    /// Decode the station's contents: the identifiers of its tracks.
    DecodeStation { payload: Vec<u8> },
    /// Look these tracks up in the catalog.
    FetchTracks { ids: Vec<TrackId> },
    /// The tracks of the radio.
    Done(Vec<Track>),
    /// The resolution failed at the step `stage`.
    Failed { stage: RadioStage, error: ClientError },
}

/// The view of [`Radio`]: the same, with texts and lists as sequences.
pub enum RadioView {
    AskAutoplay { uri: Seq<char> },
    AskStation { uri: Seq<char> },
    DecodeStation { payload: Seq<u8> },
    FetchTracks { ids: Seq<Seq<char>> },
    Done(Seq<TrackView>),
    Failed { stage: RadioStage, error: ClientError },
}

impl View for Radio {
    type V = RadioView;

    open spec fn view(&self) -> RadioView {
        match self {
            Radio::AskAutoplay { uri } => RadioView::AskAutoplay { uri: uri@ },
            Radio::AskStation { uri } => RadioView::AskStation { uri: uri@ },
            Radio::DecodeStation { payload } => RadioView::DecodeStation { payload: payload@ },
            Radio::FetchTracks { ids } => RadioView::FetchTracks { ids: ids.deep_view() },
            Radio::Done(tracks) => RadioView::Done(tracks.deep_view()),
            Radio::Failed { stage, error } => RadioView::Failed { stage: *stage, error: *error },
        }
    }
}

/// What the caller hands back after it did what the resolution asked for.
#[derive(Debug, PartialEq, Eq)]
pub enum RadioEvent {
    /// The message bus answered, or could not be reached.
    Response(Result<MercuryResponse, ClientError>),
    /// The station's contents were decoded to these identifiers, or could not be.
    Station(Result<Vec<String>, ClientError>),
    /// The catalog returned these tracks, or the lookup failed.
    Tracks(Result<Vec<FullTrack>, ClientError>),
}

/// The view of [`RadioEvent`]: the same, with texts and lists as sequences.
pub enum RadioEventView {
    Response(Result<MercuryResponseView, ClientError>),
    Station(Result<Seq<Seq<char>>, ClientError>),
    Tracks(Result<Seq<FullTrackView>, ClientError>),
}

impl View for RadioEvent {
    type V = RadioEventView;

    open spec fn view(&self) -> RadioEventView {
        match self {
            RadioEvent::Response(Ok(response)) => RadioEventView::Response(Ok(response@)),
            RadioEvent::Response(Err(error)) => RadioEventView::Response(Err(*error)),
            RadioEvent::Station(Ok(ids)) => RadioEventView::Station(Ok(ids.deep_view())),
            RadioEvent::Station(Err(error)) => RadioEventView::Station(Err(*error)),
            RadioEvent::Tracks(Ok(tracks)) => RadioEventView::Tracks(Ok(tracks.deep_view())),
            RadioEvent::Tracks(Err(error)) => RadioEventView::Tracks(Err(*error)),
        }
    }
}

/// The address at which the message bus names the station of a seed.
pub open spec fn autoplay_query(seed_uri: Seq<char>) -> Seq<char> {
    "hm://autoplay-enabled/query?uri="@ + seed_uri
}

/// The address at which the message bus lists the contents of a station.
pub open spec fn station_query(station_uri: Seq<char>) -> Seq<char> {
    "hm://radio-apollo/v3/stations/"@ + station_uri
}

/// The body of an answer of the message bus: its first payload block, where
/// the bus was reached, reported success and sent a payload.
pub open spec fn answer_body(response: Result<MercuryResponseView, ClientError>) -> Result<
    Seq<u8>,
    ClientError,
> {
    match response {
        Err(error) => Err(error),
        Ok(answer) => if answer.status_code != 200 {
            Err(ClientError::UpstreamStatus(answer.status_code))
        } else if answer.payload.len() == 0 {
            Err(ClientError::Decode(DecodeError::EmptyPayload))
        } else {
            Ok(answer.payload[0])
        },
    }
}

/// The step that follows the answer to the first question: the body is the
/// address of the station, as text.
pub open spec fn after_autoplay(response: Result<MercuryResponseView, ClientError>) -> RadioView {
    match answer_body(response) {
        Err(error) => RadioView::Failed { stage: RadioStage::Autoplay, error },
        Ok(body) => if valid_utf8(body) {
            RadioView::AskStation { uri: station_query(decode_utf8(body)) }
        } else {
            RadioView::Failed {
                stage: RadioStage::Autoplay,
                error: ClientError::Decode(DecodeError::NotUtf8),
            }
        },
    }
}

/// The step that follows the answer to the second question: the body is to
/// be decoded.
pub open spec fn after_station(response: Result<MercuryResponseView, ClientError>) -> RadioView {
    match answer_body(response) {
        Err(error) => RadioView::Failed { stage: RadioStage::Station, error },
        Ok(body) => RadioView::DecodeStation { payload: body },
    }
}

/// The step that follows the decoding: of the identifiers found, those that
/// can identify a track are looked up.
pub open spec fn after_decoding(decoded: Result<Seq<Seq<char>>, ClientError>) -> RadioView {
    match decoded {
        Err(error) => RadioView::Failed { stage: RadioStage::Decoding, error },
        Ok(ids) => RadioView::FetchTracks { ids: ids.filter(|id: Seq<char>| is_track_id(id)) },
    }
}

/// The end of the resolution: the tracks that were looked up and convert.
pub open spec fn after_lookup(found: Result<Seq<FullTrackView>, ClientError>) -> RadioView {
    match found {
        Err(error) => RadioView::Failed { stage: RadioStage::Lookup, error },
        Ok(tracks) => RadioView::Done(tracks_of(tracks)),
    }
}

/// The step that follows `state` on `event`. An event that the state does
/// not wait for changes nothing; neither does any event once the resolution
/// has ended.
pub open spec fn radio_advance(state: RadioView, event: RadioEventView) -> RadioView {
    match (state, event) {
        (RadioView::AskAutoplay { .. }, RadioEventView::Response(response)) => after_autoplay(
            response,
        ),
        (RadioView::AskStation { .. }, RadioEventView::Response(response)) => after_station(
            response,
        ),
        (RadioView::DecodeStation { .. }, RadioEventView::Station(decoded)) => after_decoding(
            decoded,
        ),
        (RadioView::FetchTracks { .. }, RadioEventView::Tracks(found)) => after_lookup(found),
        _ => state,
    }
}

/// Decodes UTF-8 with `String::from_utf8` of the standard library.
///
/// Trusted: the call succeeds exactly on well-formed UTF-8, and the text it
/// returns is what the bytes encode.
#[verifier::external_body]
fn text_from_utf8(bytes: Vec<u8>) -> (text: Option<String>)
    ensures
        text is Some <==> valid_utf8(bytes@),
        text matches Some(decoded) ==> decoded@ == decode_utf8(bytes@),
{
    String::from_utf8(bytes).ok()
}

fn body_of(response: Result<MercuryResponse, ClientError>) -> (body: Result<Vec<u8>, ClientError>)
    ensures
        match body {
            Ok(bytes) => answer_body(response_view(response)) == Ok::<Seq<u8>, ClientError>(bytes@),
            Err(error) => answer_body(response_view(response)) == Err::<Seq<u8>, ClientError>(error),
        },
{
    match response {
        Err(error) => Err(error),
        Ok(answer) => {
            if answer.status_code != 200 {
                Err(ClientError::UpstreamStatus(answer.status_code))
            } else if answer.payload.len() == 0 {
                Err(ClientError::Decode(DecodeError::EmptyPayload))
            } else {
                let mut payload = answer.payload;
                let first = payload.remove(0);
                assert(first.deep_view() =~= first@);
                Ok(first)
            }
        },
    }
}

/// The view of an answer of the message bus, or of the failure to get one.
pub open spec fn response_view(response: Result<MercuryResponse, ClientError>) -> Result<
    MercuryResponseView,
    ClientError,
> {
    match response {
        Ok(answer) => Ok(answer@),
        Err(error) => Err(error),
    }
}

fn track_ids_from(ids: Vec<String>) -> (checked: Vec<TrackId>)
    ensures
        checked.deep_view() == ids.deep_view().filter(|id: Seq<char>| is_track_id(id)),
{
    let ghost views = ids.deep_view();
    let ghost wanted = |id: Seq<char>| is_track_id(id);
    let mut checked: Vec<TrackId> = Vec::new();
    for id in it: ids
        invariant
            wanted == |id: Seq<char>| is_track_id(id),
            it.seq().len() == views.len(),
            forall|k: int| 0 <= k < views.len() ==> (#[trigger] it.seq()[k])@ == views[k],
            checked.deep_view() == views.take(it.index() as int).filter(wanted),
    {
        let ghost before = checked.deep_view();
        proof {
            views.take(it.index() as int).lemma_filter_push(id@, wanted);
            assert(views.take(it.index() as int + 1) =~= views.take(it.index() as int).push(id@));
        }
        match TrackId::from_id(id) {
            Some(track) => {
                checked.push(track);
                assert(checked.deep_view() =~= before.push(track@));
            },
            None => {},
        }
    }
    assert(views.take(views.len() as int) =~= views);
    checked
}

impl Radio {
    /// Starts the resolution of the radio of a seed.
    pub fn start(seed_uri: &str) -> (radio: Radio)
        ensures
            radio@ == (RadioView::AskAutoplay { uri: autoplay_query(seed_uri@) }),
    {
        let mut uri = String::from_str("hm://autoplay-enabled/query?uri=");
        uri.append(seed_uri);
        Radio::AskAutoplay { uri }
    }

    /// Takes what the caller brought and says what is to be done next.
    pub fn advance(self, event: RadioEvent) -> (next: Radio)
        ensures
            next@ == radio_advance(self@, event@),
    {
        match (self, event) {
            (Radio::AskAutoplay { .. }, RadioEvent::Response(response)) => {
                match body_of(response) {
                    Err(error) => Radio::Failed { stage: RadioStage::Autoplay, error },
                    Ok(body) => match text_from_utf8(body) {
                        Some(station) => {
                            let mut uri = String::from_str("hm://radio-apollo/v3/stations/");
                            uri.append(station.as_str());
                            Radio::AskStation { uri }
                        },
                        None => Radio::Failed {
                            stage: RadioStage::Autoplay,
                            error: ClientError::Decode(DecodeError::NotUtf8),
                        },
                    },
                }
            },
            (Radio::AskStation { .. }, RadioEvent::Response(response)) => {
                match body_of(response) {
                    Err(error) => Radio::Failed { stage: RadioStage::Station, error },
                    Ok(body) => Radio::DecodeStation { payload: body },
                }
            },
            (Radio::DecodeStation { .. }, RadioEvent::Station(decoded)) => {
                match decoded {
                    Err(error) => Radio::Failed { stage: RadioStage::Decoding, error },
                    Ok(ids) => Radio::FetchTracks { ids: track_ids_from(ids) },
                }
            },
            (Radio::FetchTracks { .. }, RadioEvent::Tracks(found)) => {
                match found {
                    Err(error) => Radio::Failed { stage: RadioStage::Lookup, error },
                    Ok(tracks) => Radio::Done(tracks_from_full(tracks)),
                }
            },
            (state, _) => state,
        }
    }
}

} // verus!
