use spotify_client::error::{ClientError, DecodeError};
use spotify_client::ids::TrackId;
use spotify_client::model::{Album, Track};
use spotify_client::radio::{MercuryResponse, Radio, RadioEvent, RadioStage};

fn failed(stage: RadioStage, error: ClientError) -> Radio {
    Radio::Failed { stage, error }
}
use spotify_client::upstream::{FullTrack, SimplifiedAlbum};

fn answer(status_code: i32, body: &[u8]) -> RadioEvent {
    RadioEvent::Response(Ok(MercuryResponse { status_code, payload: vec![body.to_vec(), b"more".to_vec()] }))
}

fn raw_track(name: &str, id: Option<&str>) -> FullTrack {
    FullTrack {
        id: id.map(|s| s.to_string()),
        name: name.to_string(),
        artists: vec![],
        album: SimplifiedAlbum { id: Some("al".to_string()), name: "Al".to_string(), release_date: None, artists: vec![] },
        duration_ms: 7,
    }
}

fn track(name: &str, id: &str) -> Track {
    Track {
        id: id.to_string(),
        name: name.to_string(),
        artists: vec![],
        album: Some(Album { id: "al".to_string(), name: "Al".to_string(), release_date: String::new(), artists: vec![] }),
        duration_ms: 7,
    }
}

fn ids(ids: &[&str]) -> Vec<TrackId> {
    ids.iter().map(|id| TrackId::from_id(id.to_string()).unwrap()).collect()
}

#[test]
fn radio_resolves_in_four_steps() {
    let radio = Radio::start("spotify:artist:0OdUWJ0sBjDrqHygGUXeCF");
    assert_eq!(
        radio,
        Radio::AskAutoplay { uri: "hm://autoplay-enabled/query?uri=spotify:artist:0OdUWJ0sBjDrqHygGUXeCF".to_string() }
    );
    let radio = radio.advance(answer(200, b"spotify:station:artist:0OdUWJ0sBjDrqHygGUXeCF"));
    assert_eq!(
        radio,
        Radio::AskStation { uri: "hm://radio-apollo/v3/stations/spotify:station:artist:0OdUWJ0sBjDrqHygGUXeCF".to_string() }
    );
    let radio = radio.advance(answer(200, br#"{"tracks":[{"original_gid":"6D6Pybzey0shI8U9ttRAPx"}]}"#));
    assert_eq!(
        radio,
        Radio::DecodeStation { payload: br#"{"tracks":[{"original_gid":"6D6Pybzey0shI8U9ttRAPx"}]}"#.to_vec() }
    );
    let radio = radio.advance(RadioEvent::Station(Ok(vec!["6D6Pybzey0shI8U9ttRAPx".to_string()])));
    assert_eq!(radio, Radio::FetchTracks { ids: ids(&["6D6Pybzey0shI8U9ttRAPx"]) });
    let radio = radio.advance(RadioEvent::Tracks(Ok(vec![raw_track("T", Some("6D6Pybzey0shI8U9ttRAPx")), raw_track("U", None)])));
    assert_eq!(radio, Radio::Done(vec![track("T", "6D6Pybzey0shI8U9ttRAPx")]));
}

#[test]
fn radio_fails_on_a_status_other_than_200() {
    assert_eq!(Radio::start("s").advance(answer(404, b"x")), failed(RadioStage::Autoplay, ClientError::UpstreamStatus(404)));
    assert_eq!(Radio::start("s").advance(answer(201, b"x")), failed(RadioStage::Autoplay, ClientError::UpstreamStatus(201)));
    assert_eq!(Radio::start("s").advance(answer(-1, b"x")), failed(RadioStage::Autoplay, ClientError::UpstreamStatus(-1)));
    let at_station = Radio::start("s").advance(answer(200, b"station"));
    assert_eq!(at_station.advance(answer(500, b"{}")), failed(RadioStage::Station, ClientError::UpstreamStatus(500)));
}

#[test]
fn radio_fails_when_the_bus_cannot_be_reached() {
    assert_eq!(
        Radio::start("s").advance(RadioEvent::Response(Err(ClientError::Transport))),
        failed(RadioStage::Autoplay, ClientError::Transport)
    );
    let at_station = Radio::start("s").advance(answer(200, b"station"));
    assert_eq!(at_station.advance(RadioEvent::Response(Err(ClientError::Auth))), failed(RadioStage::Station, ClientError::Auth));
}

#[test]
fn radio_fails_on_an_answer_without_payload() {
    let empty = || RadioEvent::Response(Ok(MercuryResponse { status_code: 200, payload: vec![] }));
    assert_eq!(Radio::start("s").advance(empty()), failed(RadioStage::Autoplay, ClientError::Decode(DecodeError::EmptyPayload)));
    let at_station = Radio::start("s").advance(answer(200, b"station"));
    assert_eq!(at_station.advance(empty()), failed(RadioStage::Station, ClientError::Decode(DecodeError::EmptyPayload)));
}

#[test]
fn radio_puts_the_status_before_the_payload() {
    let event = RadioEvent::Response(Ok(MercuryResponse { status_code: 503, payload: vec![] }));
    assert_eq!(Radio::start("s").advance(event), failed(RadioStage::Autoplay, ClientError::UpstreamStatus(503)));
}

#[test]
fn radio_fails_on_a_station_that_is_not_text() {
    assert_eq!(
        Radio::start("s").advance(answer(200, &[0x73, 0xff, 0xfe])),
        failed(RadioStage::Autoplay, ClientError::Decode(DecodeError::NotUtf8))
    );
    assert_eq!(
        Radio::start("s").advance(answer(200, &[0xc3])),
        failed(RadioStage::Autoplay, ClientError::Decode(DecodeError::NotUtf8))
    );
}

#[test]
fn radio_decodes_the_station_as_utf8() {
    assert_eq!(
        Radio::start("s").advance(answer(200, "stätion:東".as_bytes())),
        Radio::AskStation { uri: "hm://radio-apollo/v3/stations/stätion:東".to_string() }
    );
    assert_eq!(
        Radio::start("s").advance(answer(200, b"")),
        Radio::AskStation { uri: "hm://radio-apollo/v3/stations/".to_string() }
    );
}

#[test]
fn radio_fails_when_the_station_cannot_be_decoded() {
    let decoding = Radio::start("s").advance(answer(200, b"station")).advance(answer(200, b"not json"));
    assert_eq!(decoding, Radio::DecodeStation { payload: b"not json".to_vec() });
    assert_eq!(
        decoding.advance(RadioEvent::Station(Err(ClientError::Decode(DecodeError::Malformed)))),
        failed(RadioStage::Decoding, ClientError::Decode(DecodeError::Malformed))
    );
}

#[test]
fn radio_looks_up_only_what_can_identify_a_track() {
    let decoding = Radio::start("s").advance(answer(200, b"station")).advance(answer(200, b"{}"));
    let radio = decoding.advance(RadioEvent::Station(Ok(vec![
        "6D6Pybzey0shI8U9ttRAPx".to_string(),
        "spotify:track:6D6Pybzey0shI8U9ttRAPx".to_string(),
        "abc_def".to_string(),
        "4uLU6hMCjMI75M1A2tKUQC".to_string(),
        "日本".to_string(),
        "".to_string(),
    ])));
    assert_eq!(radio, Radio::FetchTracks { ids: ids(&["6D6Pybzey0shI8U9ttRAPx", "4uLU6hMCjMI75M1A2tKUQC", ""]) });
}

#[test]
fn radio_fails_when_the_lookup_fails() {
    let looking = Radio::start("s")
        .advance(answer(200, b"station"))
        .advance(answer(200, b"{}"))
        .advance(RadioEvent::Station(Ok(vec![])));
    assert_eq!(looking, Radio::FetchTracks { ids: vec![] });
    assert_eq!(
        looking.advance(RadioEvent::Tracks(Err(ClientError::UpstreamStatus(502)))),
        failed(RadioStage::Lookup, ClientError::UpstreamStatus(502))
    );
}

#[test]
fn radio_ignores_what_it_does_not_wait_for() {
    let start = Radio::start("s").advance(RadioEvent::Tracks(Ok(vec![])));
    assert_eq!(start, Radio::AskAutoplay { uri: "hm://autoplay-enabled/query?uri=s".to_string() });
    let start = start.advance(RadioEvent::Station(Ok(vec!["x".to_string()])));
    assert_eq!(start, Radio::AskAutoplay { uri: "hm://autoplay-enabled/query?uri=s".to_string() });
    let decoding = start.advance(answer(200, b"station")).advance(answer(200, b"{}"));
    assert_eq!(decoding.advance(answer(200, b"again")), Radio::DecodeStation { payload: b"{}".to_vec() });
    let done = Radio::Done(vec![]).advance(answer(500, b""));
    assert_eq!(done, Radio::Done(vec![]));
    let ended = failed(RadioStage::Station, ClientError::Auth).advance(RadioEvent::Tracks(Ok(vec![])));
    assert_eq!(ended, failed(RadioStage::Station, ClientError::Auth));
}

#[test]
fn track_id_takes_letters_and_digits_only() {
    assert_eq!(TrackId::from_id("6D6Pybzey0shI8U9ttRAPx".to_string()).map(|t| t.id().to_string()), Some("6D6Pybzey0shI8U9ttRAPx".to_string()));
    assert_eq!(TrackId::from_id("azAZ09".to_string()).map(|t| t.id().to_string()), Some("azAZ09".to_string()));
    assert_eq!(TrackId::from_id("".to_string()).map(|t| t.id().to_string()), Some("".to_string()));
    assert_eq!(TrackId::from_id("abc-def".to_string()), None);
    assert_eq!(TrackId::from_id("abc def".to_string()), None);
    assert_eq!(TrackId::from_id("spotify:track:abc".to_string()), None);
    assert_eq!(TrackId::from_id("é".to_string()), None);
    assert_eq!(TrackId::from_id("١٢٣".to_string()), None);
    assert_eq!(TrackId::from_id("a/".to_string()), None);
    assert_eq!(TrackId::from_id(":".to_string()), None);
    assert_eq!(TrackId::from_id("@".to_string()), None);
    assert_eq!(TrackId::from_id("[".to_string()), None);
    assert_eq!(TrackId::from_id("`".to_string()), None);
    assert_eq!(TrackId::from_id("{".to_string()), None);
}
