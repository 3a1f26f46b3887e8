use spotify_client::auth::{AuthConfig, SessionAction};
use spotify_client::client::{ArtistContextFailure, ArtistPart, Client, ClientHandler, SearchFailure};
use spotify_client::config::{Configs, SessionSettings};
use spotify_client::error::{ClientError, DecodeError};
use spotify_client::model::{Album, Artist, Category, Context, Playlist, SearchResults, Track};
use spotify_client::paging::Page;
use spotify_client::playlist::{PlaylistRequest, ReorderRequest};
use spotify_client::radio::Radio;
use spotify_client::upstream::{
    CategoryRecord, FullAlbum, FullArtist, FullTrack, PlayHistory, PlayableItem, PlaylistItem,
    PlaylistRecord, SavedAlbum, SavedTrack, SearchResult, SearchType, SimplifiedAlbum,
    SimplifiedArtist, SimplifiedTrack,
};

fn client() -> Client {
    let mut handler = ClientHandler::new();
    handler.client_new(&Configs::from_pass("user".to_string(), "secret".to_string()))
}

fn raw_artist(name: &str, id: Option<&str>) -> SimplifiedArtist {
    SimplifiedArtist { id: id.map(|s| s.to_string()), name: name.to_string() }
}

fn raw_album(name: &str, id: Option<&str>, date: Option<&str>) -> SimplifiedAlbum {
    SimplifiedAlbum {
        id: id.map(|s| s.to_string()),
        name: name.to_string(),
        release_date: date.map(|s| s.to_string()),
        artists: vec![raw_artist("Ann", Some("ann")), raw_artist("Nobody", None)],
    }
}

fn raw_track(name: &str, id: Option<&str>) -> FullTrack {
    FullTrack {
        id: id.map(|s| s.to_string()),
        name: name.to_string(),
        artists: vec![raw_artist("Nobody", None), raw_artist("Bob", Some("bob"))],
        album: raw_album("Al", Some("al"), Some("2001-02-03")),
        duration_ms: 215_000,
    }
}

fn artist(name: &str, id: &str) -> Artist {
    Artist { id: id.to_string(), name: name.to_string() }
}

fn album(name: &str, id: &str, date: &str) -> Album {
    Album { id: id.to_string(), name: name.to_string(), release_date: date.to_string(), artists: vec![artist("Ann", "ann")] }
}

fn track(name: &str, id: &str) -> Track {
    Track {
        id: id.to_string(),
        name: name.to_string(),
        artists: vec![artist("Bob", "bob")],
        album: Some(album("Al", "al", "2001-02-03")),
        duration_ms: 215_000,
    }
}

fn record(name: &str, id: &str, owner_name: Option<&str>) -> PlaylistRecord {
    PlaylistRecord {
        id: id.to_string(),
        name: name.to_string(),
        collaborative: true,
        owner_id: "owner".to_string(),
        owner_name: owner_name.map(|s| s.to_string()),
    }
}

fn playlist(name: &str, id: &str, owner_name: &str) -> Playlist {
    Playlist {
        id: id.to_string(),
        name: name.to_string(),
        collaborative: true,
        owner_id: "owner".to_string(),
        owner_name: owner_name.to_string(),
    }
}

fn full_artist(name: &str, id: &str) -> FullArtist {
    FullArtist { id: id.to_string(), name: name.to_string() }
}

#[test]
fn client_is_made_for_the_login_and_the_application() {
    let mut handler = ClientHandler::new();
    let configs = Configs::from_pass("user".to_string(), "secret".to_string());
    let client = handler.client_new(&configs);
    assert_eq!(client.username(), "user");
    assert_eq!(client.client_id(), "65b708073fc0480ea92a077233ca87bd");
    assert_eq!(
        *client.auth_config(),
        AuthConfig {
            session_config: SessionSettings { proxy: None, ap_port: None },
            login_info: ("user".to_string(), "secret".to_string()),
        }
    );
    assert_eq!(Client::new(AuthConfig::default(), "id".to_string()).username(), "");
}

#[test]
fn session_is_renewed_only_when_invalid() {
    assert_eq!(client().check_valid_session(true), SessionAction::Renew);
    assert_eq!(client().check_valid_session(false), SessionAction::Keep);
}

#[test]
fn search_returns_the_four_lists() {
    let found = client().search(
        Ok(SearchResult::Tracks(vec![raw_track("T1", Some("t1")), raw_track("T2", None)])),
        Ok(SearchResult::Artists(vec![full_artist("Ann", "ann")])),
        Ok(SearchResult::Albums(vec![raw_album("NoId", None, None), raw_album("A", Some("a"), None)])),
        Ok(SearchResult::Playlists(vec![record("P", "p", None)])),
    );
    assert_eq!(
        found,
        Ok(SearchResults {
            tracks: vec![track("T1", "t1")],
            artists: vec![artist("Ann", "ann")],
            albums: vec![album("A", "a", "")],
            playlists: vec![playlist("P", "p", "")],
        })
    );
}

#[test]
fn search_fails_when_the_track_search_returned_albums() {
    let found = client().search(
        Ok(SearchResult::Albums(vec![raw_album("A", Some("a"), None)])),
        Ok(SearchResult::Artists(vec![])),
        Ok(SearchResult::Albums(vec![])),
        Ok(SearchResult::Playlists(vec![])),
    );
    assert_eq!(
        found,
        Err(SearchFailure { kind: SearchType::Track, error: ClientError::Decode(DecodeError::ExpectedTracks) })
    );
}

#[test]
fn search_fails_on_each_kind_that_is_not_the_kind_asked_for() {
    let tracks = || Ok(SearchResult::Tracks(vec![]));
    let artists = || Ok(SearchResult::Artists(vec![]));
    let albums = || Ok(SearchResult::Albums(vec![]));
    let playlists = || Ok(SearchResult::Playlists(vec![]));
    assert_eq!(
        client().search(tracks(), tracks(), albums(), playlists()),
        Err(SearchFailure { kind: SearchType::Artist, error: ClientError::Decode(DecodeError::ExpectedArtists) })
    );
    assert_eq!(
        client().search(tracks(), artists(), Ok(SearchResult::Shows), playlists()),
        Err(SearchFailure { kind: SearchType::Album, error: ClientError::Decode(DecodeError::ExpectedAlbums) })
    );
    assert_eq!(
        client().search(tracks(), artists(), albums(), Ok(SearchResult::Episodes)),
        Err(SearchFailure { kind: SearchType::Playlist, error: ClientError::Decode(DecodeError::ExpectedPlaylists) })
    );
    assert_eq!(
        client().search(playlists(), albums(), artists(), tracks()),
        Err(SearchFailure { kind: SearchType::Track, error: ClientError::Decode(DecodeError::ExpectedTracks) })
    );
}

#[test]
fn search_fails_with_the_failure_of_the_one_search_that_failed() {
    let tracks = || Ok(SearchResult::Tracks(vec![raw_track("T", Some("t"))]));
    let artists = || Ok(SearchResult::Artists(vec![]));
    let albums = || Ok(SearchResult::Albums(vec![]));
    let playlists = || Ok(SearchResult::Playlists(vec![]));
    assert_eq!(
        client().search(Err(ClientError::Transport), artists(), albums(), playlists()),
        Err(SearchFailure { kind: SearchType::Track, error: ClientError::Transport })
    );
    assert_eq!(
        client().search(tracks(), Err(ClientError::UpstreamStatus(429)), albums(), playlists()),
        Err(SearchFailure { kind: SearchType::Artist, error: ClientError::UpstreamStatus(429) })
    );
    assert_eq!(
        client().search(tracks(), artists(), Err(ClientError::Auth), playlists()),
        Err(SearchFailure { kind: SearchType::Album, error: ClientError::Auth })
    );
    assert_eq!(
        client().search(tracks(), artists(), albums(), Err(ClientError::Decode(DecodeError::Malformed))),
        Err(SearchFailure { kind: SearchType::Playlist, error: ClientError::Decode(DecodeError::Malformed) })
    );
}

#[test]
fn search_puts_a_failed_search_before_an_answer_of_the_wrong_kind() {
    assert_eq!(
        client().search(
            Ok(SearchResult::Albums(vec![])),
            Ok(SearchResult::Artists(vec![])),
            Ok(SearchResult::Albums(vec![])),
            Err(ClientError::Transport),
        ),
        Err(SearchFailure { kind: SearchType::Playlist, error: ClientError::Transport })
    );
    assert_eq!(
        client().search(
            Err(ClientError::Auth),
            Err(ClientError::Transport),
            Ok(SearchResult::Albums(vec![])),
            Ok(SearchResult::Playlists(vec![])),
        ),
        Err(SearchFailure { kind: SearchType::Track, error: ClientError::Auth })
    );
}

#[test]
fn browse_takes_the_first_page() {
    let categories = client().browse_categories(Page {
        items: vec![CategoryRecord { id: "rock".to_string(), name: "Rock".to_string() }],
        next: Some("more".to_string()),
    });
    assert_eq!(categories, vec![Category { id: "rock".to_string(), name: "Rock".to_string() }]);
    let playlists = client().browse_category_playlists(Page {
        items: vec![record("P", "p", Some("Olaf")), record("Q", "q", None)],
        next: None,
    });
    assert_eq!(playlists, vec![playlist("P", "p", "Olaf"), playlist("Q", "q", "")]);
}

#[test]
fn user_listings_are_converted_in_order() {
    let c = client();
    assert_eq!(
        c.current_user_saved_tracks(vec![
            SavedTrack { track: raw_track("T1", Some("t1")) },
            SavedTrack { track: raw_track("gone", None) },
            SavedTrack { track: raw_track("T2", Some("t2")) },
        ]),
        vec![track("T1", "t1"), track("T2", "t2")]
    );
    assert_eq!(
        c.current_user_top_tracks(vec![raw_track("T2", Some("t2")), raw_track("T1", Some("t1"))]),
        vec![track("T2", "t2"), track("T1", "t1")]
    );
    assert_eq!(
        c.current_user_recently_played_tracks(vec![
            PlayHistory { track: raw_track("X", Some("1")) },
            PlayHistory { track: raw_track("Y", Some("2")) },
            PlayHistory { track: raw_track("X", Some("3")) },
        ]),
        vec![track("X", "1"), track("Y", "2")]
    );
    assert_eq!(
        c.current_user_playlists(vec![record("P", "p", Some("Olaf"))]),
        vec![playlist("P", "p", "Olaf")]
    );
    assert_eq!(
        c.current_user_followed_artists(vec![full_artist("Ann", "ann"), full_artist("Bob", "bob")]),
        vec![artist("Ann", "ann"), artist("Bob", "bob")]
    );
    assert_eq!(
        c.current_user_saved_albums(vec![SavedAlbum {
            album: FullAlbum {
                id: "a".to_string(),
                name: "A".to_string(),
                release_date: "2020".to_string(),
                artists: vec![raw_artist("Ann", Some("ann")), raw_artist("Nobody", None)],
            },
        }]),
        vec![album("A", "a", "2020")]
    );
}

#[test]
fn artist_albums_merges_albums_and_singles() {
    let merged = client().artist_albums(
        vec![raw_album("A", Some("single"), Some("2022")), raw_album("S", Some("s"), Some("2021"))],
        vec![raw_album("A", Some("album"), Some("2020")), raw_album("lost", None, Some("2023"))],
    );
    assert_eq!(merged, vec![album("A", "single", "2022"), album("S", "s", "2021")]);
}

#[test]
fn artist_albums_puts_the_albums_before_the_singles() {
    let merged = client().artist_albums(
        vec![raw_album("A", Some("single"), Some("2020"))],
        vec![raw_album("A", Some("album"), Some("2020"))],
    );
    assert_eq!(merged, vec![album("A", "single", "2020")]);
}

#[test]
fn playlist_context_drops_what_is_no_track() {
    let context = client().playlist_context(
        record("P", "p", Some("Olaf")),
        vec![
            PlaylistItem { track: Some(PlayableItem::Track(raw_track("T1", Some("t1")))) },
            PlaylistItem { track: None },
            PlaylistItem { track: Some(PlayableItem::Episode) },
            PlaylistItem { track: Some(PlayableItem::Track(raw_track("local", None))) },
            PlaylistItem { track: Some(PlayableItem::Track(raw_track("T2", Some("t2")))) },
        ],
    );
    assert_eq!(
        context,
        Context::Playlist { playlist: playlist("P", "p", "Olaf"), tracks: vec![track("T1", "t1"), track("T2", "t2")] }
    );
}

#[test]
fn album_context_fills_in_the_album() {
    let listing = vec![
        SimplifiedTrack { id: Some("t1".to_string()), name: "T1".to_string(), artists: vec![raw_artist("Bob", Some("bob"))], duration_ms: 1 },
        SimplifiedTrack { id: None, name: "T2".to_string(), artists: vec![], duration_ms: 2 },
        SimplifiedTrack { id: Some("t3".to_string()), name: "T3".to_string(), artists: vec![], duration_ms: 3 },
    ];
    let context = client().album_context(
        FullAlbum {
            id: "a".to_string(),
            name: "A".to_string(),
            release_date: "2020-05-17".to_string(),
            artists: vec![raw_artist("Ann", Some("ann"))],
        },
        listing,
    );
    let the_album = album("A", "a", "2020-05-17");
    assert_eq!(
        context,
        Context::Album {
            album: the_album.clone(),
            tracks: vec![
                Track { id: "t1".to_string(), name: "T1".to_string(), artists: vec![artist("Bob", "bob")], album: Some(the_album.clone()), duration_ms: 1 },
                Track { id: "t3".to_string(), name: "T3".to_string(), artists: vec![], album: Some(the_album), duration_ms: 3 },
            ],
        }
    );
}

#[test]
fn artist_context_holds_all_four_parts() {
    let context = client().artist_context(
        Ok(full_artist("Ann", "ann")),
        Ok(vec![raw_track("T1", Some("t1")), raw_track("T2", None)]),
        Ok(vec![full_artist("Bob", "bob")]),
        Ok(vec![album("A", "a", "2020")]),
    );
    assert_eq!(
        context,
        Ok(Context::Artist {
            artist: artist("Ann", "ann"),
            top_tracks: vec![track("T1", "t1")],
            albums: vec![album("A", "a", "2020")],
            related_artists: vec![artist("Bob", "bob")],
        })
    );
}

#[test]
fn artist_context_fails_when_a_fetch_failed() {
    let c = client();
    assert_eq!(
        c.artist_context(Err(ClientError::Transport), Ok(vec![]), Ok(vec![]), Ok(vec![])),
        Err(ArtistContextFailure { part: ArtistPart::Artist, error: ClientError::Transport })
    );
    assert_eq!(
        c.artist_context(Ok(full_artist("Ann", "ann")), Err(ClientError::UpstreamStatus(500)), Ok(vec![]), Ok(vec![])),
        Err(ArtistContextFailure { part: ArtistPart::TopTracks, error: ClientError::UpstreamStatus(500) })
    );
    assert_eq!(
        c.artist_context(Ok(full_artist("Ann", "ann")), Ok(vec![]), Err(ClientError::Auth), Ok(vec![])),
        Err(ArtistContextFailure { part: ArtistPart::RelatedArtists, error: ClientError::Auth })
    );
    assert_eq!(
        c.artist_context(Ok(full_artist("Ann", "ann")), Ok(vec![]), Ok(vec![]), Err(ClientError::Decode(DecodeError::Malformed))),
        Err(ArtistContextFailure { part: ArtistPart::Albums, error: ClientError::Decode(DecodeError::Malformed) })
    );
    assert_eq!(
        c.artist_context(Ok(full_artist("Ann", "ann")), Err(ClientError::Auth), Ok(vec![]), Err(ClientError::Transport)),
        Err(ArtistContextFailure { part: ArtistPart::TopTracks, error: ClientError::Auth })
    );
}

#[test]
fn search_specific_type_takes_only_the_kind_asked_for() {
    let c = client();
    assert_eq!(
        c.search_specific_type(SearchType::Track, SearchResult::Tracks(vec![raw_track("T", Some("t"))])),
        Ok(SearchResult::Tracks(vec![raw_track("T", Some("t"))]))
    );
    assert_eq!(c.search_specific_type(SearchType::Artist, SearchResult::Artists(vec![])), Ok(SearchResult::Artists(vec![])));
    assert_eq!(c.search_specific_type(SearchType::Album, SearchResult::Albums(vec![])), Ok(SearchResult::Albums(vec![])));
    assert_eq!(c.search_specific_type(SearchType::Playlist, SearchResult::Playlists(vec![])), Ok(SearchResult::Playlists(vec![])));
    assert_eq!(
        c.search_specific_type(SearchType::Track, SearchResult::Albums(vec![])),
        Err(ClientError::Decode(DecodeError::ExpectedTracks))
    );
    assert_eq!(
        c.search_specific_type(SearchType::Artist, SearchResult::Tracks(vec![])),
        Err(ClientError::Decode(DecodeError::ExpectedArtists))
    );
    assert_eq!(
        c.search_specific_type(SearchType::Album, SearchResult::Shows),
        Err(ClientError::Decode(DecodeError::ExpectedAlbums))
    );
    assert_eq!(
        c.search_specific_type(SearchType::Playlist, SearchResult::Episodes),
        Err(ClientError::Decode(DecodeError::ExpectedPlaylists))
    );
}

#[test]
fn playlist_edits_are_planned() {
    let c = client();
    assert_eq!(
        c.add_track_to_playlist("p", "t"),
        vec![
            PlaylistRequest::RemoveAllOccurrences { playlist_id: "p".to_string(), track_id: "t".to_string() },
            PlaylistRequest::AddItem { playlist_id: "p".to_string(), track_id: "t".to_string() },
        ]
    );
    assert_eq!(
        c.delete_track_from_playlist("p", "t"),
        vec![PlaylistRequest::RemoveAllOccurrences { playlist_id: "p".to_string(), track_id: "t".to_string() }]
    );
    assert_eq!(c.add_tracks_to_playlist(), vec![]);
    assert_eq!(
        c.reorder_playlist_items("p", 5, 2, Some(1), Some("snap")),
        Some(PlaylistRequest::Reorder {
            playlist_id: "p".to_string(),
            request: ReorderRequest { range_start: 2, insert_before: 6, range_length: Some(1) },
            snapshot_id: Some("snap".to_string()),
        })
    );
    assert_eq!(
        c.reorder_playlist_items("p", 1, 2, None, None),
        Some(PlaylistRequest::Reorder {
            playlist_id: "p".to_string(),
            request: ReorderRequest { range_start: 2, insert_before: 1, range_length: None },
            snapshot_id: None,
        })
    );
    assert_eq!(c.reorder_playlist_items("p", usize::MAX, 2, None, None), None);
}

#[test]
fn radio_starts_with_the_question_for_the_station() {
    assert_eq!(
        client().radio_tracks("spotify:track:6D6Pybzey0shI8U9ttRAPx"),
        Radio::AskAutoplay { uri: "hm://autoplay-enabled/query?uri=spotify:track:6D6Pybzey0shI8U9ttRAPx".to_string() }
    );
}
