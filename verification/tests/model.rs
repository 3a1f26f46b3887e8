use spotify_client::model::{
    albums_from_simplified, artists_from_simplified, tracks_from_album, Album, Artist, Category, Playlist, Track,
};
use spotify_client::upstream::{
    CategoryRecord, FullAlbum, FullArtist, FullTrack, PlayableItem, PlaylistItem, PlaylistRecord,
    SimplifiedAlbum, SimplifiedArtist, SimplifiedTrack,
};

fn raw_artist(name: &str, id: Option<&str>) -> SimplifiedArtist {
    SimplifiedArtist { id: id.map(|s| s.to_string()), name: name.to_string() }
}

fn artist(name: &str, id: &str) -> Artist {
    Artist { id: id.to_string(), name: name.to_string() }
}

#[test]
fn artist_without_an_identifier_does_not_convert() {
    assert_eq!(Artist::try_from_simplified_artist(raw_artist("Ann", Some("ann"))), Some(artist("Ann", "ann")));
    assert_eq!(Artist::try_from_simplified_artist(raw_artist("Ann", None)), None);
    assert_eq!(
        Artist::from_full_artist(FullArtist { id: "bob".to_string(), name: "Bob".to_string() }),
        artist("Bob", "bob")
    );
}

#[test]
fn artists_that_do_not_convert_are_dropped_in_place() {
    assert_eq!(
        artists_from_simplified(vec![
            raw_artist("x", None),
            raw_artist("Ann", Some("ann")),
            raw_artist("y", None),
            raw_artist("Bob", Some("bob")),
            raw_artist("Ann", Some("ann")),
        ]),
        vec![artist("Ann", "ann"), artist("Bob", "bob"), artist("Ann", "ann")]
    );
    assert_eq!(artists_from_simplified(vec![]), vec![]);
}

#[test]
fn album_without_an_identifier_does_not_convert() {
    let raw = SimplifiedAlbum {
        id: None,
        name: "A".to_string(),
        release_date: Some("2020".to_string()),
        artists: vec![raw_artist("Ann", Some("ann"))],
    };
    assert_eq!(Album::try_from_simplified_album(raw), None);
}

#[test]
fn album_without_a_release_date_has_the_empty_date() {
    let raw = SimplifiedAlbum {
        id: Some("a".to_string()),
        name: "A".to_string(),
        release_date: None,
        artists: vec![raw_artist("Ann", Some("ann")), raw_artist("Nobody", None)],
    };
    assert_eq!(
        Album::try_from_simplified_album(raw),
        Some(Album { id: "a".to_string(), name: "A".to_string(), release_date: String::new(), artists: vec![artist("Ann", "ann")] })
    );
    let raw = SimplifiedAlbum { id: Some("a".to_string()), name: "A".to_string(), release_date: Some("1999-01".to_string()), artists: vec![] };
    assert_eq!(
        albums_from_simplified(vec![raw]),
        vec![Album { id: "a".to_string(), name: "A".to_string(), release_date: "1999-01".to_string(), artists: vec![] }]
    );
}

#[test]
fn full_album_converts_with_its_artists() {
    let raw = FullAlbum {
        id: "a".to_string(),
        name: "A".to_string(),
        release_date: "2020-05-17".to_string(),
        artists: vec![raw_artist("Nobody", None), raw_artist("Ann", Some("ann"))],
    };
    let album = Album::from_full_album(raw);
    assert_eq!(
        album,
        Album { id: "a".to_string(), name: "A".to_string(), release_date: "2020-05-17".to_string(), artists: vec![artist("Ann", "ann")] }
    );
    assert_eq!(album.duplicate(), album);
    assert_eq!(artist("Ann", "ann").duplicate(), artist("Ann", "ann"));
}

#[test]
fn track_converts_with_its_album_where_the_album_converts() {
    let raw = |album_id: Option<&str>, id: Option<&str>| FullTrack {
        id: id.map(|s| s.to_string()),
        name: "T".to_string(),
        artists: vec![raw_artist("Ann", Some("ann"))],
        album: SimplifiedAlbum { id: album_id.map(|s| s.to_string()), name: "A".to_string(), release_date: Some("2020".to_string()), artists: vec![] },
        duration_ms: 215_000,
    };
    assert_eq!(
        Track::try_from_full_track(raw(Some("a"), Some("t"))),
        Some(Track {
            id: "t".to_string(),
            name: "T".to_string(),
            artists: vec![artist("Ann", "ann")],
            album: Some(Album { id: "a".to_string(), name: "A".to_string(), release_date: "2020".to_string(), artists: vec![] }),
            duration_ms: 215_000,
        })
    );
    assert_eq!(
        Track::try_from_full_track(raw(None, Some("t"))),
        Some(Track { id: "t".to_string(), name: "T".to_string(), artists: vec![artist("Ann", "ann")], album: None, duration_ms: 215_000 })
    );
    assert_eq!(Track::try_from_full_track(raw(Some("a"), None)), None);
    assert_eq!(Track::try_from_playlist_item(PlaylistItem { track: Some(PlayableItem::Track(raw(Some("a"), None))) }), None);
    assert_eq!(Track::try_from_playlist_item(PlaylistItem { track: Some(PlayableItem::Episode) }), None);
    assert_eq!(Track::try_from_playlist_item(PlaylistItem { track: None }), None);
    assert_eq!(
        Track::try_from_playlist_item(PlaylistItem { track: Some(PlayableItem::Track(raw(None, Some("t")))) }).map(|t| t.id),
        Some("t".to_string())
    );
}

#[test]
fn simplified_track_converts_without_an_album() {
    let raw = SimplifiedTrack { id: Some("t".to_string()), name: "T".to_string(), artists: vec![], duration_ms: 9 };
    assert_eq!(
        Track::try_from_simplified_track(raw.clone()),
        Some(Track { id: "t".to_string(), name: "T".to_string(), artists: vec![], album: None, duration_ms: 9 })
    );
    assert_eq!(Track::try_from_simplified_track(SimplifiedTrack { id: None, ..raw.clone() }), None);
    let album = Album { id: "a".to_string(), name: "A".to_string(), release_date: "2020".to_string(), artists: vec![artist("Ann", "ann")] };
    assert_eq!(
        tracks_from_album(&album, vec![raw]),
        vec![Track { id: "t".to_string(), name: "T".to_string(), artists: vec![], album: Some(album), duration_ms: 9 }]
    );
}

#[test]
fn playlist_of_an_owner_without_a_name_has_the_empty_name() {
    let raw = PlaylistRecord { id: "p".to_string(), name: "P".to_string(), collaborative: false, owner_id: "o".to_string(), owner_name: None };
    assert_eq!(
        Playlist::from_record(raw),
        Playlist { id: "p".to_string(), name: "P".to_string(), collaborative: false, owner_id: "o".to_string(), owner_name: String::new() }
    );
    let raw = PlaylistRecord { id: "p".to_string(), name: "P".to_string(), collaborative: true, owner_id: "o".to_string(), owner_name: Some("Olaf".to_string()) };
    assert_eq!(
        Playlist::from_record(raw),
        Playlist { id: "p".to_string(), name: "P".to_string(), collaborative: true, owner_id: "o".to_string(), owner_name: "Olaf".to_string() }
    );
    assert_eq!(
        Category::from_record(CategoryRecord { id: "rock".to_string(), name: "Rock".to_string() }),
        Category { id: "rock".to_string(), name: "Rock".to_string() }
    );
}
