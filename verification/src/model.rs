//! The domain records that the client hands to its callers, and how each is
//! made from what the catalog returned.
//!
//! A conversion that can fail returns nothing for the record it cannot
//! convert; the list conversions drop such records and keep the order of the
//! rest.

use vstd::prelude::*;
use crate::upstream::{
    CategoryRecord, CategoryRecordView, FullAlbum, FullAlbumView, FullArtist, FullArtistView,
    FullTrack, FullTrackView, PlayableItem, PlayableItemView, PlaylistItem, PlaylistItemView,
    PlaylistRecord, PlaylistRecordView, SavedAlbum, SavedAlbumView, SavedTrack, SavedTrackView,
    SimplifiedAlbum, SimplifiedAlbumView, SimplifiedArtist, SimplifiedArtistView, SimplifiedTrack,
    SimplifiedTrackView,
};

verus! {

/// An artist of the catalog.
#[derive(Clone, Debug, PartialEq, Eq)]
pub struct Artist {
    pub id: String,
    pub name: String,
}

/// The view of [`Artist`]: the same, with texts and lists as sequences.
pub struct ArtistView {
    pub id: Seq<char>,
    pub name: Seq<char>,
}

impl View for Artist {
    type V = ArtistView;

    open spec fn view(&self) -> ArtistView {
        ArtistView { id: self.id@, name: self.name@ }
    }
}

impl DeepView for Artist {
    type V = ArtistView;

    open spec fn deep_view(&self) -> ArtistView {
        self@
    }
}

/// An album of the catalog. The release date is the catalog's text for it.
#[derive(Clone, Debug, PartialEq, Eq)]
pub struct Album {
    pub id: String,
    pub name: String,
    pub release_date: String,
    pub artists: Vec<Artist>,
}

/// The view of [`Album`]: the same, with texts and lists as sequences.
pub struct AlbumView {
    pub id: Seq<char>,
    pub name: Seq<char>,
    pub release_date: Seq<char>,
    pub artists: Seq<ArtistView>,
}

impl View for Album {
    type V = AlbumView;

    open spec fn view(&self) -> AlbumView {
        AlbumView {
            id: self.id@,
            name: self.name@,
            release_date: self.release_date@,
            artists: self.artists.deep_view(),
        }
    }
}

impl DeepView for Album {
    type V = AlbumView;

    open spec fn deep_view(&self) -> AlbumView {
        self@
    }
}

/// A playable track of the catalog.
#[derive(Clone, Debug, PartialEq, Eq)]
pub struct Track {
    pub id: String,
    pub name: String,
    pub artists: Vec<Artist>,
    pub album: Option<Album>,
    pub duration_ms: u64,
}

/// The view of [`Track`]: the same, with texts and lists as sequences.
pub struct TrackView {
    pub id: Seq<char>,
    pub name: Seq<char>,
    pub artists: Seq<ArtistView>,
    pub album: Option<AlbumView>,
    pub duration_ms: u64,
}

impl View for Track {
    type V = TrackView;

    open spec fn view(&self) -> TrackView {
        TrackView {
            id: self.id@,
            name: self.name@,
            artists: self.artists.deep_view(),
            album: self.album.deep_view(),
            duration_ms: self.duration_ms,
        }
    }
}

impl DeepView for Track {
    type V = TrackView;

    open spec fn deep_view(&self) -> TrackView {
        self@
    }
}

/// A playlist of the catalog.
#[derive(Clone, Debug, PartialEq, Eq)]
pub struct Playlist {
    pub id: String,
    pub name: String,
    pub collaborative: bool,
    pub owner_id: String,
    pub owner_name: String,
}

/// The view of [`Playlist`]: the same, with texts and lists as sequences.
pub struct PlaylistView {
    pub id: Seq<char>,
    pub name: Seq<char>,
    pub collaborative: bool,
    pub owner_id: Seq<char>,
    pub owner_name: Seq<char>,
}

impl View for Playlist {
    type V = PlaylistView;

    open spec fn view(&self) -> PlaylistView {
        PlaylistView {
            id: self.id@,
            name: self.name@,
            collaborative: self.collaborative,
            owner_id: self.owner_id@,
            owner_name: self.owner_name@,
        }
    }
}

impl DeepView for Playlist {
    type V = PlaylistView;

    open spec fn deep_view(&self) -> PlaylistView {
        self@
    }
}

/// A browse category of the catalog.
#[derive(Clone, Debug, PartialEq, Eq)]
pub struct Category {
    pub id: String,
    pub name: String,
}

/// The view of [`Category`]: the same, with texts and lists as sequences.
pub struct CategoryView {
    pub id: Seq<char>,
    pub name: Seq<char>,
}

impl View for Category {
    type V = CategoryView;

    open spec fn view(&self) -> CategoryView {
        CategoryView { id: self.id@, name: self.name@ }
    }
}

impl DeepView for Category {
    type V = CategoryView;

    open spec fn deep_view(&self) -> CategoryView {
        self@
    }
}

/// A primary record together with what belongs to it, ready to be shown.
#[derive(Clone, Debug, PartialEq, Eq)]
pub enum Context {
    Playlist { playlist: Playlist, tracks: Vec<Track> },
    Album { album: Album, tracks: Vec<Track> },
    Artist { artist: Artist, top_tracks: Vec<Track>, albums: Vec<Album>, related_artists: Vec<Artist> },
}

/// The view of [`Context`]: the same, with texts and lists as sequences.
pub enum ContextView {
    Playlist { playlist: PlaylistView, tracks: Seq<TrackView> },
    Album { album: AlbumView, tracks: Seq<TrackView> },
    Artist {
        artist: ArtistView,
        top_tracks: Seq<TrackView>,
        albums: Seq<AlbumView>,
        related_artists: Seq<ArtistView>,
    },
}

impl View for Context {
    type V = ContextView;

    open spec fn view(&self) -> ContextView {
        match self {
            Context::Playlist { playlist, tracks } => ContextView::Playlist {
                playlist: playlist@,
                tracks: tracks.deep_view(),
            },
            Context::Album { album, tracks } => ContextView::Album {
                album: album@,
                tracks: tracks.deep_view(),
            },
            Context::Artist { artist, top_tracks, albums, related_artists } => ContextView::Artist {
                artist: artist@,
                top_tracks: top_tracks.deep_view(),
                albums: albums.deep_view(),
                related_artists: related_artists.deep_view(),
            },
        }
    }
}

/// What a search across the four kinds of record found.
#[derive(Clone, Debug, PartialEq, Eq)]
pub struct SearchResults {
    pub tracks: Vec<Track>,
    pub artists: Vec<Artist>,
    pub albums: Vec<Album>,
    pub playlists: Vec<Playlist>,
}

/// The view of [`SearchResults`]: the same, with texts and lists as sequences.
pub struct SearchResultsView {
    pub tracks: Seq<TrackView>,
    pub artists: Seq<ArtistView>,
    pub albums: Seq<AlbumView>,
    pub playlists: Seq<PlaylistView>,
}

impl View for SearchResults {
    type V = SearchResultsView;

    open spec fn view(&self) -> SearchResultsView {
        SearchResultsView {
            tracks: self.tracks.deep_view(),
            artists: self.artists.deep_view(),
            albums: self.albums.deep_view(),
            playlists: self.playlists.deep_view(),
        }
    }
}

/// The artist that a simplified record stands for: none without an identifier.
pub open spec fn artist_of(raw: SimplifiedArtistView) -> Option<ArtistView> {
    match raw.id {
        Some(id) => Some(ArtistView { id, name: raw.name }),
        None => None,
    }
}

/// The artists that a list of simplified records stands for, in order.
pub open spec fn artists_of(raw: Seq<SimplifiedArtistView>) -> Seq<ArtistView> {
    raw.filter_map(|a: SimplifiedArtistView| artist_of(a))
}

/// The artist that a full record stands for.
pub open spec fn artist_of_full(raw: FullArtistView) -> ArtistView {
    ArtistView { id: raw.id, name: raw.name }
}

/// The album that a simplified record stands for: none without an identifier;
/// a missing release date becomes the empty text.
pub open spec fn album_of(raw: SimplifiedAlbumView) -> Option<AlbumView> {
    match raw.id {
        Some(id) => Some(
            AlbumView {
                id,
                name: raw.name,
                release_date: match raw.release_date {
                    Some(date) => date,
                    None => Seq::empty(),
                },
                artists: artists_of(raw.artists),
            },
        ),
        None => None,
    }
}

/// The albums that a list of simplified records stands for, in order.
pub open spec fn albums_of(raw: Seq<SimplifiedAlbumView>) -> Seq<AlbumView> {
    raw.filter_map(|a: SimplifiedAlbumView| album_of(a))
}

/// The album that a full record stands for.
pub open spec fn album_of_full(raw: FullAlbumView) -> AlbumView {
    AlbumView {
        id: raw.id,
        name: raw.name,
        release_date: raw.release_date,
        artists: artists_of(raw.artists),
    }
}

/// The track that a full record stands for: none without an identifier.
pub open spec fn track_of(raw: FullTrackView) -> Option<TrackView> {
    match raw.id {
        Some(id) => Some(
            TrackView {
                id,
                name: raw.name,
                artists: artists_of(raw.artists),
                album: album_of(raw.album),
                duration_ms: raw.duration_ms,
            },
        ),
        None => None,
    }
}

/// The tracks that a list of full records stands for, in order.
pub open spec fn tracks_of(raw: Seq<FullTrackView>) -> Seq<TrackView> {
    raw.filter_map(|t: FullTrackView| track_of(t))
}

/// The track that a simplified record stands for, without an album: none
/// without an identifier.
pub open spec fn track_of_simplified(raw: SimplifiedTrackView) -> Option<TrackView> {
    match raw.id {
        Some(id) => Some(
            TrackView {
                id,
                name: raw.name,
                artists: artists_of(raw.artists),
                album: None,
                duration_ms: raw.duration_ms,
            },
        ),
        None => None,
    }
}

/// The track that an entry of a playlist stands for: none for a removed
/// entry, for an episode, or for a track that does not convert.
pub open spec fn track_of_item(item: PlaylistItemView) -> Option<TrackView> {
    match item.track {
        Some(PlayableItemView::Track(track)) => track_of(track),
        _ => None,
    }
}

/// The playlist that a record of the catalog stands for; an owner without a
/// display name has the empty name.
pub open spec fn playlist_of(raw: PlaylistRecordView) -> PlaylistView {
    PlaylistView {
        id: raw.id,
        name: raw.name,
        collaborative: raw.collaborative,
        owner_id: raw.owner_id,
        owner_name: match raw.owner_name {
            Some(name) => name,
            None => Seq::empty(),
        },
    }
}

/// The category that a record of the catalog stands for.
pub open spec fn category_of(raw: CategoryRecordView) -> CategoryView {
    CategoryView { id: raw.id, name: raw.name }
}

impl Artist {
    /// Converts a simplified artist; fails when it has no identifier.
    pub fn try_from_simplified_artist(raw: SimplifiedArtist) -> (artist: Option<Artist>)
        ensures
            artist.deep_view() == artist_of(raw@),
    {
        match raw.id {
            Some(id) => Some(Artist { id, name: raw.name }),
            None => None,
        }
    }

    /// Converts a full artist.
    pub fn from_full_artist(raw: FullArtist) -> (artist: Artist)
        ensures
            artist@ == artist_of_full(raw@),
    {
        Artist { id: raw.id, name: raw.name }
    }
}

/// Converts the artists of a record, dropping those that do not convert.
pub fn artists_from_simplified(raw: Vec<SimplifiedArtist>) -> (artists: Vec<Artist>)
    ensures
        artists.deep_view() == artists_of(raw.deep_view()),
{
    let ghost views = raw.deep_view();
    let mut artists: Vec<Artist> = Vec::new();
    for item in it: raw
        invariant
            it.seq().len() == views.len(),
            forall|k: int| 0 <= k < views.len() ==> (#[trigger] it.seq()[k])@ == views[k],
            artists.deep_view() == artists_of(views.take(it.index() as int)),
    {
        proof {
            views.lemma_filter_map_take_succ(|a: SimplifiedArtistView| artist_of(a), it.index() as int);
        }
        let ghost before = artists.deep_view();
        match Artist::try_from_simplified_artist(item) {
            Some(artist) => {
                artists.push(artist);
                assert(artists.deep_view() =~= before + seq![artist@]);
            },
            None => {},
        }
    }
    assert(views.take(views.len() as int) =~= views);
    artists
}

impl Album {
    /// Converts a simplified album; fails when it has no identifier.
    pub fn try_from_simplified_album(raw: SimplifiedAlbum) -> (album: Option<Album>)
        ensures
            album.deep_view() == album_of(raw@),
    {
        match raw.id {
            Some(id) => {
                let release_date = match raw.release_date {
                    Some(date) => date,
                    None => String::new(),
                };
                let artists = artists_from_simplified(raw.artists);
                Some(Album { id, name: raw.name, release_date, artists })
            },
            None => None,
        }
    }

    /// Converts a full album.
    pub fn from_full_album(raw: FullAlbum) -> (album: Album)
        ensures
            album@ == album_of_full(raw@),
    {
        let artists = artists_from_simplified(raw.artists);
        Album { id: raw.id, name: raw.name, release_date: raw.release_date, artists }
    }
}

impl Track {
    /// Converts a full track; fails when it has no identifier.
    pub fn try_from_full_track(raw: FullTrack) -> (track: Option<Track>)
        ensures
            track.deep_view() == track_of(raw@),
    {
        match raw.id {
            Some(id) => {
                let artists = artists_from_simplified(raw.artists);
                let album = Album::try_from_simplified_album(raw.album);
                Some(Track { id, name: raw.name, artists, album, duration_ms: raw.duration_ms })
            },
            None => None,
        }
    }

    /// Converts a track of an album listing, leaving its album open; fails
    /// when it has no identifier.
    pub fn try_from_simplified_track(raw: SimplifiedTrack) -> (track: Option<Track>)
        ensures
            track.deep_view() == track_of_simplified(raw@),
    {
        match raw.id {
            Some(id) => {
                let artists = artists_from_simplified(raw.artists);
                Some(Track { id, name: raw.name, artists, album: None, duration_ms: raw.duration_ms })
            },
            None => None,
        }
    }

    /// Converts an entry of a playlist; fails for anything but a track that
    /// converts.
    pub fn try_from_playlist_item(item: PlaylistItem) -> (track: Option<Track>)
        ensures
            track.deep_view() == track_of_item(item@),
    {
        match item.track {
            Some(PlayableItem::Track(track)) => Track::try_from_full_track(track),
            _ => None,
        }
    }
}

impl Playlist {
    /// Converts a playlist record.
    pub fn from_record(raw: PlaylistRecord) -> (playlist: Playlist)
        ensures
            playlist@ == playlist_of(raw@),
    {
        let owner_name = match raw.owner_name {
            Some(name) => name,
            None => String::new(),
        };
        Playlist {
            id: raw.id,
            name: raw.name,
            collaborative: raw.collaborative,
            owner_id: raw.owner_id,
            owner_name,
        }
    }
}

impl Category {
    /// Converts a category record.
    pub fn from_record(raw: CategoryRecord) -> (category: Category)
        ensures
            category@ == category_of(raw@),
    {
        Category { id: raw.id, name: raw.name }
    }
}

impl Artist {
    /// A copy of this artist.
    pub fn duplicate(&self) -> (copy: Artist)
        ensures
            copy@ == self@,
    {
        Artist { id: self.id.clone(), name: self.name.clone() }
    }
}

impl Album {
    /// A copy of this album.
    pub fn duplicate(&self) -> (copy: Album)
        ensures
            copy@ == self@,
    {
        let mut artists: Vec<Artist> = Vec::new();
        let mut i: usize = 0;
        while i < self.artists.len()
            invariant
                i <= self.artists.len(),
                artists.deep_view() == self.artists.deep_view().take(i as int),
            decreases self.artists.len() - i,
        {
            let ghost before = artists.deep_view();
            artists.push(self.artists[i].duplicate());
            assert(artists.deep_view() =~= before.push(self.artists[i as int]@));
            i += 1;
            assert(self.artists.deep_view().take(i as int) =~= before.push(
                self.artists[i as int - 1]@,
            ));
        }
        assert(self.artists.deep_view().take(i as int) =~= self.artists.deep_view());
        Album {
            id: self.id.clone(),
            name: self.name.clone(),
            release_date: self.release_date.clone(),
            artists,
        }
    }
}

/// The artists that a list of full records stands for.
pub open spec fn artists_of_full(raw: Seq<FullArtistView>) -> Seq<ArtistView> {
    raw.map_values(|a: FullArtistView| artist_of_full(a))
}

/// The albums that the entries of the saved albums stand for.
pub open spec fn albums_of_saved(raw: Seq<SavedAlbumView>) -> Seq<AlbumView> {
    raw.map_values(|s: SavedAlbumView| album_of_full(s.album))
}

/// The tracks that the entries of the liked tracks stand for, in order.
pub open spec fn tracks_of_saved(raw: Seq<SavedTrackView>) -> Seq<TrackView> {
    raw.filter_map(|s: SavedTrackView| track_of(s.track))
}

/// The tracks that the entries of a playlist stand for, in order.
pub open spec fn tracks_of_items(raw: Seq<PlaylistItemView>) -> Seq<TrackView> {
    raw.filter_map(|i: PlaylistItemView| track_of_item(i))
}

/// The conversion of a track of an album's listing that fills in the album.
pub open spec fn album_track_of(album: AlbumView) -> spec_fn(SimplifiedTrackView) -> Option<
    TrackView,
> {
    |t: SimplifiedTrackView|
        match track_of_simplified(t) {
            Some(track) => Some(TrackView { album: Some(album), ..track }),
            None => None,
        }
}

/// The tracks that the listing of an album stands for, in order, each with
/// the album it belongs to.
pub open spec fn tracks_of_album(album: AlbumView, raw: Seq<SimplifiedTrackView>) -> Seq<TrackView> {
    raw.filter_map(album_track_of(album))
}

/// The playlists that a list of records stands for.
pub open spec fn playlists_of(raw: Seq<PlaylistRecordView>) -> Seq<PlaylistView> {
    raw.map_values(|p: PlaylistRecordView| playlist_of(p))
}

/// The categories that a list of records stands for.
pub open spec fn categories_of(raw: Seq<CategoryRecordView>) -> Seq<CategoryView> {
    raw.map_values(|c: CategoryRecordView| category_of(c))
}

/// Converts full artists.
pub fn artists_from_full(raw: Vec<FullArtist>) -> (artists: Vec<Artist>)
    ensures
        artists.deep_view() == artists_of_full(raw.deep_view()),
{
    let ghost views = raw.deep_view();
    let mut artists: Vec<Artist> = Vec::new();
    for item in it: raw
        invariant
            it.seq().len() == views.len(),
            forall|k: int| 0 <= k < views.len() ==> (#[trigger] it.seq()[k])@ == views[k],
            artists.deep_view() == artists_of_full(views.take(it.index() as int)),
    {
        let ghost before = artists.deep_view();
        let artist = Artist::from_full_artist(item);
        artists.push(artist);
        assert(artists.deep_view() =~= before.push(artist@));
        assert(artists_of_full(views.take(it.index() as int + 1)) =~= before.push(artist@));
    }
    assert(views.take(views.len() as int) =~= views);
    artists
}

/// Converts simplified albums, dropping those that do not convert.
pub fn albums_from_simplified(raw: Vec<SimplifiedAlbum>) -> (albums: Vec<Album>)
    ensures
        albums.deep_view() == albums_of(raw.deep_view()),
{
    let ghost views = raw.deep_view();
    let mut albums: Vec<Album> = Vec::new();
    for item in it: raw
        invariant
            it.seq().len() == views.len(),
            forall|k: int| 0 <= k < views.len() ==> (#[trigger] it.seq()[k])@ == views[k],
            albums.deep_view() == albums_of(views.take(it.index() as int)),
    {
        proof {
            views.lemma_filter_map_take_succ(|a: SimplifiedAlbumView| album_of(a), it.index() as int);
        }
        let ghost before = albums.deep_view();
        match Album::try_from_simplified_album(item) {
            Some(album) => {
                albums.push(album);
                assert(albums.deep_view() =~= before + seq![album@]);
            },
            None => {},
        }
    }
    assert(views.take(views.len() as int) =~= views);
    albums
}

/// Converts the entries of the saved albums.
pub fn albums_from_saved(raw: Vec<SavedAlbum>) -> (albums: Vec<Album>)
    ensures
        albums.deep_view() == albums_of_saved(raw.deep_view()),
{
    let ghost views = raw.deep_view();
    let mut albums: Vec<Album> = Vec::new();
    for item in it: raw
        invariant
            it.seq().len() == views.len(),
            forall|k: int| 0 <= k < views.len() ==> (#[trigger] it.seq()[k])@ == views[k],
            albums.deep_view() == albums_of_saved(views.take(it.index() as int)),
    {
        let ghost before = albums.deep_view();
        let album = Album::from_full_album(item.album);
        albums.push(album);
        assert(albums.deep_view() =~= before.push(album@));
        assert(albums_of_saved(views.take(it.index() as int + 1)) =~= before.push(album@));
    }
    assert(views.take(views.len() as int) =~= views);
    albums
}

/// Converts full tracks, dropping those that do not convert.
pub fn tracks_from_full(raw: Vec<FullTrack>) -> (tracks: Vec<Track>)
    ensures
        tracks.deep_view() == tracks_of(raw.deep_view()),
{
    let ghost views = raw.deep_view();
    let mut tracks: Vec<Track> = Vec::new();
    for item in it: raw
        invariant
            it.seq().len() == views.len(),
            forall|k: int| 0 <= k < views.len() ==> (#[trigger] it.seq()[k])@ == views[k],
            tracks.deep_view() == tracks_of(views.take(it.index() as int)),
    {
        proof {
            views.lemma_filter_map_take_succ(|t: FullTrackView| track_of(t), it.index() as int);
        }
        let ghost before = tracks.deep_view();
        match Track::try_from_full_track(item) {
            Some(track) => {
                tracks.push(track);
                assert(tracks.deep_view() =~= before + seq![track@]);
            },
            None => {},
        }
    }
    assert(views.take(views.len() as int) =~= views);
    tracks
}

/// Converts the entries of the liked tracks, dropping those that do not
/// convert.
pub fn tracks_from_saved(raw: Vec<SavedTrack>) -> (tracks: Vec<Track>)
    ensures
        tracks.deep_view() == tracks_of_saved(raw.deep_view()),
{
    let ghost views = raw.deep_view();
    let mut tracks: Vec<Track> = Vec::new();
    for item in it: raw
        invariant
            it.seq().len() == views.len(),
            forall|k: int| 0 <= k < views.len() ==> (#[trigger] it.seq()[k])@ == views[k],
            tracks.deep_view() == tracks_of_saved(views.take(it.index() as int)),
    {
        proof {
            views.lemma_filter_map_take_succ(|s: SavedTrackView| track_of(s.track), it.index() as int);
        }
        let ghost before = tracks.deep_view();
        match Track::try_from_full_track(item.track) {
            Some(track) => {
                tracks.push(track);
                assert(tracks.deep_view() =~= before + seq![track@]);
            },
            None => {},
        }
    }
    assert(views.take(views.len() as int) =~= views);
    tracks
}

/// Converts the entries of a playlist, dropping what is no track or does not
/// convert.
pub fn tracks_from_items(raw: Vec<PlaylistItem>) -> (tracks: Vec<Track>)
    ensures
        tracks.deep_view() == tracks_of_items(raw.deep_view()),
{
    let ghost views = raw.deep_view();
    let mut tracks: Vec<Track> = Vec::new();
    for item in it: raw
        invariant
            it.seq().len() == views.len(),
            forall|k: int| 0 <= k < views.len() ==> (#[trigger] it.seq()[k])@ == views[k],
            tracks.deep_view() == tracks_of_items(views.take(it.index() as int)),
    {
        proof {
            views.lemma_filter_map_take_succ(|i: PlaylistItemView| track_of_item(i), it.index() as int);
        }
        let ghost before = tracks.deep_view();
        match Track::try_from_playlist_item(item) {
            Some(track) => {
                tracks.push(track);
                assert(tracks.deep_view() =~= before + seq![track@]);
            },
            None => {},
        }
    }
    assert(views.take(views.len() as int) =~= views);
    tracks
}

/// Converts the listing of an album, dropping the tracks that do not convert
/// and giving each of the others the album.
pub fn tracks_from_album(album: &Album, raw: Vec<SimplifiedTrack>) -> (tracks: Vec<Track>)
    ensures
        tracks.deep_view() == tracks_of_album(album@, raw.deep_view()),
{
    let ghost views = raw.deep_view();
    let mut tracks: Vec<Track> = Vec::new();
    for item in it: raw
        invariant
            it.seq().len() == views.len(),
            forall|k: int| 0 <= k < views.len() ==> (#[trigger] it.seq()[k])@ == views[k],
            tracks.deep_view() == tracks_of_album(album@, views.take(it.index() as int)),
    {
        proof {
            views.lemma_filter_map_take_succ(album_track_of(album@), it.index() as int);
        }
        let ghost before = tracks.deep_view();
        match Track::try_from_simplified_track(item) {
            Some(found) => {
                let mut track = found;
                track.album = Some(album.duplicate());
                tracks.push(track);
                assert(tracks.deep_view() =~= before + seq![track@]);
            },
            None => {},
        }
    }
    assert(views.take(views.len() as int) =~= views);
    tracks
}

/// Converts playlist records.
pub fn playlists_from_records(raw: Vec<PlaylistRecord>) -> (playlists: Vec<Playlist>)
    ensures
        playlists.deep_view() == playlists_of(raw.deep_view()),
{
    let ghost views = raw.deep_view();
    let mut playlists: Vec<Playlist> = Vec::new();
    for item in it: raw
        invariant
            it.seq().len() == views.len(),
            forall|k: int| 0 <= k < views.len() ==> (#[trigger] it.seq()[k])@ == views[k],
            playlists.deep_view() == playlists_of(views.take(it.index() as int)),
    {
        let ghost before = playlists.deep_view();
        let playlist = Playlist::from_record(item);
        playlists.push(playlist);
        assert(playlists.deep_view() =~= before.push(playlist@));
        assert(playlists_of(views.take(it.index() as int + 1)) =~= before.push(playlist@));
    }
    assert(views.take(views.len() as int) =~= views);
    playlists
}

/// Converts category records.
pub fn categories_from_records(raw: Vec<CategoryRecord>) -> (categories: Vec<Category>)
    ensures
        categories.deep_view() == categories_of(raw.deep_view()),
{
    let ghost views = raw.deep_view();
    let mut categories: Vec<Category> = Vec::new();
    for item in it: raw
        invariant
            it.seq().len() == views.len(),
            forall|k: int| 0 <= k < views.len() ==> (#[trigger] it.seq()[k])@ == views[k],
            categories.deep_view() == categories_of(views.take(it.index() as int)),
    {
        let ghost before = categories.deep_view();
        let category = Category::from_record(item);
        categories.push(category);
        assert(categories.deep_view() =~= before.push(category@));
        assert(categories_of(views.take(it.index() as int + 1)) =~= before.push(category@));
    }
    assert(views.take(views.len() as int) =~= views);
    categories
}

} // verus!
