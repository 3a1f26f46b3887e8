//! The client: what each of its operations returns for what the catalog sent.
//!
//! An operation of the client fetches, walks the pages of what it fetched and
//! then makes of it what the caller gets. The methods here are that last
//! part. Each takes the records as they arrived, all pages walked, and
//! returns the domain records; records that do not convert are dropped, and
//! a failure of any fetch is the failure of the operation.

use vstd::prelude::*;
use crate::auth::{AuthConfig, AuthConfigView, SessionAction, check_session, session_action};
use crate::config::Configs;
use crate::error::{ClientError, DecodeError};
use crate::model::{
    Album, AlbumView, Artist, Category, Context, ContextView, Playlist, SearchResults,
    SearchResultsView, Track, album_of_full, albums_from_saved, albums_from_simplified, albums_of,
    albums_of_saved, artist_of_full, artists_from_full, artists_of_full, categories_from_records,
    categories_of, playlist_of, playlists_from_records, playlists_of, tracks_from_album,
    tracks_from_full, tracks_from_items, tracks_from_saved, tracks_of, tracks_of_album,
    tracks_of_items, tracks_of_saved,
};
use crate::paging::Page;
use crate::playlist::{
    PlaylistRequest, PlaylistRequestView, add_track_plan, delete_track_plan, length_given,
    plan_add_track, plan_delete_track, reorder_fits, reorder_of, reorder_request,
};
use crate::radio::{Radio, RadioView, autoplay_query};
use crate::reconcile::{
    dedup_recently_played, merged_albums, process_artist_albums, recently_played,
};
use crate::upstream::{
    CategoryRecord, FullAlbum, FullArtist, FullArtistView, FullTrack, FullTrackView, PlayHistory, PlaylistItem, PlaylistRecord,
    SavedAlbum, SavedTrack, SearchResult, SearchResultView, SearchType, SimplifiedAlbum,
    SimplifiedTrack,
};

verus! {

/// The client of one user of the catalog.
#[derive(Debug, PartialEq, Eq)]
pub struct Client {
    auth_config: AuthConfig,
    client_id: String,
}

/// The view of [`Client`]: the same, with texts and lists as sequences.
pub struct ClientView {
    pub auth_config: AuthConfigView,
    pub client_id: Seq<char>,
}

impl View for Client {
    type V = ClientView;

    closed spec fn view(&self) -> ClientView {
        ClientView { auth_config: self.auth_config@, client_id: self.client_id@ }
    }
}

/// The view of what a catalog search brought.
pub open spec fn search_view(result: Result<SearchResult, ClientError>) -> Result<
    SearchResultView,
    ClientError,
> {
    match result {
        Ok(found) => Ok(found@),
        Err(error) => Err(error),
    }
}

/// The failure of a search across the four kinds: the kind whose search
/// failed, and how.
#[derive(Clone, Copy, Debug, PartialEq, Eq, Structural)]
pub struct SearchFailure {
    pub kind: SearchType,
    pub error: ClientError,
}

/// The parts that the context of an artist is assembled from.
#[derive(Clone, Copy, Debug, PartialEq, Eq, Structural)]
pub enum ArtistPart {
    Artist,
    TopTracks,
    RelatedArtists,
    Albums,
}

/// The failure to assemble the context of an artist: the part whose fetch
/// failed, and how.
#[derive(Clone, Copy, Debug, PartialEq, Eq, Structural)]
pub struct ArtistContextFailure {
    pub part: ArtistPart,
    pub error: ClientError,
}

/// The view of what a search across the four kinds ended in.
pub open spec fn results_view(results: Result<SearchResults, SearchFailure>) -> Result<
    SearchResultsView,
    SearchFailure,
> {
    match results {
        Ok(found) => Ok(found@),
        Err(error) => Err(error),
    }
}

/// The kind of record that an answer holds, where it is one of the four that
/// the client searches for.
pub open spec fn kind_of(answer: SearchResultView) -> Option<SearchType> {
    match answer {
        SearchResultView::Tracks(_) => Some(SearchType::Track),
        SearchResultView::Artists(_) => Some(SearchType::Artist),
        SearchResultView::Albums(_) => Some(SearchType::Album),
        SearchResultView::Playlists(_) => Some(SearchType::Playlist),
        _ => None,
    }
}

/// The failure of a search that was answered with another kind than `kind`.
pub open spec fn wrong_kind(kind: SearchType) -> ClientError {
    ClientError::Decode(
        match kind {
            SearchType::Track => DecodeError::ExpectedTracks,
            SearchType::Artist => DecodeError::ExpectedArtists,
            SearchType::Album => DecodeError::ExpectedAlbums,
            SearchType::Playlist => DecodeError::ExpectedPlaylists,
        },
    )
}

/// What the answer to a search for `kind` is worth: the answer, where it is
/// of that kind, and else a failure to decode. An answer of another kind is
/// never taken in its place.
pub open spec fn checked_answer(kind: SearchType, answer: SearchResultView) -> Result<
    SearchResultView,
    ClientError,
> {
    if kind_of(answer) == Some(kind) {
        Ok(answer)
    } else {
        Err(wrong_kind(kind))
    }
}

/// What a search across the four kinds ends in, given what the four searches
/// brought.
///
/// Where a search failed, the whole search fails with that failure: that of
/// the track search before that of the artist search, then that of the album
/// search, then that of the playlist search. Where all four were answered,
/// each answer must be of the kind that was asked for; the first that is not,
/// in the same order, fails the whole search as undecodable. Else the search
/// ends in the four lists, converted.
pub open spec fn search_outcome(
    tracks: Result<SearchResultView, ClientError>,
    artists: Result<SearchResultView, ClientError>,
    albums: Result<SearchResultView, ClientError>,
    playlists: Result<SearchResultView, ClientError>,
) -> Result<SearchResultsView, SearchFailure> {
    match (tracks, artists, albums, playlists) {
        (Err(error), _, _, _) => Err(SearchFailure { kind: SearchType::Track, error }),
        (_, Err(error), _, _) => Err(SearchFailure { kind: SearchType::Artist, error }),
        (_, _, Err(error), _) => Err(SearchFailure { kind: SearchType::Album, error }),
        (_, _, _, Err(error)) => Err(SearchFailure { kind: SearchType::Playlist, error }),
        (Ok(track_answer), Ok(artist_answer), Ok(album_answer), Ok(playlist_answer)) => {
            if kind_of(track_answer) != Some(SearchType::Track) {
                Err(SearchFailure { kind: SearchType::Track, error: wrong_kind(SearchType::Track) })
            } else if kind_of(artist_answer) != Some(SearchType::Artist) {
                Err(
                    SearchFailure {
                        kind: SearchType::Artist,
                        error: wrong_kind(SearchType::Artist),
                    },
                )
            } else if kind_of(album_answer) != Some(SearchType::Album) {
                Err(SearchFailure { kind: SearchType::Album, error: wrong_kind(SearchType::Album) })
            } else if kind_of(playlist_answer) != Some(SearchType::Playlist) {
                Err(
                    SearchFailure {
                        kind: SearchType::Playlist,
                        error: wrong_kind(SearchType::Playlist),
                    },
                )
            } else {
                Ok(
                    SearchResultsView {
                        tracks: tracks_of(track_answer->Tracks_0),
                        artists: artists_of_full(artist_answer->Artists_0),
                        albums: albums_of(album_answer->Albums_0),
                        playlists: playlists_of(playlist_answer->Playlists_0),
                    },
                )
            }
        },
    }
}

/// The view of a context, or of the failure to assemble one.
pub open spec fn context_view(context: Result<Context, ArtistContextFailure>) -> Result<
    ContextView,
    ArtistContextFailure,
> {
    match context {
        Ok(assembled) => Ok(assembled@),
        Err(error) => Err(error),
    }
}

/// The view of what the fetch of an artist brought.
pub open spec fn artist_fetched(fetched: Result<FullArtist, ClientError>) -> Result<
    FullArtistView,
    ClientError,
> {
    match fetched {
        Ok(artist) => Ok(artist@),
        Err(error) => Err(error),
    }
}

/// The view of what the fetch of a list of tracks brought.
pub open spec fn tracks_fetched(fetched: Result<Vec<FullTrack>, ClientError>) -> Result<
    Seq<FullTrackView>,
    ClientError,
> {
    match fetched {
        Ok(tracks) => Ok(tracks.deep_view()),
        Err(error) => Err(error),
    }
}

/// The view of what the fetch of a list of artists brought.
pub open spec fn artists_fetched(fetched: Result<Vec<FullArtist>, ClientError>) -> Result<
    Seq<FullArtistView>,
    ClientError,
> {
    match fetched {
        Ok(artists) => Ok(artists.deep_view()),
        Err(error) => Err(error),
    }
}

/// The view of what the fetch of a discography brought.
pub open spec fn albums_fetched(fetched: Result<Vec<Album>, ClientError>) -> Result<
    Seq<AlbumView>,
    ClientError,
> {
    match fetched {
        Ok(albums) => Ok(albums.deep_view()),
        Err(error) => Err(error),
    }
}

/// What the assembly of an artist's context ends in, given what the four
/// fetches brought.
///
/// Where a fetch failed, the assembly fails with that failure: that of the
/// artist before that of the top tracks, then that of the related artists,
/// then that of the discography. Else it ends in the context of the four.
pub open spec fn artist_context_outcome(
    artist: Result<FullArtistView, ClientError>,
    top_tracks: Result<Seq<FullTrackView>, ClientError>,
    related_artists: Result<Seq<FullArtistView>, ClientError>,
    albums: Result<Seq<AlbumView>, ClientError>,
) -> Result<ContextView, ArtistContextFailure> {
    match (artist, top_tracks, related_artists, albums) {
        (Err(error), _, _, _) => Err(ArtistContextFailure { part: ArtistPart::Artist, error }),
        (_, Err(error), _, _) => Err(ArtistContextFailure { part: ArtistPart::TopTracks, error }),
        (_, _, Err(error), _) => Err(
            ArtistContextFailure { part: ArtistPart::RelatedArtists, error },
        ),
        (_, _, _, Err(error)) => Err(ArtistContextFailure { part: ArtistPart::Albums, error }),
        (Ok(artist), Ok(top_tracks), Ok(related_artists), Ok(albums)) => Ok(
            ContextView::Artist {
                artist: artist_of_full(artist),
                top_tracks: tracks_of(top_tracks),
                albums,
                related_artists: artists_of_full(related_artists),
            },
        ),
    }
}

/// A search that was answered with another kind than was asked for fails as
/// undecodable, whatever the other three brought: no answer is put in the
/// place of another.
pub proof fn lemma_search_rejects_wrong_kind(
    tracks: SearchResultView,
    artists: SearchResultView,
    albums: SearchResultView,
    playlists: SearchResultView,
)
    requires
        kind_of(tracks) != Some(SearchType::Track) || kind_of(artists) != Some(SearchType::Artist)
            || kind_of(albums) != Some(SearchType::Album) || kind_of(playlists) != Some(
            SearchType::Playlist,
        ),
    ensures
        search_outcome(Ok(tracks), Ok(artists), Ok(albums), Ok(playlists)) is Err,
        ({
            let failure = search_outcome(Ok(tracks), Ok(artists), Ok(albums), Ok(playlists))->Err_0;
            &&& failure.error == wrong_kind(failure.kind)
            &&& failure.error is Decode
            &&& failure.kind == SearchType::Track ==> kind_of(tracks) != Some(SearchType::Track)
            &&& failure.kind == SearchType::Artist ==> kind_of(artists) != Some(SearchType::Artist)
            &&& failure.kind == SearchType::Album ==> kind_of(albums) != Some(SearchType::Album)
            &&& failure.kind == SearchType::Playlist ==> kind_of(playlists) != Some(
                SearchType::Playlist,
            )
        }),
{
}

/// Where one of the four searches failed, the whole search fails, and it
/// fails with the failure of a search that failed, under the kind of that
/// search.
pub proof fn lemma_search_fails_with_a_search(
    tracks: Result<SearchResultView, ClientError>,
    artists: Result<SearchResultView, ClientError>,
    albums: Result<SearchResultView, ClientError>,
    playlists: Result<SearchResultView, ClientError>,
)
    requires
        tracks is Err || artists is Err || albums is Err || playlists is Err,
    ensures
        search_outcome(tracks, artists, albums, playlists) is Err,
        ({
            let failure = search_outcome(tracks, artists, albums, playlists)->Err_0;
            match failure.kind {
                SearchType::Track => tracks == Err::<SearchResultView, ClientError>(failure.error),
                SearchType::Artist => artists == Err::<SearchResultView, ClientError>(failure.error),
                SearchType::Album => albums == Err::<SearchResultView, ClientError>(failure.error),
                SearchType::Playlist => playlists == Err::<SearchResultView, ClientError>(
                    failure.error,
                ),
            }
        }),
{
}

impl Client {
    /// Constructs the client of the user that `auth_config` logs in, for the
    /// application that `client_id` identifies.
    pub fn new(auth_config: AuthConfig, client_id: String) -> (client: Client)
        ensures
            client@ == (ClientView { auth_config: auth_config@, client_id: client_id@ }),
    {
        Client { auth_config, client_id }
    }

    /// The name under which the user logs in.
    pub fn username(&self) -> (name: String)
        ensures
            name@ == self@.auth_config.login_info.0,
    {
        self.auth_config.login_info.0.clone()
    }

    /// The identifier of the application.
    pub fn client_id(&self) -> (id: &str)
        ensures
            id@ == self@.client_id,
    {
        self.client_id.as_str()
    }

    /// The settings and the login that the client opens its sessions with.
    pub fn auth_config(&self) -> (config: &AuthConfig)
        ensures
            config@ == self@.auth_config,
    {
        &self.auth_config
    }

    /// Decides whether the session must be renewed before the next request.
    pub fn check_valid_session(&self, session_invalid: bool) -> (action: SessionAction)
        ensures
            action == session_action(session_invalid),
    {
        check_session(session_invalid)
    }

    /// The browse categories of the first page of the catalog's listing.
    pub fn browse_categories(&self, first_page: Page<CategoryRecord>) -> (categories: Vec<Category>)
        ensures
            categories.deep_view() == categories_of(first_page.items.deep_view()),
    {
        categories_from_records(first_page.items)
    }

    /// The playlists of the first page of a category's listing.
    pub fn browse_category_playlists(&self, first_page: Page<PlaylistRecord>) -> (playlists: Vec<
        Playlist,
    >)
        ensures
            playlists.deep_view() == playlists_of(first_page.items.deep_view()),
    {
        playlists_from_records(first_page.items)
    }

    /// The liked tracks of the user.
    pub fn current_user_saved_tracks(&self, saved: Vec<SavedTrack>) -> (tracks: Vec<Track>)
        ensures
            tracks.deep_view() == tracks_of_saved(saved.deep_view()),
    {
        tracks_from_saved(saved)
    }

    /// The tracks that the user played recently, each name once.
    pub fn current_user_recently_played_tracks(&self, histories: Vec<PlayHistory>) -> (tracks: Vec<
        Track,
    >)
        ensures
            tracks.deep_view() == recently_played(histories.deep_view()),
    {
        dedup_recently_played(histories)
    }

    /// The tracks that the user plays most.
    pub fn current_user_top_tracks(&self, top: Vec<FullTrack>) -> (tracks: Vec<Track>)
        ensures
            tracks.deep_view() == tracks_of(top.deep_view()),
    {
        tracks_from_full(top)
    }

    /// The playlists of the user.
    pub fn current_user_playlists(&self, records: Vec<PlaylistRecord>) -> (playlists: Vec<Playlist>)
        ensures
            playlists.deep_view() == playlists_of(records.deep_view()),
    {
        playlists_from_records(records)
    }

    /// The artists that the user follows.
    pub fn current_user_followed_artists(&self, followed: Vec<FullArtist>) -> (artists: Vec<Artist>)
        ensures
            artists.deep_view() == artists_of_full(followed.deep_view()),
    {
        artists_from_full(followed)
    }

    /// The albums that the user saved.
    pub fn current_user_saved_albums(&self, saved: Vec<SavedAlbum>) -> (albums: Vec<Album>)
        ensures
            albums.deep_view() == albums_of_saved(saved.deep_view()),
    {
        albums_from_saved(saved)
    }

    /// The discography of an artist, from the listings of its singles and of
    /// its albums: the albums first, then the singles, converted and merged.
    pub fn artist_albums(&self, singles: Vec<SimplifiedAlbum>, albums: Vec<SimplifiedAlbum>) -> (merged:
        Vec<Album>)
        ensures
            merged.deep_view() == merged_albums(
                albums_of(albums.deep_view() + singles.deep_view()),
            ),
    {
        let ghost wanted = albums.deep_view() + singles.deep_view();
        let mut all = albums;
        let mut more = singles;
        all.append(&mut more);
        assert(all.deep_view() =~= wanted);
        process_artist_albums(albums_from_simplified(all))
    }

    /// Starts the resolution of the radio of a seed.
    pub fn radio_tracks(&self, seed_uri: &str) -> (radio: Radio)
        ensures
            radio@ == (RadioView::AskAutoplay { uri: autoplay_query(seed_uri@) }),
    {
        Radio::start(seed_uri)
    }

    /// Checks the answer to a search for `kind`: an answer of another kind
    /// is a failure to decode.
    pub fn search_specific_type(&self, kind: SearchType, answer: SearchResult) -> (checked: Result<
        SearchResult,
        ClientError,
    >)
        ensures
            search_view(checked) == checked_answer(kind, answer@),
    {
        match (kind, answer) {
            (SearchType::Track, SearchResult::Tracks(items)) => Ok(SearchResult::Tracks(items)),
            (SearchType::Artist, SearchResult::Artists(items)) => Ok(SearchResult::Artists(items)),
            (SearchType::Album, SearchResult::Albums(items)) => Ok(SearchResult::Albums(items)),
            (SearchType::Playlist, SearchResult::Playlists(items)) => Ok(SearchResult::Playlists(items)),
            (SearchType::Track, _) => Err(ClientError::Decode(DecodeError::ExpectedTracks)),
            (SearchType::Artist, _) => Err(ClientError::Decode(DecodeError::ExpectedArtists)),
            (SearchType::Album, _) => Err(ClientError::Decode(DecodeError::ExpectedAlbums)),
            (SearchType::Playlist, _) => Err(ClientError::Decode(DecodeError::ExpectedPlaylists)),
        }
    }

    /// Ends a search across tracks, artists, albums and playlists, given
    /// what the four searches brought.
    pub fn search(
        &self,
        track_result: Result<SearchResult, ClientError>,
        artist_result: Result<SearchResult, ClientError>,
        album_result: Result<SearchResult, ClientError>,
        playlist_result: Result<SearchResult, ClientError>,
    ) -> (found: Result<SearchResults, SearchFailure>)
        ensures
            results_view(found) == search_outcome(
                search_view(track_result),
                search_view(artist_result),
                search_view(album_result),
                search_view(playlist_result),
            ),
    {
        let track_answer = match track_result {
            Ok(answer) => answer,
            Err(error) => {
                return Err(SearchFailure { kind: SearchType::Track, error });
            },
        };
        let artist_answer = match artist_result {
            Ok(answer) => answer,
            Err(error) => {
                return Err(SearchFailure { kind: SearchType::Artist, error });
            },
        };
        let album_answer = match album_result {
            Ok(answer) => answer,
            Err(error) => {
                return Err(SearchFailure { kind: SearchType::Album, error });
            },
        };
        let playlist_answer = match playlist_result {
            Ok(answer) => answer,
            Err(error) => {
                return Err(SearchFailure { kind: SearchType::Playlist, error });
            },
        };
        let tracks = match track_answer {
            SearchResult::Tracks(items) => tracks_from_full(items),
            _ => {
                return Err(
                    SearchFailure {
                        kind: SearchType::Track,
                        error: ClientError::Decode(DecodeError::ExpectedTracks),
                    },
                );
            },
        };
        let artists = match artist_answer {
            SearchResult::Artists(items) => artists_from_full(items),
            _ => {
                return Err(
                    SearchFailure {
                        kind: SearchType::Artist,
                        error: ClientError::Decode(DecodeError::ExpectedArtists),
                    },
                );
            },
        };
        let albums = match album_answer {
            SearchResult::Albums(items) => albums_from_simplified(items),
            _ => {
                return Err(
                    SearchFailure {
                        kind: SearchType::Album,
                        error: ClientError::Decode(DecodeError::ExpectedAlbums),
                    },
                );
            },
        };
        let playlists = match playlist_answer {
            SearchResult::Playlists(items) => playlists_from_records(items),
            _ => {
                return Err(
                    SearchFailure {
                        kind: SearchType::Playlist,
                        error: ClientError::Decode(DecodeError::ExpectedPlaylists),
                    },
                );
            },
        };
        Ok(SearchResults { tracks, artists, albums, playlists })
    }

    /// Plans the adding of a track to a playlist: every occurrence of the
    /// track is removed first, then the track is added once.
    pub fn add_track_to_playlist(&self, playlist_id: &str, track_id: &str) -> (plan: Vec<
        PlaylistRequest,
    >)
        ensures
            plan.deep_view() == add_track_plan(playlist_id@, track_id@),
    {
        plan_add_track(playlist_id, track_id)
    }

    /// Plans the adding of several tracks to a playlist. Nothing is added.
    pub fn add_tracks_to_playlist(&self) -> (plan: Vec<PlaylistRequest>)
        ensures
            plan.deep_view() == Seq::<PlaylistRequestView>::empty(),
    {
        let plan: Vec<PlaylistRequest> = Vec::new();
        assert(plan.deep_view() =~= Seq::<PlaylistRequestView>::empty());
        plan
    }

    /// Plans the deleting of a track from a playlist: every occurrence of it
    /// is removed.
    pub fn delete_track_from_playlist(&self, playlist_id: &str, track_id: &str) -> (plan: Vec<
        PlaylistRequest,
    >)
        ensures
            plan.deep_view() == delete_track_plan(playlist_id@, track_id@),
    {
        plan_delete_track(playlist_id, track_id)
    }

    /// Plans the move of the range at `range_start` of a playlist to
    /// `insert_index`. There is no plan where a position does not fit the
    /// integer widths of the catalog.
    pub fn reorder_playlist_items(
        &self,
        playlist_id: &str,
        insert_index: usize,
        range_start: usize,
        range_length: Option<usize>,
        snapshot_id: Option<&str>,
    ) -> (plan: Option<PlaylistRequest>)
        ensures
            plan is Some <==> reorder_fits(
                insert_index as int,
                range_start as int,
                length_given(range_length),
            ),
            plan matches Some(request) ==> request@ == (PlaylistRequestView::Reorder {
                playlist_id: playlist_id@,
                request: reorder_of(
                    insert_index as int,
                    range_start as int,
                    length_given(range_length),
                ),
                snapshot_id: match snapshot_id {
                    Some(snapshot) => Some(snapshot@),
                    None => None,
                },
            }),
    {
        match reorder_request(insert_index, range_start, range_length) {
            Some(request) => {
                let snapshot = match snapshot_id {
                    Some(snapshot) => Some(snapshot.to_owned()),
                    None => None,
                };
                Some(
                    PlaylistRequest::Reorder {
                        playlist_id: playlist_id.to_owned(),
                        request,
                        snapshot_id: snapshot,
                    },
                )
            },
            None => None,
        }
    }

    /// The context of a playlist: the playlist and those of its entries that
    /// are tracks and convert.
    pub fn playlist_context(&self, playlist: PlaylistRecord, items: Vec<PlaylistItem>) -> (context:
        Context)
        ensures
            context@ == (ContextView::Playlist {
                playlist: playlist_of(playlist@),
                tracks: tracks_of_items(items.deep_view()),
            }),
    {
        let tracks = tracks_from_items(items);
        Context::Playlist { playlist: Playlist::from_record(playlist), tracks }
    }

    /// The context of an album: the album and the tracks of its listing that
    /// convert, each with the album filled in.
    pub fn album_context(&self, album: FullAlbum, listing: Vec<SimplifiedTrack>) -> (context: Context)
        ensures
            context@ == (ContextView::Album {
                album: album_of_full(album@),
                tracks: tracks_of_album(album_of_full(album@), listing.deep_view()),
            }),
    {
        let album = Album::from_full_album(album);
        let tracks = tracks_from_album(&album, listing);
        Context::Album { album, tracks }
    }

    /// The context of an artist, given what the four fetches for it brought:
    /// the artist, its top tracks, the artists related to it and its
    /// discography. Where a fetch failed there is no context.
    pub fn artist_context(
        &self,
        artist: Result<FullArtist, ClientError>,
        top_tracks: Result<Vec<FullTrack>, ClientError>,
        related_artists: Result<Vec<FullArtist>, ClientError>,
        albums: Result<Vec<Album>, ClientError>,
    ) -> (context: Result<Context, ArtistContextFailure>)
        ensures
            context_view(context) == artist_context_outcome(
                artist_fetched(artist),
                tracks_fetched(top_tracks),
                artists_fetched(related_artists),
                albums_fetched(albums),
            ),
    {
        let artist = match artist {
            Ok(found) => found,
            Err(error) => {
                return Err(ArtistContextFailure { part: ArtistPart::Artist, error });
            },
        };
        let top_tracks = match top_tracks {
            Ok(found) => found,
            Err(error) => {
                return Err(ArtistContextFailure { part: ArtistPart::TopTracks, error });
            },
        };
        let related_artists = match related_artists {
            Ok(found) => found,
            Err(error) => {
                return Err(ArtistContextFailure { part: ArtistPart::RelatedArtists, error });
            },
        };
        let albums = match albums {
            Ok(found) => found,
            Err(error) => {
                return Err(ArtistContextFailure { part: ArtistPart::Albums, error });
            },
        };
        let top_tracks = tracks_from_full(top_tracks);
        let related_artists = artists_from_full(related_artists);
        Ok(
            Context::Artist {
                artist: Artist::from_full_artist(artist),
                top_tracks,
                albums,
                related_artists,
            },
        )
    }
}

/// Makes clients, and remembers what the last one authenticates with.
#[derive(Debug, PartialEq, Eq)]
pub struct ClientHandler {
    config: AuthConfig,
}

impl View for ClientHandler {
    type V = AuthConfigView;

    closed spec fn view(&self) -> AuthConfigView {
        self.config@
    }
}

impl ClientHandler {
    /// A handler that has made no client yet.
    pub fn new() -> (handler: ClientHandler)
        ensures
            handler@ == crate::auth::default_auth_config(),
    {
        ClientHandler { config: AuthConfig::default() }
    }

    /// Makes the client that the configuration asks for.
    pub fn client_new(&mut self, configs: &Configs) -> (client: Client)
        ensures
            client@.auth_config.login_info == configs@.login_info,
            client@.auth_config.session_config == configs.app_config.session_config_spec(),
            client@.client_id == configs@.app_config.client_id,
            final(self)@ == client@.auth_config,
    {
        let auth_config = AuthConfig::new(configs);
        self.config = AuthConfig::new(configs);
        Client::new(auth_config, configs.app_config.client_id.clone())
    }
}

} // verus!
