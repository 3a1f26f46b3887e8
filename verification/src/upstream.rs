//! The shapes in which the catalog hands out its records, reduced to the
//! fields that this crate reads.
//!
//! Every shape has a view: the same record with its texts as sequences of
//! characters and its lists as sequences. The contracts of the crate speak of
//! the views.

use vstd::prelude::*;

verus! {

/// An artist as it appears inside another record: the identifier may be missing.
#[derive(Clone, Debug, PartialEq, Eq)]
pub struct SimplifiedArtist {
    pub id: Option<String>,
    pub name: String,
}

/// The view of [`SimplifiedArtist`]: the same, with texts and lists as sequences.
pub struct SimplifiedArtistView {
    pub id: Option<Seq<char>>,
    pub name: Seq<char>,
}

impl View for SimplifiedArtist {
    type V = SimplifiedArtistView;

    open spec fn view(&self) -> SimplifiedArtistView {
        SimplifiedArtistView { id: self.id.deep_view(), name: self.name@ }
    }
}

impl DeepView for SimplifiedArtist {
    type V = SimplifiedArtistView;

    open spec fn deep_view(&self) -> SimplifiedArtistView {
        self@
    }
}

/// An artist as the catalog returns it when asked for artists.
#[derive(Clone, Debug, PartialEq, Eq)]
pub struct FullArtist {
    pub id: String,
    pub name: String,
}

/// The view of [`FullArtist`]: the same, with texts and lists as sequences.
pub struct FullArtistView {
    pub id: Seq<char>,
    pub name: Seq<char>,
}

impl View for FullArtist {
    type V = FullArtistView;

    open spec fn view(&self) -> FullArtistView {
        FullArtistView { id: self.id@, name: self.name@ }
    }
}

impl DeepView for FullArtist {
    type V = FullArtistView;

    open spec fn deep_view(&self) -> FullArtistView {
        self@
    }
}

/// An album as it appears in listings and inside tracks.
#[derive(Clone, Debug, PartialEq, Eq)]
pub struct SimplifiedAlbum {
    pub id: Option<String>,
    pub name: String,
    pub release_date: Option<String>,
    pub artists: Vec<SimplifiedArtist>,
}

/// The view of [`SimplifiedAlbum`]: the same, with texts and lists as sequences.
pub struct SimplifiedAlbumView {
    pub id: Option<Seq<char>>,
    pub name: Seq<char>,
    pub release_date: Option<Seq<char>>,
    pub artists: Seq<SimplifiedArtistView>,
}

impl View for SimplifiedAlbum {
    type V = SimplifiedAlbumView;

    open spec fn view(&self) -> SimplifiedAlbumView {
        SimplifiedAlbumView {
            id: self.id.deep_view(),
            name: self.name@,
            release_date: self.release_date.deep_view(),
            artists: self.artists.deep_view(),
        }
    }
}

impl DeepView for SimplifiedAlbum {
    type V = SimplifiedAlbumView;

    open spec fn deep_view(&self) -> SimplifiedAlbumView {
        self@
    }
}

/// An album as the catalog returns it when asked for that album. Its track
/// listing is paginated and travels separately.
#[derive(Clone, Debug, PartialEq, Eq)]
pub struct FullAlbum {
    pub id: String,
    pub name: String,
    pub release_date: String,
    pub artists: Vec<SimplifiedArtist>,
}

/// The view of [`FullAlbum`]: the same, with texts and lists as sequences.
pub struct FullAlbumView {
    pub id: Seq<char>,
    pub name: Seq<char>,
    pub release_date: Seq<char>,
    pub artists: Seq<SimplifiedArtistView>,
}

impl View for FullAlbum {
    type V = FullAlbumView;

    open spec fn view(&self) -> FullAlbumView {
        FullAlbumView {
            id: self.id@,
            name: self.name@,
            release_date: self.release_date@,
            artists: self.artists.deep_view(),
        }
    }
}

impl DeepView for FullAlbum {
    type V = FullAlbumView;

    open spec fn deep_view(&self) -> FullAlbumView {
        self@
    }
}

/// A track with its album, as the catalog returns it in most listings.
#[derive(Clone, Debug, PartialEq, Eq)]
pub struct FullTrack {
    pub id: Option<String>,
    pub name: String,
    pub artists: Vec<SimplifiedArtist>,
    pub album: SimplifiedAlbum,
    pub duration_ms: u64,
}

/// The view of [`FullTrack`]: the same, with texts and lists as sequences.
pub struct FullTrackView {
    pub id: Option<Seq<char>>,
    pub name: Seq<char>,
    pub artists: Seq<SimplifiedArtistView>,
    pub album: SimplifiedAlbumView,
    pub duration_ms: u64,
}

impl View for FullTrack {
    type V = FullTrackView;

    open spec fn view(&self) -> FullTrackView {
        FullTrackView {
            id: self.id.deep_view(),
            name: self.name@,
            artists: self.artists.deep_view(),
            album: self.album@,
            duration_ms: self.duration_ms,
        }
    }
}

impl DeepView for FullTrack {
    type V = FullTrackView;

    open spec fn deep_view(&self) -> FullTrackView {
        self@
    }
}

/// A track as it appears in the listing of an album: it names no album.
#[derive(Clone, Debug, PartialEq, Eq)]
pub struct SimplifiedTrack {
    pub id: Option<String>,
    pub name: String,
    pub artists: Vec<SimplifiedArtist>,
    pub duration_ms: u64,
}

/// The view of [`SimplifiedTrack`]: the same, with texts and lists as sequences.
pub struct SimplifiedTrackView {
    pub id: Option<Seq<char>>,
    pub name: Seq<char>,
    pub artists: Seq<SimplifiedArtistView>,
    pub duration_ms: u64,
}

impl View for SimplifiedTrack {
    type V = SimplifiedTrackView;

    open spec fn view(&self) -> SimplifiedTrackView {
        SimplifiedTrackView {
            id: self.id.deep_view(),
            name: self.name@,
            artists: self.artists.deep_view(),
            duration_ms: self.duration_ms,
        }
    }
}

impl DeepView for SimplifiedTrack {
    type V = SimplifiedTrackView;

    open spec fn deep_view(&self) -> SimplifiedTrackView {
        self@
    }
}

/// What an entry of a playlist can play.
#[derive(Clone, Debug, PartialEq, Eq)]
pub enum PlayableItem {
    Track(FullTrack),
    Episode,
}

/// The view of [`PlayableItem`]: the same, with texts and lists as sequences.
pub enum PlayableItemView {
    Track(FullTrackView),
    Episode,
}

impl View for PlayableItem {
    type V = PlayableItemView;

    open spec fn view(&self) -> PlayableItemView {
        match self {
            PlayableItem::Track(track) => PlayableItemView::Track(track@),
            PlayableItem::Episode => PlayableItemView::Episode,
        }
    }
}

impl DeepView for PlayableItem {
    type V = PlayableItemView;

    open spec fn deep_view(&self) -> PlayableItemView {
        self@
    }
}

/// An entry of a playlist. A removed entry plays nothing.
#[derive(Clone, Debug, PartialEq, Eq)]
pub struct PlaylistItem {
    pub track: Option<PlayableItem>,
}

/// The view of [`PlaylistItem`]: the same, with texts and lists as sequences.
pub struct PlaylistItemView {
    pub track: Option<PlayableItemView>,
}

impl View for PlaylistItem {
    type V = PlaylistItemView;

    open spec fn view(&self) -> PlaylistItemView {
        PlaylistItemView { track: self.track.deep_view() }
    }
}

impl DeepView for PlaylistItem {
    type V = PlaylistItemView;

    open spec fn deep_view(&self) -> PlaylistItemView {
        self@
    }
}

/// An entry of the listening history.
#[derive(Clone, Debug, PartialEq, Eq)]
pub struct PlayHistory {
    pub track: FullTrack,
}

/// The view of [`PlayHistory`]: the same, with texts and lists as sequences.
pub struct PlayHistoryView {
    pub track: FullTrackView,
}

impl View for PlayHistory {
    type V = PlayHistoryView;

    open spec fn view(&self) -> PlayHistoryView {
        PlayHistoryView { track: self.track@ }
    }
}

impl DeepView for PlayHistory {
    type V = PlayHistoryView;

    open spec fn deep_view(&self) -> PlayHistoryView {
        self@
    }
}

/// An entry of the user's liked tracks.
#[derive(Clone, Debug, PartialEq, Eq)]
pub struct SavedTrack {
    pub track: FullTrack,
}

/// The view of [`SavedTrack`]: the same, with texts and lists as sequences.
pub struct SavedTrackView {
    pub track: FullTrackView,
}

impl View for SavedTrack {
    type V = SavedTrackView;

    open spec fn view(&self) -> SavedTrackView {
        SavedTrackView { track: self.track@ }
    }
}

impl DeepView for SavedTrack {
    type V = SavedTrackView;

    open spec fn deep_view(&self) -> SavedTrackView {
        self@
    }
}

/// An entry of the user's saved albums.
#[derive(Clone, Debug, PartialEq, Eq)]
pub struct SavedAlbum {
    pub album: FullAlbum,
}

/// The view of [`SavedAlbum`]: the same, with texts and lists as sequences.
pub struct SavedAlbumView {
    pub album: FullAlbumView,
}

impl View for SavedAlbum {
    type V = SavedAlbumView;

    open spec fn view(&self) -> SavedAlbumView {
        SavedAlbumView { album: self.album@ }
    }
}

impl DeepView for SavedAlbum {
    type V = SavedAlbumView;

    open spec fn deep_view(&self) -> SavedAlbumView {
        self@
    }
}

/// A playlist as the catalog returns it, in a listing or by itself. Its
/// entries are paginated and travel separately.
#[derive(Clone, Debug, PartialEq, Eq)]
pub struct PlaylistRecord {
    pub id: String,
    pub name: String,
    pub collaborative: bool,
    pub owner_id: String,
    pub owner_name: Option<String>,
}

/// The view of [`PlaylistRecord`]: the same, with texts and lists as sequences.
pub struct PlaylistRecordView {
    pub id: Seq<char>,
    pub name: Seq<char>,
    pub collaborative: bool,
    pub owner_id: Seq<char>,
    pub owner_name: Option<Seq<char>>,
}

impl View for PlaylistRecord {
    type V = PlaylistRecordView;

    open spec fn view(&self) -> PlaylistRecordView {
        PlaylistRecordView {
            id: self.id@,
            name: self.name@,
            collaborative: self.collaborative,
            owner_id: self.owner_id@,
            owner_name: self.owner_name.deep_view(),
        }
    }
}

impl DeepView for PlaylistRecord {
    type V = PlaylistRecordView;

    open spec fn deep_view(&self) -> PlaylistRecordView {
        self@
    }
}

/// A browse category as the catalog returns it.
#[derive(Clone, Debug, PartialEq, Eq)]
pub struct CategoryRecord {
    pub id: String,
    pub name: String,
}

/// The view of [`CategoryRecord`]: the same, with texts and lists as sequences.
pub struct CategoryRecordView {
    pub id: Seq<char>,
    pub name: Seq<char>,
}

impl View for CategoryRecord {
    type V = CategoryRecordView;

    open spec fn view(&self) -> CategoryRecordView {
        CategoryRecordView { id: self.id@, name: self.name@ }
    }
}

impl DeepView for CategoryRecord {
    type V = CategoryRecordView;

    open spec fn deep_view(&self) -> CategoryRecordView {
        self@
    }
}

/// The kind of record that a catalog search asks for.
#[derive(Clone, Copy, Debug, PartialEq, Eq, Structural)]
pub enum SearchType {
    Track,
    Artist,
    Album,
    Playlist,
}

/// What a catalog search returned: the items of its page, under the kind that
/// the catalog says they are.
#[derive(Clone, Debug, PartialEq, Eq)]
pub enum SearchResult {
    Tracks(Vec<FullTrack>),
    Artists(Vec<FullArtist>),
    Albums(Vec<SimplifiedAlbum>),
    Playlists(Vec<PlaylistRecord>),
    Shows,
    Episodes,
}

/// The view of [`SearchResult`]: the same, with texts and lists as sequences.
pub enum SearchResultView {
    Tracks(Seq<FullTrackView>),
    Artists(Seq<FullArtistView>),
    Albums(Seq<SimplifiedAlbumView>),
    Playlists(Seq<PlaylistRecordView>),
    Shows,
    Episodes,
}

impl View for SearchResult {
    type V = SearchResultView;

    open spec fn view(&self) -> SearchResultView {
        match self {
            SearchResult::Tracks(items) => SearchResultView::Tracks(items.deep_view()),
            SearchResult::Artists(items) => SearchResultView::Artists(items.deep_view()),
            SearchResult::Albums(items) => SearchResultView::Albums(items.deep_view()),
            SearchResult::Playlists(items) => SearchResultView::Playlists(items.deep_view()),
            SearchResult::Shows => SearchResultView::Shows,
            SearchResult::Episodes => SearchResultView::Episodes,
        }
    }
}

impl DeepView for SearchResult {
    type V = SearchResultView;

    open spec fn deep_view(&self) -> SearchResultView {
        self@
    }
}

} // verus!
