//! Planning of playlist edits: which requests go to the catalog, in which
//! order and with which positions.
//!
//! The catalog lets a track stand in a playlist more than once. Adding a
//! track therefore first removes every occurrence of it, so that afterwards
//! it stands there once. The requests of a plan are issued in order, and the
//! first that fails ends the edit.

use vstd::prelude::*;

verus! {

/// The position that the catalog's reorder request calls "insert before",
/// for an item at `range_start` that is to end up at `insert_index`.
///
/// Taking the item out shifts every later item, so a target behind it is one
/// further on.
pub open spec fn insert_before_position(insert_index: int, range_start: int) -> int {
    if insert_index > range_start {
        insert_index + 1
    } else {
        insert_index
    }
}

/// A reorder in the integer widths of the catalog API.
#[derive(Clone, Copy, Debug, PartialEq, Eq, Structural)]
pub struct ReorderRequest {
    pub range_start: i32,
    pub insert_before: i32,
    pub range_length: Option<u32>,
}

/// The length of the range as a number, where one is given.
pub open spec fn length_given(range_length: Option<usize>) -> Option<int> {
    match range_length {
        Some(length) => Some(length as int),
        None => None,
    }
}

/// Whether a reorder of these positions can be written in the catalog's
/// integer widths.
pub open spec fn reorder_fits(insert_index: int, range_start: int, range_length: Option<int>) -> bool {
    &&& range_start <= i32::MAX
    &&& insert_before_position(insert_index, range_start) <= i32::MAX
    &&& (range_length matches Some(length) ==> length <= u32::MAX)
}

/// The reorder request for these positions.
pub open spec fn reorder_of(insert_index: int, range_start: int, range_length: Option<int>) -> ReorderRequest {
    ReorderRequest {
        range_start: range_start as i32,
        insert_before: insert_before_position(insert_index, range_start) as i32,
        range_length: match range_length {
            Some(length) => Some(length as u32),
            None => None,
        },
    }
}

/// Computes the reorder request that moves the range at `range_start` to
/// `insert_index`; there is none where a position does not fit the catalog's
/// integer widths.
pub fn reorder_request(insert_index: usize, range_start: usize, range_length: Option<usize>) -> (request:
    Option<ReorderRequest>)
    ensures
        request is Some <==> reorder_fits(
            insert_index as int,
            range_start as int,
            length_given(range_length),
        ),
        request matches Some(r) ==> r == reorder_of(
            insert_index as int,
            range_start as int,
            length_given(range_length),
        ),
{
    if range_start > 0x7fff_ffff || insert_index > 0x7fff_ffff {
        return None;
    }
    let insert_before: usize = if insert_index > range_start {
        insert_index + 1
    } else {
        insert_index
    };
    if insert_before > 0x7fff_ffff {
        return None;
    }
    let length: Option<u32> = match range_length {
        Some(length) => {
            if length > 0xffff_ffff {
                return None;
            }
            Some(length as u32)
        },
        None => None,
    };
    Some(
        ReorderRequest {
            range_start: range_start as i32,
            insert_before: insert_before as i32,
            range_length: length,
        },
    )
}

/// A request of a playlist edit.
#[derive(Clone, Debug, PartialEq, Eq)]
pub enum PlaylistRequest {
    /// Remove every occurrence of the track from the playlist.
    RemoveAllOccurrences { playlist_id: String, track_id: String },
    /// Add the track at the end of the playlist.
    AddItem { playlist_id: String, track_id: String },
    /// Move a range of the playlist, against the given snapshot if there is one.
    Reorder { playlist_id: String, request: ReorderRequest, snapshot_id: Option<String> },
}

/// The view of [`PlaylistRequest`]: the same, with texts and lists as sequences.
pub enum PlaylistRequestView {
    RemoveAllOccurrences { playlist_id: Seq<char>, track_id: Seq<char> },
    AddItem { playlist_id: Seq<char>, track_id: Seq<char> },
    Reorder { playlist_id: Seq<char>, request: ReorderRequest, snapshot_id: Option<Seq<char>> },
}

impl View for PlaylistRequest {
    type V = PlaylistRequestView;

    open spec fn view(&self) -> PlaylistRequestView {
        match self {
            PlaylistRequest::RemoveAllOccurrences { playlist_id, track_id } => {
                PlaylistRequestView::RemoveAllOccurrences {
                    playlist_id: playlist_id@,
                    track_id: track_id@,
                }
            },
            PlaylistRequest::AddItem { playlist_id, track_id } => PlaylistRequestView::AddItem {
                playlist_id: playlist_id@,
                track_id: track_id@,
            },
            PlaylistRequest::Reorder { playlist_id, request, snapshot_id } => {
                PlaylistRequestView::Reorder {
                    playlist_id: playlist_id@,
                    request: *request,
                    snapshot_id: snapshot_id.deep_view(),
                }
            },
        }
    }
}

impl DeepView for PlaylistRequest {
    type V = PlaylistRequestView;

    open spec fn deep_view(&self) -> PlaylistRequestView {
        self@
    }
}

/// The requests that add a track to a playlist: remove, then add.
pub open spec fn add_track_plan(playlist_id: Seq<char>, track_id: Seq<char>) -> Seq<
    PlaylistRequestView,
> {
    seq![
        PlaylistRequestView::RemoveAllOccurrences { playlist_id, track_id },
        PlaylistRequestView::AddItem { playlist_id, track_id },
    ]
}

/// The requests that delete a track from a playlist.
pub open spec fn delete_track_plan(playlist_id: Seq<char>, track_id: Seq<char>) -> Seq<
    PlaylistRequestView,
> {
    seq![PlaylistRequestView::RemoveAllOccurrences { playlist_id, track_id }]
}

/// Plans the adding of a track to a playlist.
pub fn plan_add_track(playlist_id: &str, track_id: &str) -> (plan: Vec<PlaylistRequest>)
    ensures
        plan.deep_view() == add_track_plan(playlist_id@, track_id@),
{
    let mut plan: Vec<PlaylistRequest> = Vec::new();
    plan.push(
        PlaylistRequest::RemoveAllOccurrences {
            playlist_id: playlist_id.to_owned(),
            track_id: track_id.to_owned(),
        },
    );
    plan.push(
        PlaylistRequest::AddItem {
            playlist_id: playlist_id.to_owned(),
            track_id: track_id.to_owned(),
        },
    );
    assert(plan.deep_view() =~= add_track_plan(playlist_id@, track_id@));
    plan
}

/// Plans the deleting of a track from a playlist.
pub fn plan_delete_track(playlist_id: &str, track_id: &str) -> (plan: Vec<PlaylistRequest>)
    ensures
        plan.deep_view() == delete_track_plan(playlist_id@, track_id@),
{
    let mut plan: Vec<PlaylistRequest> = Vec::new();
    plan.push(
        PlaylistRequest::RemoveAllOccurrences {
            playlist_id: playlist_id.to_owned(),
            track_id: track_id.to_owned(),
        },
    );
    assert(plan.deep_view() =~= delete_track_plan(playlist_id@, track_id@));
    plan
}

/// The tracks of a playlist after the catalog moved the `length` items from
/// position `start` before what stood at position `before`.
pub open spec fn moved(tracks: Seq<Seq<char>>, start: int, before: int, length: int) -> Seq<Seq<char>>
    recommends
        0 <= start,
        0 <= length,
        start + length <= tracks.len(),
        0 <= before <= tracks.len(),
        before <= start || start + length <= before,
{
    let range = tracks.subrange(start, start + length);
    if before <= start {
        tracks.take(before) + range + tracks.subrange(before, start) + tracks.skip(start + length)
    } else {
        tracks.take(start) + tracks.subrange(start + length, before) + range + tracks.skip(before)
    }
}

/// The tracks of a playlist after the catalog carried out a request on it.
pub open spec fn carried_out(tracks: Seq<Seq<char>>, request: PlaylistRequestView) -> Seq<Seq<char>> {
    match request {
        PlaylistRequestView::RemoveAllOccurrences { track_id, .. } => tracks.filter(
            |t: Seq<char>| t != track_id,
        ),
        PlaylistRequestView::AddItem { track_id, .. } => tracks.push(track_id),
        PlaylistRequestView::Reorder { request, .. } => moved(
            tracks,
            request.range_start as int,
            request.insert_before as int,
            match request.range_length {
                Some(length) => length as int,
                None => 1,
            },
        ),
    }
}

/// The tracks of a playlist after the catalog carried out a plan on it,
/// request by request.
pub open spec fn carried_out_all(tracks: Seq<Seq<char>>, plan: Seq<PlaylistRequestView>) -> Seq<
    Seq<char>,
>
    decreases plan.len(),
{
    if plan.len() == 0 {
        tracks
    } else {
        carried_out(carried_out_all(tracks, plan.drop_last()), plan.last())
    }
}

/// After a track was added, it stands in the playlist once, at the end; what
/// else stood there stands there as before.
pub proof fn lemma_added_track_stands_once(
    tracks: Seq<Seq<char>>,
    playlist_id: Seq<char>,
    track_id: Seq<char>,
)
    ensures
        carried_out_all(tracks, add_track_plan(playlist_id, track_id)) == tracks.filter(
            |t: Seq<char>| t != track_id,
        ).push(track_id),
        tracks.filter(|t: Seq<char>| t != track_id).push(track_id).filter(
            |t: Seq<char>| t == track_id,
        ) == seq![track_id],
{
    let plan = add_track_plan(playlist_id, track_id);
    let others = |t: Seq<char>| t != track_id;
    let same = |t: Seq<char>| t == track_id;
    reveal_with_fuel(carried_out_all, 3);
    assert(plan.drop_last() =~= seq![plan[0]]);
    assert(plan.drop_last().drop_last() =~= Seq::empty());
    let kept = tracks.filter(others);
    assert(kept.filter(same) =~= Seq::empty()) by {
        kept.lemma_filter_len(same);
        if kept.filter(same).len() > 0 {
            let x = kept.filter(same)[0];
            kept.lemma_filter_pred(same, 0);
            assert(kept.filter(same).contains(x));
            kept.lemma_filter_contains_rev(same, x);
            tracks.lemma_filter_contains_rev(others, x);
            let i = choose|i: int| 0 <= i < kept.len() && kept[i] == x;
            tracks.lemma_filter_pred(others, i);
        }
    }
    kept.lemma_filter_push(track_id, same);
    assert(Seq::<Seq<char>>::empty().push(track_id) =~= seq![track_id]);
}

/// After a track was deleted, it stands nowhere in the playlist.
pub proof fn lemma_deleted_track_is_gone(
    tracks: Seq<Seq<char>>,
    playlist_id: Seq<char>,
    track_id: Seq<char>,
)
    ensures
        !carried_out_all(tracks, delete_track_plan(playlist_id, track_id)).contains(track_id),
{
    let plan = delete_track_plan(playlist_id, track_id);
    let others = |t: Seq<char>| t != track_id;
    reveal_with_fuel(carried_out_all, 2);
    assert(plan.drop_last() =~= Seq::empty());
    let kept = tracks.filter(others);
    if kept.contains(track_id) {
        let i = choose|i: int| 0 <= i < kept.len() && kept[i] == track_id;
        tracks.lemma_filter_pred(others, i);
    }
}

/// The correction of the index is what puts a moved item where it was
/// meant to go: the item from `range_start`, moved before the corrected
/// position, ends up at `insert_index`.
pub proof fn lemma_moved_item_lands_at_index(tracks: Seq<Seq<char>>, insert_index: int, range_start: int)
    requires
        0 <= range_start < tracks.len(),
        0 <= insert_index < tracks.len(),
    ensures
        moved(tracks, range_start, insert_before_position(insert_index, range_start), 1).len()
            == tracks.len(),
        moved(tracks, range_start, insert_before_position(insert_index, range_start), 1)[insert_index]
            == tracks[range_start],
{
}

} // verus!
