//! Reconciling what the catalog returned: the listening history without
//! repeated tracks, and the discography of an artist with one release per
//! album name.

use vstd::prelude::*;
use crate::dates::{
    date_le, lemma_date_le_reflexive, lemma_date_le_total, lemma_date_le_transitive, release_date_le,
};
use crate::model::{Album, AlbumView, Track, TrackView, track_of, tracks_of};
use crate::seqs::{
    has_key, keep_first, lemma_keep_first_distinct, lemma_keep_first_earliest,
    lemma_keep_first_in_order, lemma_keep_first_keys, lemma_keep_first_push,
};
use crate::upstream::{FullTrackView, PlayHistory, PlayHistoryView};

verus! {

/// The key by which tracks of the listening history count as the same: the name.
pub open spec fn by_track_name() -> spec_fn(TrackView) -> Seq<char> {
    |t: TrackView| t.name
}

/// The key by which albums of a discography count as the same: the name.
pub open spec fn by_album_name() -> spec_fn(AlbumView) -> Seq<char> {
    |a: AlbumView| a.name
}

/// The tracks that the entries of a listening history name, in order.
pub open spec fn history_tracks(histories: Seq<PlayHistoryView>) -> Seq<FullTrackView> {
    histories.map_values(|h: PlayHistoryView| h.track)
}

/// The recently played tracks: the tracks of the history that convert, in the
/// order received, each name only where it first occurs.
pub open spec fn recently_played(histories: Seq<PlayHistoryView>) -> Seq<TrackView> {
    keep_first(tracks_of(history_tracks(histories)), by_track_name())
}

fn has_track_named(tracks: &Vec<Track>, name: &String) -> (found: bool)
    ensures
        found == has_key(tracks.deep_view(), by_track_name(), name@),
{
    let mut i: usize = 0;
    while i < tracks.len()
        invariant
            i <= tracks.len(),
            forall|k: int| 0 <= k < i ==> (#[trigger] tracks.deep_view()[k]).name != name@,
        decreases tracks.len() - i,
    {
        if tracks[i].name == *name {
            assert(tracks.deep_view()[i as int].name == name@);
            return true;
        }
        i += 1;
    }
    false
}

fn has_album_named(albums: &Vec<Album>, name: &String) -> (found: bool)
    ensures
        found == has_key(albums.deep_view(), by_album_name(), name@),
{
    let mut i: usize = 0;
    while i < albums.len()
        invariant
            i <= albums.len(),
            forall|k: int| 0 <= k < i ==> (#[trigger] albums.deep_view()[k]).name != name@,
        decreases albums.len() - i,
    {
        if albums[i].name == *name {
            assert(albums.deep_view()[i as int].name == name@);
            return true;
        }
        i += 1;
    }
    false
}

/// Turns a listening history into the recently played tracks.
///
/// A track is dropped when a track of the same name was already taken, or
/// when it does not convert.
pub fn dedup_recently_played(histories: Vec<PlayHistory>) -> (tracks: Vec<Track>)
    ensures
        tracks.deep_view() == recently_played(histories.deep_view()),
{
    let ghost views = histories.deep_view();
    let ghost raw = history_tracks(views);
    let mut tracks: Vec<Track> = Vec::new();
    for history in it: histories
        invariant
            raw == history_tracks(views),
            it.seq().len() == views.len(),
            forall|k: int| 0 <= k < views.len() ==> (#[trigger] it.seq()[k])@ == views[k],
            tracks.deep_view() == keep_first(
                tracks_of(raw.take(it.index() as int)),
                by_track_name(),
            ),
    {
        let ghost seen = tracks_of(raw.take(it.index() as int));
        let ghost before = tracks.deep_view();
        proof {
            raw.lemma_filter_map_take_succ(|t: FullTrackView| track_of(t), it.index() as int);
            lemma_keep_first_keys(seen, by_track_name(), history@.track.name);
            match track_of(history@.track) {
                Some(t) => {
                    lemma_keep_first_push(seen, t, by_track_name());
                    assert(seen + seq![t] =~= seen.push(t));
                },
                None => {},
            }
        }
        if !has_track_named(&tracks, &history.track.name) {
            match Track::try_from_full_track(history.track) {
                Some(track) => {
                    tracks.push(track);
                    assert(tracks.deep_view() =~= before.push(track@));
                },
                None => {},
            }
        }
    }
    assert(raw.take(views.len() as int) =~= raw);
    tracks
}

/// Whether album `a` was released no later than album `b`.
pub open spec fn released_no_later(a: AlbumView, b: AlbumView) -> bool {
    date_le(a.release_date, b.release_date)
}

/// Where `a` goes into `s`, which is ordered by release: behind the last
/// album that was released no later than `a`.
pub open spec fn insertion_point(s: Seq<AlbumView>, a: AlbumView) -> int
    decreases s.len(),
{
    if s.len() == 0 {
        0
    } else if released_no_later(s.last(), a) {
        s.len() as int
    } else {
        insertion_point(s.drop_last(), a)
    }
}

/// The albums ordered by release date, earliest first; albums of one date
/// keep the order they came in.
pub open spec fn sort_by_release(s: Seq<AlbumView>) -> Seq<AlbumView>
    decreases s.len(),
{
    if s.len() == 0 {
        Seq::empty()
    } else {
        let init = sort_by_release(s.drop_last());
        init.insert(insertion_point(init, s.last()), s.last())
    }
}

/// The discography made of the given albums: latest release first, and of the
/// albums that share a name only the one released last.
pub open spec fn merged_albums(s: Seq<AlbumView>) -> Seq<AlbumView> {
    keep_first(sort_by_release(s).reverse(), by_album_name())
}

proof fn lemma_insertion_point_found(s: Seq<AlbumView>, a: AlbumView, p: int)
    requires
        0 <= p <= s.len(),
        forall|k: int| p <= k < s.len() ==> !released_no_later(#[trigger] s[k], a),
        p == 0 || released_no_later(s[p - 1], a),
    ensures
        insertion_point(s, a) == p,
    decreases s.len(),
{
    if s.len() > 0 && p < s.len() {
        assert(!released_no_later(s[s.len() - 1], a));
        lemma_insertion_point_found(s.drop_last(), a, p);
    }
}

/// Orders albums by release date, earliest first, keeping the order of
/// albums that share a date.
pub fn sort_by_release_date(albums: Vec<Album>) -> (sorted: Vec<Album>)
    ensures
        sorted.deep_view() == sort_by_release(albums.deep_view()),
{
    let ghost views = albums.deep_view();
    let mut sorted: Vec<Album> = Vec::new();
    for album in it: albums
        invariant
            it.seq().len() == views.len(),
            forall|k: int| 0 <= k < views.len() ==> (#[trigger] it.seq()[k])@ == views[k],
            sorted.deep_view() == sort_by_release(views.take(it.index() as int)),
    {
        let ghost before = sorted.deep_view();
        let mut p: usize = sorted.len();
        while p > 0 && !release_date_le(
            sorted[p - 1].release_date.as_str(),
            album.release_date.as_str(),
        )
            invariant
                p <= sorted.len(),
                before == sorted.deep_view(),
                forall|k: int|
                    p <= k < sorted.len() ==> !released_no_later(#[trigger] before[k], album@),
            decreases p,
        {
            p -= 1;
        }
        sorted.insert(p, album);
        proof {
            lemma_insertion_point_found(before, album@, p as int);
            assert(sorted.deep_view() =~= before.insert(p as int, album@));
            let grown = views.take(it.index() as int + 1);
            assert(grown.drop_last() =~= views.take(it.index() as int));
        }
    }
    assert(views.take(views.len() as int) =~= views);
    sorted
}

/// Merges the albums of an artist into a discography: orders them by release
/// date and keeps, of the albums that share a name, the one released last.
/// The result lists the latest release first.
pub fn process_artist_albums(albums: Vec<Album>) -> (merged: Vec<Album>)
    ensures
        merged.deep_view() == merged_albums(albums.deep_view()),
{
    let mut sorted = sort_by_release_date(albums);
    let ghost all = sorted.deep_view();
    let ghost latest_first = all.reverse();
    let mut merged: Vec<Album> = Vec::new();
    while sorted.len() > 0
        invariant
            latest_first == all.reverse(),
            sorted.len() <= all.len(),
            sorted.deep_view() == all.take(sorted.len() as int),
            merged.deep_view() == keep_first(
                latest_first.take(all.len() - sorted.len()),
                by_album_name(),
            ),
        decreases sorted.len(),
    {
        let ghost taken = latest_first.take(all.len() - sorted.len());
        let ghost before = merged.deep_view();
        let ghost rest = sorted.deep_view();
        let album = sorted.pop().unwrap();
        proof {
            assert(album@ == rest[rest.len() - 1]);
            assert(album@ == latest_first[all.len() - rest.len()]);
            assert(latest_first.take(all.len() - rest.len() + 1) =~= taken.push(album@));
            lemma_keep_first_push(taken, album@, by_album_name());
            lemma_keep_first_keys(taken, by_album_name(), album@.name);
            assert(sorted.deep_view() =~= all.take(sorted.len() as int));
        }
        if !has_album_named(&merged, &album.name) {
            merged.push(album);
            assert(merged.deep_view() =~= before.push(album@));
        }
    }
    assert(latest_first.take(all.len() as int) =~= latest_first);
    merged
}

/// Whether the albums stand in the order of their release dates, earliest first.
pub open spec fn sorted_by_release(s: Seq<AlbumView>) -> bool {
    forall|i: int, j: int| 0 <= i < j < s.len() ==> released_no_later(#[trigger] s[i], #[trigger] s[j])
}

proof fn lemma_insertion_point(s: Seq<AlbumView>, a: AlbumView)
    ensures
        0 <= insertion_point(s, a) <= s.len(),
        insertion_point(s, a) == 0 || released_no_later(s[insertion_point(s, a) - 1], a),
        forall|k: int|
            insertion_point(s, a) <= k < s.len() ==> !released_no_later(#[trigger] s[k], a),
    decreases s.len(),
{
    if s.len() > 0 && !released_no_later(s.last(), a) {
        let init = s.drop_last();
        lemma_insertion_point(init, a);
        assert forall|k: int| insertion_point(s, a) <= k < s.len() implies !released_no_later(
            #[trigger] s[k],
            a,
        ) by {
            if k < init.len() {
                assert(s[k] == init[k]);
            }
        }
    }
}

/// `sort_by_release` puts the albums in the order of their release dates.
pub proof fn lemma_sort_by_release_sorted(s: Seq<AlbumView>)
    ensures
        sorted_by_release(sort_by_release(s)),
    decreases s.len(),
{
    if s.len() > 0 {
        let init = sort_by_release(s.drop_last());
        let a = s.last();
        let p = insertion_point(init, a);
        let out = init.insert(p, a);
        lemma_sort_by_release_sorted(s.drop_last());
        lemma_insertion_point(init, a);
        assert forall|i: int, j: int| 0 <= i < j < out.len() implies released_no_later(
            #[trigger] out[i],
            #[trigger] out[j],
        ) by {
            if j < p {
                assert(out[i] == init[i] && out[j] == init[j]);
            } else if j == p {
                assert(out[i] == init[i]);
                if i < p - 1 {
                    assert(released_no_later(init[i], init[p - 1]));
                } else {
                    lemma_date_le_reflexive(init[i].release_date);
                }
                lemma_date_le_transitive(
                    init[i].release_date,
                    init[p - 1].release_date,
                    a.release_date,
                );
            } else if i == p {
                assert(out[j] == init[j - 1]);
                lemma_date_le_total(a.release_date, init[j - 1].release_date);
            } else if i < p {
                assert(out[i] == init[i] && out[j] == init[j - 1]);
            } else {
                assert(out[i] == init[i - 1] && out[j] == init[j - 1]);
            }
        }
    }
}

/// `sort_by_release` returns the albums it was given, each as often as it
/// was given.
pub proof fn lemma_sort_by_release_permutes(s: Seq<AlbumView>)
    ensures
        sort_by_release(s).to_multiset() == s.to_multiset(),
        sort_by_release(s).len() == s.len(),
    decreases s.len(),
{
    broadcast use vstd::seq_lib::to_multiset_insert, vstd::seq_lib::to_multiset_build;

    if s.len() > 0 {
        let init = sort_by_release(s.drop_last());
        lemma_sort_by_release_permutes(s.drop_last());
        lemma_insertion_point(init, s.last());
        assert(s.drop_last().push(s.last()) =~= s);
    } else {
        assert(sort_by_release(s) =~= s);
    }
}

/// `sort_by_release` keeps the order of the albums that share a release date.
pub proof fn lemma_sort_by_release_stable(s: Seq<AlbumView>, date: Seq<char>)
    ensures
        sort_by_release(s).filter(|a: AlbumView| a.release_date == date) == s.filter(
            |a: AlbumView| a.release_date == date,
        ),
    decreases s.len(),
{
    let on_date = |a: AlbumView| a.release_date == date;
    if s.len() > 0 {
        let init = sort_by_release(s.drop_last());
        let a = s.last();
        let p = insertion_point(init, a);
        lemma_sort_by_release_stable(s.drop_last(), date);
        lemma_insertion_point(init, a);
        let front = init.take(p);
        let back = init.skip(p);
        assert(init =~= front + back);
        assert(init.insert(p, a) =~= front.push(a) + back);
        Seq::filter_distributes_over_add(front, back, on_date);
        Seq::filter_distributes_over_add(front.push(a), back, on_date);
        front.lemma_filter_push(a, on_date);
        s.drop_last().lemma_filter_push(a, on_date);
        assert(s.drop_last().push(a) =~= s);
        if on_date(a) {
            assert forall|k: int| 0 <= k < back.len() implies !on_date(#[trigger] back[k]) by {
                assert(back[k] == init[p + k]);
                lemma_date_le_reflexive(date);
            }
            lemma_filter_none(back, on_date);
            assert(init.filter(on_date) =~= front.filter(on_date));
        }
    } else {
        assert(sort_by_release(s) =~= s);
    }
}

proof fn lemma_filter_none(s: Seq<AlbumView>, pred: spec_fn(AlbumView) -> bool)
    requires
        forall|k: int| 0 <= k < s.len() ==> !pred(#[trigger] s[k]),
    ensures
        s.filter(pred) == Seq::<AlbumView>::empty(),
    decreases s.len(),
{
    reveal(Seq::filter);
    if s.len() > 0 {
        assert(!pred(s[s.len() - 1]));
        lemma_filter_none(s.drop_last(), pred);
    }
}

/// In a discography no two albums share a name.
pub proof fn lemma_merged_albums_distinct_names(s: Seq<AlbumView>)
    ensures
        forall|i: int, j: int|
            0 <= i < j < merged_albums(s).len() ==> (#[trigger] merged_albums(s)[i]).name != (
            #[trigger] merged_albums(s)[j]).name,
{
    lemma_keep_first_distinct(sort_by_release(s).reverse(), by_album_name());
}

/// A discography lists its albums latest release first, and every album in
/// it is one of the albums it was made from.
pub proof fn lemma_merged_albums_latest_first(s: Seq<AlbumView>)
    ensures
        forall|i: int, j: int|
            0 <= i < j < merged_albums(s).len() ==> released_no_later(
                #[trigger] merged_albums(s)[j],
                #[trigger] merged_albums(s)[i],
            ),
        forall|i: int| 0 <= i < merged_albums(s).len() ==> s.contains(#[trigger] merged_albums(s)[i]),
{
    broadcast use vstd::seq_lib::to_multiset_contains;

    let sorted = sort_by_release(s);
    let latest_first = sorted.reverse();
    let merged = merged_albums(s);
    lemma_sort_by_release_sorted(s);
    lemma_sort_by_release_permutes(s);
    let at = lemma_keep_first_in_order(latest_first, by_album_name());
    assert forall|i: int, j: int| 0 <= i < j < merged.len() implies released_no_later(
        #[trigger] merged[j],
        #[trigger] merged[i],
    ) by {
        assert(at[i] < at[j]);
        assert(merged[i] == sorted[sorted.len() - 1 - at[i]]);
        assert(merged[j] == sorted[sorted.len() - 1 - at[j]]);
    }
    assert forall|i: int| 0 <= i < merged.len() implies s.contains(#[trigger] merged[i]) by {
        assert(merged[i] == sorted[sorted.len() - 1 - at[i]]);
        assert(sorted.contains(merged[i]));
        assert(sorted.to_multiset().count(merged[i]) > 0);
    }
}

/// Of the albums that share a name the most recent release wins: for every
/// album given, the discography holds an album of that name that was released
/// no earlier.
pub proof fn lemma_latest_release_wins(s: Seq<AlbumView>, i: int) -> (k: int)
    requires
        0 <= i < s.len(),
    ensures
        0 <= k < merged_albums(s).len(),
        merged_albums(s)[k].name == s[i].name,
        released_no_later(s[i], merged_albums(s)[k]),
{
    broadcast use vstd::seq_lib::to_multiset_contains;

    let sorted = sort_by_release(s);
    let latest_first = sorted.reverse();
    let merged = merged_albums(s);
    lemma_sort_by_release_sorted(s);
    lemma_sort_by_release_permutes(s);
    assert(s.contains(s[i]));
    assert(s.to_multiset().count(s[i]) > 0);
    assert(sorted.contains(s[i]));
    let u = choose|u: int| 0 <= u < sorted.len() && sorted[u] == s[i];
    let v = sorted.len() - 1 - u;
    assert(latest_first[v] == s[i]);
    let first = lemma_keep_first_earliest(latest_first, by_album_name(), v);
    let k = choose|k: int| 0 <= k < merged.len() && merged[k] == latest_first[first];
    assert(latest_first[first] == sorted[sorted.len() - 1 - first]);
    if first == v {
        lemma_date_le_reflexive(s[i].release_date);
    }
    k
}

/// Among the recently played tracks no two share a name.
pub proof fn lemma_recently_played_distinct_names(histories: Seq<PlayHistoryView>)
    ensures
        forall|i: int, j: int|
            0 <= i < j < recently_played(histories).len() ==> (#[trigger] recently_played(
                histories,
            )[i]).name != (#[trigger] recently_played(histories)[j]).name,
{
    lemma_keep_first_distinct(tracks_of(history_tracks(histories)), by_track_name());
}

/// The first occurrence wins: a track of the history that converts, and
/// whose name no earlier track that converts has, is among the recently
/// played tracks.
pub proof fn lemma_recently_played_first_wins(histories: Seq<PlayHistoryView>, i: int)
    requires
        0 <= i < tracks_of(history_tracks(histories)).len(),
        forall|j: int|
            0 <= j < i ==> (#[trigger] tracks_of(history_tracks(histories))[j]).name != tracks_of(
                history_tracks(histories),
            )[i].name,
    ensures
        recently_played(histories).contains(tracks_of(history_tracks(histories))[i]),
{
    let first = lemma_keep_first_earliest(tracks_of(history_tracks(histories)), by_track_name(), i);
}

} // verus!
