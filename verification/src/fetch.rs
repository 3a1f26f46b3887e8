//! What happens to a catalog request on its way out and to its answer on its
//! way in: the bearer credential, the check of the status, and the patch of
//! the body that every answer gets before it is decoded.
//!
//! The catalog is known to send `"images":null` where it should send an
//! empty list. The patch rewrites the text of the body; it does not parse it.

use vstd::prelude::*;
use vstd::string::StrSliceExecFns;
use vstd::string::StringExecFns;
use crate::error::ClientError;

verus! {

/// Whether `pattern` stands in `text` at position `at`.
pub open spec fn occurs_at(text: Seq<char>, pattern: Seq<char>, at: int) -> bool {
    &&& 0 <= at
    &&& at + pattern.len() <= text.len()
    &&& text.subrange(at, at + pattern.len()) == pattern
}

/// `text` from position `from` on, with every occurrence of `pattern`
/// replaced by `with`. Occurrences are found from left to right, and the
/// search goes on behind an occurrence that was replaced.
pub open spec fn replace_from(text: Seq<char>, pattern: Seq<char>, with: Seq<char>, from: int) -> Seq<
    char,
>
    recommends
        pattern.len() > 0,
        0 <= from,
    decreases text.len() - from,
{
    if from >= text.len() {
        Seq::empty()
    } else if pattern.len() > 0 && occurs_at(text, pattern, from) {
        with + replace_from(text, pattern, with, from + pattern.len())
    } else {
        seq![text[from]] + replace_from(text, pattern, with, from + 1)
    }
}

/// The field that the catalog sends in place of an empty list of images.
pub open spec fn null_images() -> Seq<char> {
    "\"images\":null"@
}

/// The field as it should have been sent.
pub open spec fn empty_images() -> Seq<char> {
    "\"images\":[]"@
}

/// The body of an answer with every null list of images made an empty list.
pub open spec fn patch_images(text: Seq<char>) -> Seq<char> {
    replace_from(text, null_images(), empty_images(), 0)
}

proof fn lemma_image_fields()
    ensures
        null_images() =~= seq!['"', 'i', 'm', 'a', 'g', 'e', 's', '"', ':', 'n', 'u', 'l', 'l'],
        empty_images() =~= seq!['"', 'i', 'm', 'a', 'g', 'e', 's', '"', ':', '[', ']'],
{
    reveal_strlit("\"images\":null");
    reveal_strlit("\"images\":[]");
}

/// If a proper end of the null field stands at the start of what is left of a
/// patched text, it stood at the same place before the patch.
proof fn lemma_patched_keeps_tail(text: Seq<char>, from: int, j: int)
    requires
        0 <= from,
        1 <= j < 13,
        replace_from(text, null_images(), empty_images(), from).len() >= 13 - j,
        forall|k: int|
            0 <= k < 13 - j ==> #[trigger] replace_from(text, null_images(), empty_images(), from)[k]
                == null_images()[j + k],
    ensures
        from + 13 - j <= text.len(),
        forall|k: int| 0 <= k < 13 - j ==> #[trigger] text[from + k] == null_images()[j + k],
    decreases text.len() - from,
{
    lemma_image_fields();
    let pattern = null_images();
    let with = empty_images();
    let out = replace_from(text, pattern, with, from);
    assert(out[0] == pattern[j]);
    if from >= text.len() {
    } else if occurs_at(text, pattern, from) {
        assert(out[0] == with[0]);
        assert(j == 7);
        assert(out[1] == with[1]);
        assert(out[1] == pattern[j + 1]);
    } else {
        let rest = replace_from(text, pattern, with, from + 1);
        assert(out[0] == text[from]);
        if j + 1 < 13 {
            assert forall|k: int| 0 <= k < 13 - (j + 1) implies #[trigger] rest[k] == pattern[j + 1
                + k] by {
                assert(out[k + 1] == rest[k]);
                assert(out[k + 1] == pattern[j + (k + 1)]);
            }
            lemma_patched_keeps_tail(text, from + 1, j + 1);
            assert forall|k: int| 0 <= k < 13 - j implies #[trigger] text[from + k] == pattern[j
                + k] by {
                if k > 0 {
                    assert(text[(from + 1) + (k - 1)] == pattern[(j + 1) + (k - 1)]);
                }
            }
        }
    }
}

/// The null field stands nowhere in a patched text.
proof fn lemma_patched_has_no_null(text: Seq<char>, from: int, at: int)
    requires
        0 <= from,
    ensures
        !occurs_at(replace_from(text, null_images(), empty_images(), from), null_images(), at),
    decreases text.len() - from,
{
    lemma_image_fields();
    let pattern = null_images();
    let with = empty_images();
    let out = replace_from(text, pattern, with, from);
    if occurs_at(out, pattern, at) {
        assert forall|k: int| 0 <= k < 13 implies out[at + k] == #[trigger] pattern[k] by {
            assert(out.subrange(at, at + 13)[k] == pattern[k]);
        }
        if from >= text.len() {
        } else if occurs_at(text, pattern, from) {
            let rest = replace_from(text, pattern, with, from + 13);
            if at >= 11 {
                lemma_patched_has_no_null(text, from + 13, at - 11);
                assert(rest.subrange(at - 11, at - 11 + 13) =~= out.subrange(at, at + 13));
            } else {
                assert(out[10] == with[10]);
                assert(out[at + (10 - at)] == pattern[10 - at]);
            }
        } else {
            let rest = replace_from(text, pattern, with, from + 1);
            if at >= 1 {
                lemma_patched_has_no_null(text, from + 1, at - 1);
                assert(rest.subrange(at - 1, at - 1 + 13) =~= out.subrange(at, at + 13));
            } else {
                assert(out[0] == text[from]);
                assert forall|k: int| 0 <= k < 12 implies #[trigger] rest[k] == pattern[1 + k] by {
                    assert(out[0 + (k + 1)] == pattern[k + 1]);
                    assert(out[k + 1] == rest[k]);
                }
                lemma_patched_keeps_tail(text, from + 1, 1);
                assert forall|k: int| 0 <= k < 13 implies #[trigger] text[from + k] == pattern[k] by {
                    if k > 0 {
                        assert(text[(from + 1) + (k - 1)] == pattern[1 + (k - 1)]);
                    }
                }
                let found = text.subrange(from, from + 13);
                assert forall|k: int| 0 <= k < 13 implies #[trigger] found[k] == pattern[k] by {
                    assert(text[from + k] == pattern[k]);
                }
                assert(found =~= pattern);
            }
        }
    }
}

/// A text in which the null field stands nowhere is left as it is.
proof fn lemma_nothing_to_patch(text: Seq<char>, from: int)
    requires
        0 <= from <= text.len(),
        forall|at: int| !occurs_at(text, null_images(), at),
    ensures
        replace_from(text, null_images(), empty_images(), from) == text.skip(from),
    decreases text.len() - from,
{
    if from < text.len() {
        lemma_nothing_to_patch(text, from + 1);
        assert(seq![text[from]] + text.skip(from + 1) =~= text.skip(from));
    } else {
        assert(text.skip(from) =~= Seq::empty());
    }
}

/// A patched text holds no null list of images.
pub proof fn lemma_patch_images_leaves_no_null(text: Seq<char>)
    ensures
        forall|at: int| !occurs_at(patch_images(text), null_images(), at),
{
    assert forall|at: int| !occurs_at(patch_images(text), null_images(), at) by {
        lemma_patched_has_no_null(text, 0, at);
    }
}

/// A text that holds no null list of images is left as it is.
pub proof fn lemma_patch_images_keeps_clean_text(text: Seq<char>)
    requires
        forall|at: int| !occurs_at(text, null_images(), at),
    ensures
        patch_images(text) == text,
{
    lemma_nothing_to_patch(text, 0);
    assert(text.skip(0) =~= text);
}

/// The patch is idempotent: a text that has been patched is left as it is by
/// a second patch.
pub proof fn lemma_patch_images_idempotent(text: Seq<char>)
    ensures
        patch_images(patch_images(text)) == patch_images(text),
{
    lemma_patch_images_leaves_no_null(text);
    lemma_patch_images_keeps_clean_text(patch_images(text));
}

fn chars_of(text: &str) -> (chars: Vec<char>)
    ensures
        chars@ == text@,
{
    let mut chars: Vec<char> = Vec::new();
    for c in it: text.chars()
        invariant
            chars@ == it.seq().take(it.index() as int),
            it.seq() == text@,
    {
        chars.push(c);
    }
    chars
}

fn occurs(text: &Vec<char>, pattern: &Vec<char>, at: usize) -> (found: bool)
    requires
        at <= text.len(),
    ensures
        found == occurs_at(text@, pattern@, at as int),
{
    if pattern.len() > text.len() - at {
        return false;
    }
    let mut k: usize = 0;
    while k < pattern.len()
        invariant
            k <= pattern.len(),
            at + pattern.len() <= text.len(),
            forall|i: int| 0 <= i < k ==> text@[at + i] == #[trigger] pattern@[i],
        decreases pattern.len() - k,
    {
        if text[at + k] != pattern[k] {
            assert(text@.subrange(at as int, at + pattern.len())[k as int] != pattern@[k as int]);
            return false;
        }
        k += 1;
    }
    assert(text@.subrange(at as int, at + pattern.len()) =~= pattern@);
    true
}

/// Replaces every occurrence of `pattern` in `text` by `with`.
fn replace_all(text: &str, pattern: &str, with: &str) -> (out: String)
    requires
        pattern@.len() > 0,
    ensures
        out@ == replace_from(text@, pattern@, with@, 0),
{
    let chars = chars_of(text);
    let wanted = chars_of(pattern);
    let mut out = String::new();
    let mut copied: usize = 0;
    let mut at: usize = 0;
    while at < chars.len()
        invariant
            chars@ == text@,
            wanted@ == pattern@,
            wanted.len() > 0,
            copied <= at <= chars.len(),
            forall|k: int| copied <= k < at ==> !occurs_at(text@, pattern@, k),
            out@ + replace_from(text@, pattern@, with@, copied as int) == replace_from(
                text@,
                pattern@,
                with@,
                0,
            ),
        decreases chars.len() - at,
    {
        if occurs(&chars, &wanted, at) {
            proof {
                lemma_copy_unmatched(text@, pattern@, with@, copied as int, at as int);
            }
            out.append(text.substring_char(copied, at));
            out.append(with);
            at = at + wanted.len();
            copied = at;
        } else {
            at = at + 1;
        }
    }
    proof {
        lemma_copy_unmatched(text@, pattern@, with@, copied as int, at as int);
    }
    out.append(text.substring_char(copied, at));
    assert(replace_from(text@, pattern@, with@, at as int) =~= Seq::empty());
    out
}

/// Where the pattern stands nowhere between two positions, the text between
/// them is kept.
proof fn lemma_copy_unmatched(
    text: Seq<char>,
    pattern: Seq<char>,
    with: Seq<char>,
    from: int,
    to: int,
)
    requires
        0 <= from <= to <= text.len(),
        forall|k: int| from <= k < to ==> !occurs_at(text, pattern, k),
    ensures
        replace_from(text, pattern, with, from) == text.subrange(from, to) + replace_from(
            text,
            pattern,
            with,
            to,
        ),
    decreases to - from,
{
    if from < to {
        lemma_copy_unmatched(text, pattern, with, from + 1, to);
        assert(seq![text[from]] + text.subrange(from + 1, to) =~= text.subrange(from, to));
    } else {
        assert(text.subrange(from, to) =~= Seq::empty());
    }
}

/// Patches the body of a catalog answer: every `"images":null` becomes
/// `"images":[]`. Nothing else changes.
pub fn process_spotify_api_response(text: &str) -> (patched: String)
    ensures
        patched@ == patch_images(text@),
{
    proof {
        lemma_image_fields();
    }
    replace_all(text, "\"images\":null", "\"images\":[]")
}

/// Whether a status of the catalog API reports success.
pub open spec fn is_success(status: u16) -> bool {
    200 <= status < 300
}

/// What a catalog answer with this status and body is worth: on success the
/// patched body, ready to be decoded; else the failure with the status.
pub open spec fn accepted(status: u16, body: Seq<char>) -> Result<Seq<char>, ClientError> {
    if is_success(status) {
        Ok(patch_images(body))
    } else {
        Err(ClientError::UpstreamStatus(status as i32))
    }
}

/// Checks the status of a catalog answer and patches its body.
pub fn accept_response(status: u16, body: &str) -> (outcome: Result<String, ClientError>)
    ensures
        text_view(outcome) == accepted(status, body@),
{
    if 200 <= status && status < 300 {
        Ok(process_spotify_api_response(body))
    } else {
        Err(ClientError::UpstreamStatus(status as i32))
    }
}

/// The credential that a catalog request carries for this access token.
pub fn bearer_header(access_token: &str) -> (header: String)
    ensures
        header@ == "Bearer "@ + access_token@,
{
    let mut header = String::from_str("Bearer ");
    header.append(access_token);
    header
}

/// The credential of a request, given the access token that the session
/// handed out, if it handed one out.
pub open spec fn authorization_of(access_token: Option<Seq<char>>) -> Result<Seq<char>, ClientError> {
    match access_token {
        Some(token) => Ok("Bearer "@ + token),
        None => Err(ClientError::Auth),
    }
}

/// Makes the credential of a request. Without an access token the request
/// fails before it is sent.
pub fn authorization(access_token: Option<&str>) -> (header: Result<String, ClientError>)
    ensures
        text_view(header) == authorization_of(
            match access_token {
                Some(token) => Some(token@),
                None => None,
            },
        ),
{
    match access_token {
        Some(token) => Ok(bearer_header(token)),
        None => Err(ClientError::Auth),
    }
}

/// The view of a text, or of the failure to get one.
pub open spec fn text_view(text: Result<String, ClientError>) -> Result<Seq<char>, ClientError> {
    match text {
        Ok(text) => Ok(text@),
        Err(error) => Err(error),
    }
}

/// The listings of the catalog that the client walks.
#[derive(Clone, Copy, Debug, PartialEq, Eq, Structural)]
pub enum Listing {
    SavedTracks,
    RecentlyPlayed,
    TopTracks,
    UserPlaylists,
    FollowedArtists,
    SavedAlbums,
    ArtistAlbums,
    PlaylistItems,
    AlbumTracks,
}

/// Whether the further pages of a listing are asked for with the market of
/// the user: they are where the listing holds tracks or albums whose
/// availability differs between markets and the first page was asked for in
/// that way.
pub open spec fn wants_market(listing: Listing) -> bool {
    listing == Listing::SavedTracks || listing == Listing::ArtistAlbums || listing
        == Listing::PlaylistItems
}

/// The query parameters with which the further pages of a listing are asked
/// for: the market of the user's token, or none.
pub open spec fn page_query_of(listing: Listing) -> Seq<(Seq<char>, Seq<char>)> {
    if wants_market(listing) {
        seq![("market"@, "from_token"@)]
    } else {
        Seq::empty()
    }
}

/// The query parameter that asks the catalog for the market of the user.
pub fn market_query() -> (query: Vec<(String, String)>)
    ensures
        query.deep_view() == seq![("market"@, "from_token"@)],
{
    let mut query: Vec<(String, String)> = Vec::new();
    query.push((String::from_str("market"), String::from_str("from_token")));
    assert(query.deep_view() =~= seq![("market"@, "from_token"@)]);
    query
}

/// The query parameters with which the further pages of a listing are asked for.
pub fn page_query(listing: Listing) -> (query: Vec<(String, String)>)
    ensures
        query.deep_view() == page_query_of(listing),
{
    match listing {
        Listing::SavedTracks | Listing::ArtistAlbums | Listing::PlaylistItems => market_query(),
        _ => {
            let query: Vec<(String, String)> = Vec::new();
            assert(query.deep_view() =~= Seq::<(Seq<char>, Seq<char>)>::empty());
            query
        },
    }
}

/// The address of a playlist in the catalog.
pub fn playlist_url(playlist_id: &str) -> (url: String)
    ensures
        url@ == "https://api.spotify.com/v1/playlists/"@ + playlist_id@,
{
    let mut url = String::from_str("https://api.spotify.com/v1/playlists/");
    url.append(playlist_id);
    url
}

/// The address of the listing of the user's playlists in the catalog.
pub fn user_playlists_url() -> (url: String)
    ensures
        url@ == "https://api.spotify.com/v1/me/playlists"@,
{
    String::from_str("https://api.spotify.com/v1/me/playlists")
}

} // verus!
