//! The failures an operation of the client can end in.

use vstd::prelude::*;

verus! {

/// Why a response body or payload could not be turned into the expected shape.
#[derive(Clone, Copy, Debug, PartialEq, Eq, Structural)]
pub enum DecodeError {
    /// The body is not the JSON shape that was asked for.
    Malformed,
    /// A message-bus response carried no payload block.
    EmptyPayload,
    /// A payload block that should hold text is not UTF-8.
    NotUtf8,
    /// A track search was answered with another kind of result.
    ExpectedTracks,
    /// An artist search was answered with another kind of result.
    ExpectedArtists,
    /// An album search was answered with another kind of result.
    ExpectedAlbums,
    /// A playlist search was answered with another kind of result.
    ExpectedPlaylists,
}

/// A failure that aborts the enclosing operation.
///
/// A record that cannot be converted into a domain record is not a failure of
/// this kind: it is dropped where it occurs.
#[derive(Clone, Copy, Debug, PartialEq, Eq, Structural)]
pub enum ClientError {
    /// No access token could be had, or the session could not be renewed.
    Auth,
    /// The transport failed before an answer arrived.
    Transport,
    /// The catalog or the message bus answered with a status other than success.
    UpstreamStatus(i32),
    /// The answer arrived but could not be decoded.
    Decode(DecodeError),
}

} // verus!
