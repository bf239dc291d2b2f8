use vstd::prelude::*;

verus! {

/// Errors the API reports or the response decoding finds.
pub enum Error {
    /// The server answered with a code other than 200.
    Api { code: i64, message: String },
    /// The track detail response has no song list.
    MissSong,
    /// The request needs a logged-in session.
    NotLoggedIn,
    /// The track detail response lists no song.
    TrackNotFound { id: u64 },
    /// The track has no playback URL (no copyright or VIP required).
    TrackUnavailable,
}

} // verus!
