//! The failures the library reports, and the reply a failure becomes.

use vstd::prelude::*;

verus! {

/// What went wrong.
#[derive(Clone, Copy, Debug, PartialEq, Eq, Structural)]
pub enum ErrorKind {
    /// No cookie was given, or the account server did not accept it.
    CheckCookie,
    /// The song URL could not be had.
    GetSongFailed,
    /// A reply that should list songs does not.
    InvalidResponseFormat,
    /// A listed song has no numeric id.
    MissingSongId,
    /// A listed song has no name.
    MissingSongName,
    /// A listed song has no numeric duration.
    MissingSongDuration,
    /// The phone number login reply holds no cookie.
    PhoneLoginFailed,
    /// Logging in with a stored cookie failed.
    CookieLoginFailed,
    /// Logging in with the phone number failed.
    LoginFailed,
    /// The song detail reply holds no song.
    SongNotFound,
    /// The user search was refused.
    SearchUserFailed,
    /// The user's playlists could not be had.
    GetUserPlaylistFailed,
    /// The songs of a playlist could not be had.
    GetMusicListFailed,
    /// No queued song carries the play id asked for.
    MusicNotFound,
    /// The queue is longer than a `u64` can count.
    ListTooLong,
    /// The song started after the time given as now.
    StartInFuture,
}

impl ErrorKind {
    /// The message of each failure.
    pub open spec fn spec_message(self) -> Seq<char> {
        match self {
            ErrorKind::CheckCookie => "Please check your cookie.txt"@,
            ErrorKind::GetSongFailed => "Get song failed!"@,
            ErrorKind::InvalidResponseFormat => "Invalid response format"@,
            ErrorKind::MissingSongId => "Missing song id"@,
            ErrorKind::MissingSongName => "Missing song name"@,
            ErrorKind::MissingSongDuration => "Missing song duration"@,
            ErrorKind::PhoneLoginFailed => "Login failed"@,
            ErrorKind::CookieLoginFailed => "Login Failed!"@,
            ErrorKind::LoginFailed => "Login failed!"@,
            ErrorKind::SongNotFound => "Song not found"@,
            ErrorKind::SearchUserFailed => "Search User failed!"@,
            ErrorKind::GetUserPlaylistFailed => "Get user playlist failed!"@,
            ErrorKind::GetMusicListFailed => "Get music list failed!"@,
            ErrorKind::MusicNotFound => "Can not find music"@,
            ErrorKind::ListTooLong => "out of range integral type conversion attempted"@,
            ErrorKind::StartInFuture => "second time provided was later than self"@,
        }
    }

    /// The message of this failure.
    pub fn message(&self) -> (res: String)
        ensures
            res@ == self.spec_message(),
    {
        match self {
            ErrorKind::CheckCookie => String::from_str("Please check your cookie.txt"),
            ErrorKind::GetSongFailed => String::from_str("Get song failed!"),
            ErrorKind::InvalidResponseFormat => String::from_str("Invalid response format"),
            ErrorKind::MissingSongId => String::from_str("Missing song id"),
            ErrorKind::MissingSongName => String::from_str("Missing song name"),
            ErrorKind::MissingSongDuration => String::from_str("Missing song duration"),
            ErrorKind::PhoneLoginFailed => String::from_str("Login failed"),
            ErrorKind::CookieLoginFailed => String::from_str("Login Failed!"),
            ErrorKind::LoginFailed => String::from_str("Login failed!"),
            ErrorKind::SongNotFound => String::from_str("Song not found"),
            ErrorKind::SearchUserFailed => String::from_str("Search User failed!"),
            ErrorKind::GetUserPlaylistFailed => String::from_str("Get user playlist failed!"),
            ErrorKind::GetMusicListFailed => String::from_str("Get music list failed!"),
            ErrorKind::MusicNotFound => String::from_str("Can not find music"),
            ErrorKind::ListTooLong => String::from_str(
                "out of range integral type conversion attempted",
            ),
            ErrorKind::StartInFuture => String::from_str("second time provided was later than self"),
        }
    }
}

/// A failure on its way to becoming a reply: its message.
#[derive(Debug)]
pub struct VocasyncError(pub String);

/// The HTTP status of every failure reply: internal server error.
pub const ERROR_STATUS: u16 = 500;

impl VocasyncError {
    /// The error that carries the message of `kind`.
    pub fn from_kind(kind: ErrorKind) -> (res: VocasyncError)
        ensures
            res.0@ == kind.spec_message(),
    {
        VocasyncError(kind.message())
    }

    /// The error that carries `message`.
    pub fn from_message(message: String) -> (res: VocasyncError)
        ensures
            res.0 == message,
    {
        VocasyncError(message)
    }

    /// The reply to a failure: status 500 and the body
    /// `VocasyncError: ` followed by the message.
    pub fn into_response(self) -> (res: (u16, String))
        ensures
            res.0 == ERROR_STATUS,
            res.1@ == "VocasyncError: "@ + self.0@,
    {
        let body = String::from_str("VocasyncError: ").concat(self.0.as_str());
        (ERROR_STATUS, body)
    }
}

} // verus!
