use vstd::prelude::*;

verus! {

/// An error that occurred while communicating with (sending to, receiving
/// from, or parsing the data of) the game server.
#[derive(Debug)]
pub enum SFError {
    /// The request could not be built: sending it is not possible.
    InvalidRequest(&'static str),
    /// The server replied with an empty response.
    EmptyResponse,
    /// The server could not be reached.
    ConnectionError,
    /// A value sent by the server (named by the first field) had an
    /// unexpected value (the second field).
    ParsingError(&'static str, String),
    /// The server answered with an error message.
    ServerError(String),
    /// The server version is newer than the supported one.
    UnsupportedVersion(u32),
    /// A value at position `pos` was accessed, but the response is too short.
    TooShortResponse {
        /// The name of the accessed value
        name: &'static str,
        /// The position of the failed access
        pos: usize,
        /// The full array in debug print
        array: String,
    },
    /// Multiple errors occurred while parsing the response.
    NestedError(Vec<SFError>),
}

impl SFError {
    /// Holds of an error that reports a too short response for the value
    /// `name` at position `pos`.
    pub open spec fn is_too_short(self, name: &'static str, pos: int) -> bool {
        self matches SFError::TooShortResponse { name: n, pos: p, .. } && n == name && p == pos
    }

    /// Holds of a parsing error about the value `name`.
    pub open spec fn is_parsing(self, name: &'static str) -> bool {
        self matches SFError::ParsingError(n, _) && n == name
    }
}

/// Holds of a result that reports a too short response for `name` at `pos`.
pub open spec fn short_err<T>(r: Result<T, SFError>, name: &'static str, pos: int) -> bool {
    r matches Err(e) && e.is_too_short(name, pos)
}

/// Holds of a result that reports a parsing error about `name`.
pub open spec fn parse_err<T>(r: Result<T, SFError>, name: &'static str) -> bool {
    r matches Err(e) && e.is_parsing(name)
}

} // verus!
