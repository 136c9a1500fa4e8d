use vstd::prelude::*;

verus! {

/// The default `Accept` header sent in requests
pub const DEFAULT_ACCEPT: &'static str = "application/vnd.github+json";

/// The default base API URL to which to append path endpoints
pub const DEFAULT_API_URL: &'static str = "https://api.github.com";

/// The name of the HTTP header used by the GitHub REST API to communicate the
/// API version
pub const API_VERSION_HEADER: &'static str = "x-github-api-version";

/// The default `X-GitHub-Api-Version` header sent in requests
pub const DEFAULT_API_VERSION: &'static str = "2022-11-28";

/// The default `User-Agent` header sent in requests
pub const DEFAULT_USER_AGENT: &'static str = "ghreq/0.1.0 (https://github.com/jwodder/ghreq)";

/// The maximum number of bytes read at once from a response body.
pub const READ_BLOCK_SIZE: usize = 2048;

} // verus!
