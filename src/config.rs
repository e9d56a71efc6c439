//! Stored settings and the checks applied to what the user types during
//! first-run setup.

use vstd::prelude::*;
use vstd::string::*;

verus! {

/// Credentials and the destination folder, read once at start-up.
#[derive(Debug, Clone)]
pub struct Config {
    pub chill_api_key: Option<String>,
    pub putio_oauth_token: Option<String>,
    pub putio_folder_id: Option<u64>,
    pub putio_folder_name: String,
}

/// Shortest search-provider key accepted, in bytes.
pub const MIN_API_KEY_LEN: usize = 10;
/// Shortest upload-service token accepted, in bytes.
pub const MIN_TOKEN_LEN: usize = 20;

/// Why a typed credential was turned down.
#[derive(Clone, Copy, Debug, PartialEq, Eq, Structural)]
pub enum InputProblem {
    Empty,
    TooShort,
}

impl Config {
    /// Whether a credential is missing, so that setup must run.
    pub fn needs_setup(&self) -> (r: bool)
        ensures
            r == (self.chill_api_key is None || self.putio_oauth_token is None),
    {
        self.chill_api_key.is_none() || self.putio_oauth_token.is_none()
    }
}

/// Checks a trimmed credential: empty, shorter than `min_len` bytes, or
/// acceptable.
pub fn check_credential(input: &str, min_len: usize) -> (r: Result<(), InputProblem>)
    ensures
        input@.len() == 0 ==> r == Err::<(), InputProblem>(InputProblem::Empty),
        input@.len() > 0 && input.spec_bytes().len() < min_len ==> r == Err::<(), InputProblem>(
            InputProblem::TooShort,
        ),
        input@.len() > 0 && input.spec_bytes().len() >= min_len ==> r is Ok,
{
    if input.is_empty() {
        Err(InputProblem::Empty)
    } else if input.as_bytes().len() < min_len {
        Err(InputProblem::TooShort)
    } else {
        Ok(())
    }
}

} // verus!
