use crate::digits::dec_digits;
use crate::digits::u32_to_decimal;
use vstd::prelude::*;

verus! {

/// The closed set of failures this library distinguishes, one per phase of a
/// run, so that a caller can tell the failing phase apart and report it.
/// A client-build or transport failure carries the underlying cause as text.
#[derive(Clone, Debug, PartialEq, Eq)]
pub enum FetchError {
    /// The session credential is absent, or the year could not be resolved.
    Config,
    /// The HTTP client could not be built: the credential holds a byte that
    /// is not allowed in a header value, or the transport could not be set up.
    ClientBuild(String),
    /// The request could not be completed (connection, resolution, protocol).
    Transport(String),
    /// The server answered with a status code outside the success class.
    Status(u16),
    /// A directory could not be created or the output file could not be written.
    Filesystem,
}

impl FetchError {
    /// The phrase that reports this failure to the operator.
    pub open spec fn describe_spec(self) -> Seq<char> {
        match self {
            FetchError::Config => "No advent session set"@,
            FetchError::ClientBuild(cause) => "Could not create the HTTP client: "@ + cause@,
            FetchError::Transport(cause) => "Could not download the challenge input: "@ + cause@,
            FetchError::Status(code) => "A non-success status code was returned "@ + dec_digits(
                code as int,
            ),
            FetchError::Filesystem => "Failed to write the output file"@,
        }
    }

    /// Writes the phrase that reports this failure, naming the failing phase
    /// and the cause it carries; a status error carries the code in decimal.
    pub fn describe(&self) -> (s: String)
        ensures
            s@ == self.describe_spec(),
    {
        match self {
            FetchError::Config => String::from_str("No advent session set"),
            FetchError::ClientBuild(cause) => {
                let mut s = String::from_str("Could not create the HTTP client: ");
                s.append(cause.as_str());
                s
            },
            FetchError::Transport(cause) => {
                let mut s = String::from_str("Could not download the challenge input: ");
                s.append(cause.as_str());
                s
            },
            FetchError::Status(code) => {
                let mut s = String::from_str("A non-success status code was returned ");
                let c = u32_to_decimal(*code as u32);
                s.append(c.as_str());
                s
            },
            FetchError::Filesystem => String::from_str("Failed to write the output file"),
        }
    }
}

} // verus!
