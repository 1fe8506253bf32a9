//! The error taxonomy of the client.
//!
//! Every failure is reported as a value of [`ZoteroApiError`]; nothing in the
//! library panics.  Construction failures are detected before any request is
//! handed to a transport, and an HTTP 403 is kept distinct from other
//! transport failures so that callers can prompt for new credentials.

use vstd::prelude::*;

verus! {

/// An error raised while building a request, executing it, or decoding the
/// response.
#[derive(Debug, Clone, PartialEq, Eq)]
pub enum ZoteroApiError {
    /// The request could not be built from the given inputs (for example an
    /// update or delete without a usable version value).
    RequestCreationError(String),
    /// The transport failed; the payload is the transport's own message.
    RequestError(String),
    /// The server answered HTTP 403.
    AuthenticationError(String),
    /// A response body did not match the expected schema.
    ParseResponseError(String),
    /// An `itemType` discriminator named no known record variant.
    UnknownVariant(String),
}

impl ZoteroApiError {
    /// The human-readable payload carried by every variant.
    pub fn message(&self) -> (r: &String)
        ensures
            r@ == self.message_spec(),
    {
        match self {
            ZoteroApiError::RequestCreationError(m) => m,
            ZoteroApiError::RequestError(m) => m,
            ZoteroApiError::AuthenticationError(m) => m,
            ZoteroApiError::ParseResponseError(m) => m,
            ZoteroApiError::UnknownVariant(m) => m,
        }
    }

    pub open spec fn message_spec(self) -> Seq<char> {
        match self {
            ZoteroApiError::RequestCreationError(m) => m@,
            ZoteroApiError::RequestError(m) => m@,
            ZoteroApiError::AuthenticationError(m) => m@,
            ZoteroApiError::ParseResponseError(m) => m@,
            ZoteroApiError::UnknownVariant(m) => m@,
        }
    }
}

} // verus!
