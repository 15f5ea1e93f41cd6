use vstd::prelude::*;

verus! {

/// Failure taxonomy of the per-URL pipeline.
///
/// - `InvalidUrl`: the supplied URL matches no recognized identifier pattern.
/// - `InvalidResponse`: a failure fetching or decoding host metadata, or
///   fetching the chosen stream's bytes; the detail text preserves the cause.
/// - `Unsupported`: no directly fetchable (non-cipher) stream exists for the
///   video; the detail recommends the external fallback tool.
/// - `Application`: a local-environment failure (file creation or write).
#[derive(Debug, Clone, PartialEq, Eq)]
pub enum YouDlError {
    InvalidUrl,
    InvalidResponse(String),
    Unsupported(String),
    Application(String),
}

impl YouDlError {
    /// The detail text carried by the error, or empty for `InvalidUrl`.
    pub fn detail(&self) -> (r: &str)
        ensures
            r@ == self.spec_detail(),
    {
        match self {
            YouDlError::InvalidUrl => "",
            YouDlError::InvalidResponse(d) => d.as_str(),
            YouDlError::Unsupported(d) => d.as_str(),
            YouDlError::Application(d) => d.as_str(),
        }
    }

    pub open spec fn spec_detail(&self) -> Seq<char> {
        match self {
            YouDlError::InvalidUrl => ""@,
            YouDlError::InvalidResponse(d) => d@,
            YouDlError::Unsupported(d) => d@,
            YouDlError::Application(d) => d@,
        }
    }
}

} // verus!
