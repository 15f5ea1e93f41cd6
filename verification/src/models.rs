use vstd::prelude::*;

verus! {

/// One stream descriptor of the host's metadata record, reduced to the plain
/// values this crate reads: the host's numeric format identifier, the direct
/// playback URL when one is present, the obfuscated cipher parameter when the
/// stream is cipher-protected, and the declared quality and container labels.
#[derive(Debug)]
pub struct StreamFormat {
    pub itag: u64,
    pub url: Option<String>,
    pub signature_cipher: Option<String>,
    pub quality_label: String,
    pub mime_type: String,
}

/// The decoded metadata record for one video: its title, the progressive
/// streams (audio and video together) and the adaptive streams (audio or
/// video alone). A record with zero usable streams is a valid state, not a
/// fetching error.
#[derive(Debug)]
pub struct PlayerResponse {
    pub title: String,
    pub formats: Vec<StreamFormat>,
    pub adaptive_formats: Vec<StreamFormat>,
}

/// A stream is directly fetchable when its playback URL is present and no
/// cipher parameter has to be resolved first.
pub open spec fn fetchable(f: StreamFormat) -> bool {
    f.url is Some && f.signature_cipher is None
}

impl StreamFormat {
    /// Whether this stream can be fetched with no cipher resolution.
    pub fn is_fetchable(&self) -> (r: bool)
        ensures
            r == fetchable(*self),
    {
        self.url.is_some() && self.signature_cipher.is_none()
    }
}

} // verus!
