use vstd::prelude::*;

verus! {

/// The ways a play session can fail. Every one of them ends the session.
pub enum PlayError {
    /// No matching station.
    NotFound,
    /// The station directory could not be reached or answered with an error.
    LookupFailed(String),
    /// The playlist body held no usable stream address.
    ExtractionFailed(String),
    /// The media request failed.
    FetchFailed(String),
    /// The start of the media stream is not an audio bitstream.
    DecodeFailed,
}

impl PlayError {
    /// A one-line description for the user.
    pub fn message(&self) -> (r: String)
        ensures
            match self {
                PlayError::NotFound => r@ == "No station found"@,
                PlayError::LookupFailed(m) => r@ == m@,
                PlayError::ExtractionFailed(m) => r@ == m@,
                PlayError::FetchFailed(m) => r@ == m@,
                PlayError::DecodeFailed => r@ == "Stream is not a playable audio bitstream"@,
            },
    {
        proof {
            reveal_strlit("No station found");
            reveal_strlit("Stream is not a playable audio bitstream");
        }
        match self {
            PlayError::NotFound => "No station found".to_owned(),
            PlayError::LookupFailed(m) => m.clone(),
            PlayError::ExtractionFailed(m) => m.clone(),
            PlayError::FetchFailed(m) => m.clone(),
            PlayError::DecodeFailed => "Stream is not a playable audio bitstream".to_owned(),
        }
    }
}

} // verus!
