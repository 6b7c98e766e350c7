use vstd::prelude::*;

use crate::error::PlayError;

verus! {

/// How the stream address of a station is obtained.
pub enum Extraction {
    /// The address is already a direct stream.
    Direct(String),
    /// The address holds a playlist of the given kind, to be fetched and read.
    FetchPlaylist { url: String, kind: String },
}

/// A station without a playlist kind streams from its own address; any other
/// address is a playlist that must be fetched first.
pub fn plan_extraction(url: String, playlist_type: Option<String>) -> (r: Extraction)
    ensures
        match playlist_type {
            None => r == Extraction::Direct(url),
            Some(k) => r == (Extraction::FetchPlaylist { url, kind: k }),
        },
{
    match playlist_type {
        None => Extraction::Direct(url),
        Some(kind) => Extraction::FetchPlaylist { url, kind },
    }
}

/// The stream address read out of a fetched playlist. A body that could not be
/// fetched, or that held no entry, fails the extraction.
pub fn finish_extraction(entry: Result<Option<String>, String>) -> (r: Result<String, PlayError>)
    ensures
        match entry {
            Ok(Some(u)) => if u@.len() > 0 {
                r == Ok::<String, PlayError>(u)
            } else {
                r matches Err(PlayError::ExtractionFailed(_))
            },
            Ok(None) => r matches Err(PlayError::ExtractionFailed(_)),
            Err(e) => r == Err::<String, PlayError>(PlayError::ExtractionFailed(e)),
        },
{
    match entry {
        Ok(Some(u)) => {
            if !u.as_str().is_empty() {
                Ok(u)
            } else {
                Err(PlayError::ExtractionFailed("playlist entry is empty".to_owned()))
            }
        },
        Ok(None) => Err(PlayError::ExtractionFailed("playlist holds no stream".to_owned())),
        Err(e) => Err(PlayError::ExtractionFailed(e)),
    }
}

} // verus!
