//! Why a track was not stored.

use crate::text;
use vstd::prelude::*;

verus! {

/// A failed operation on the filesystem.
#[derive(Debug, PartialEq, Eq)]
pub enum IoFailure {
    /// The stream produced no bytes for longer than the stall timeout.
    Stalled,
    /// The operating system reported an error, in these words.
    Reported(String),
}

impl IoFailure {
    /// The words for this failure.
    pub open spec fn words(&self) -> Seq<char> {
        match *self {
            IoFailure::Stalled => "media download stalled"@,
            IoFailure::Reported(s) => s@,
        }
    }

    /// The words for this failure.
    pub fn message(&self) -> (r: String)
        ensures
            r@ == self.words(),
    {
        match self {
            IoFailure::Stalled => "media download stalled".to_owned(),
            IoFailure::Reported(s) => s.clone(),
        }
    }

    /// Whether the failure is that time ran out.
    pub fn is_timeout(&self) -> (r: bool)
        ensures
            r == (self is Stalled),
    {
        match self {
            IoFailure::Stalled => true,
            IoFailure::Reported(_) => false,
        }
    }
}

/// Why a media-cache store did not produce a cached file.
///
/// Every variant is non-fatal: the caller streams from the server instead.
#[derive(Debug, PartialEq, Eq)]
pub enum MediaCacheError {
    /// Caching is switched off in the config.
    Disabled,
    /// A download for this track is already running.
    AlreadyInFlight,
    /// Filesystem operation failed.
    Io(IoFailure),
    /// The transfer itself failed, in the words of the HTTP client.
    Http(String),
    /// The server answered with a non-success status.
    Status(u16),
    /// Fewer bytes arrived than were promised; the partial file is discarded
    /// rather than published.
    Truncated {
        /// Byte count that was promised.
        expected: u64,
        /// Byte count actually received.
        got: u64,
    },
    /// A single track larger than the whole cache would evict everything else
    /// on every play, so it is never stored.
    TooLarge {
        /// Size of the track.
        size: u64,
        /// Configured cache capacity.
        capacity: u64,
    },
    /// The caller flipped the cancel flag mid-transfer.
    Cancelled,
}

impl MediaCacheError {
    /// The words for this error.
    pub open spec fn words(&self) -> Seq<char> {
        match *self {
            MediaCacheError::Disabled => "media cache is disabled"@,
            MediaCacheError::AlreadyInFlight => "a download for this track is already in flight"@,
            MediaCacheError::Io(f) => "media cache IO error: "@ + f.words(),
            MediaCacheError::Http(s) => "media download failed: "@ + s@,
            MediaCacheError::Status(code) => "server returned HTTP "@ + text::decimal(code as nat),
            MediaCacheError::Truncated { expected, got } => "download truncated: expected "@
                + text::decimal(expected as nat) + " bytes, got "@ + text::decimal(got as nat),
            MediaCacheError::TooLarge { size, capacity } => "track is "@ + text::decimal(
                size as nat,
            ) + " bytes, larger than the "@ + text::decimal(capacity as nat) + " byte cache"@,
            MediaCacheError::Cancelled => "download cancelled"@,
        }
    }

    /// The words for this error.
    pub fn message(&self) -> (r: String)
        ensures
            r@ == self.words(),
    {
        match self {
            MediaCacheError::Disabled => "media cache is disabled".to_owned(),
            MediaCacheError::AlreadyInFlight =>
                "a download for this track is already in flight".to_owned(),
            MediaCacheError::Io(f) => {
                let mut out = "media cache IO error: ".to_owned();
                let words = f.message();
                out.append(words.as_str());
                out
            },
            MediaCacheError::Http(s) => {
                let mut out = "media download failed: ".to_owned();
                out.append(s.as_str());
                out
            },
            MediaCacheError::Status(code) => {
                let mut out = "server returned HTTP ".to_owned();
                text::push_decimal(&mut out, *code as u64);
                out
            },
            MediaCacheError::Truncated { expected, got } => {
                let mut out = "download truncated: expected ".to_owned();
                text::push_decimal(&mut out, *expected);
                out.append(" bytes, got ");
                text::push_decimal(&mut out, *got);
                out
            },
            MediaCacheError::TooLarge { size, capacity } => {
                let mut out = "track is ".to_owned();
                text::push_decimal(&mut out, *size);
                out.append(" bytes, larger than the ");
                text::push_decimal(&mut out, *capacity);
                out.append(" byte cache");
                out
            },
            MediaCacheError::Cancelled => "download cancelled".to_owned(),
        }
    }
}

} // verus!
