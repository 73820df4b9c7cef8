//! Where the helper programs are fetched from.

use crate::binary_sidecar::utils::architecture::Architecture;
use crate::binary_sidecar::utils::platform::Platform;
use crate::text::{push_str, string_of};
use vstd::prelude::*;

pub mod ffmpeg;
pub mod ytdlp;

verus! {

/// A program to fetch: where it is offered and what its file is called.
#[derive(Debug, Clone, PartialEq, Eq)]
pub struct Release {
    pub url: String,
    pub binary_name: String,
}

/// Why no release was found.
#[derive(Debug, Clone, PartialEq, Eq)]
pub enum FetcherError {
    NetworkError(String),
    ParseError(String),
    AssetNotFound(String),
    Other(String),
}

/// Something that knows where a program is offered for a machine.
pub trait ReleaseFetcher {
    /// What has to be fetched before a release can be chosen.
    type Listing;

    /// The release for a machine of this system and processor, chosen from
    /// `listing`.
    fn get_release(
        &self,
        listing: &Self::Listing,
        platform: &Platform,
        architecture: &Architecture,
    ) -> Result<Release, FetcherError>;
}

impl Release {
    /// How this release is written.
    pub open spec fn label(self) -> Seq<char> {
        "Release: "@ + self.url@
    }

    /// How this release is written.
    pub fn to_string(&self) -> (r: String)
        ensures
            r@ == self.label(),
    {
        let mut out: Vec<char> = Vec::new();
        push_str(&mut out, "Release: ");
        push_str(&mut out, self.url.as_str());
        string_of(out.as_slice())
    }
}

impl FetcherError {
    /// The text of this error.
    pub open spec fn message(self) -> Seq<char> {
        match self {
            FetcherError::NetworkError(detail) => "Network error: "@ + detail@,
            FetcherError::ParseError(detail) => "Parse error: "@ + detail@,
            FetcherError::AssetNotFound(detail) => "Asset not found: "@ + detail@,
            FetcherError::Other(detail) => "Other error: "@ + detail@,
        }
    }

    /// The text of this error.
    pub fn to_string(&self) -> (r: String)
        ensures
            r@ == self.message(),
    {
        let mut out: Vec<char> = Vec::new();
        match self {
            FetcherError::NetworkError(detail) => {
                push_str(&mut out, "Network error: ");
                push_str(&mut out, detail.as_str());
            },
            FetcherError::ParseError(detail) => {
                push_str(&mut out, "Parse error: ");
                push_str(&mut out, detail.as_str());
            },
            FetcherError::AssetNotFound(detail) => {
                push_str(&mut out, "Asset not found: ");
                push_str(&mut out, detail.as_str());
            },
            FetcherError::Other(detail) => {
                push_str(&mut out, "Other error: ");
                push_str(&mut out, detail.as_str());
            },
        }
        string_of(out.as_slice())
    }
}

} // verus!
