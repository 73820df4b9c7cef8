//! Where yt-dlp is offered.

use crate::binary_sidecar::deps::{FetcherError, Release, ReleaseFetcher};
use crate::binary_sidecar::utils::architecture::Architecture;
use crate::binary_sidecar::utils::platform::Platform;
use crate::text::{chars_of, contains, decimal, occurs_in, push_decimal, push_str, string_of};
use vstd::prelude::*;

verus! {

/// A release as the code host lists it.
#[derive(Debug, Clone, PartialEq, Eq)]
pub struct GitHubRelease {
    pub tag_name: String,
    pub assets: Vec<GithubAsset>,
}

/// One file of a release.
#[derive(Debug, Clone, PartialEq, Eq)]
pub struct GithubAsset {
    pub name: String,
    pub download_url: String,
}

/// Knows which file of a release of yt-dlp is the one for a machine.
#[derive(Debug, Clone, Copy, PartialEq, Eq)]
pub struct YtdlpFetcher {}

impl GithubAsset {
    /// How this file is written.
    pub open spec fn label(self) -> Seq<char> {
        "Asset: name="@ + self.name@ + ", url="@ + self.download_url@ + ";"@
    }

    /// How this file is written.
    pub fn to_string(&self) -> (r: String)
        ensures
            r@ == self.label(),
    {
        let mut out: Vec<char> = Vec::new();
        push_str(&mut out, "Asset: name=");
        push_str(&mut out, self.name.as_str());
        push_str(&mut out, ", url=");
        push_str(&mut out, self.download_url.as_str());
        push_str(&mut out, ";");
        string_of(out.as_slice())
    }
}

impl GitHubRelease {
    /// How this release is written.
    pub open spec fn label(self) -> Seq<char> {
        "Release: tag="@ + self.tag_name@ + ", assets="@ + decimal(self.assets@.len()) + ";"@
    }

    /// How this release is written.
    pub fn to_string(&self) -> (r: String)
        ensures
            r@ == self.label(),
    {
        let mut out: Vec<char> = Vec::new();
        push_str(&mut out, "Release: tag=");
        push_str(&mut out, self.tag_name.as_str());
        push_str(&mut out, ", assets=");
        push_decimal(&mut out, self.assets.len() as u64);
        push_str(&mut out, ";");
        string_of(out.as_slice())
    }
}

impl YtdlpFetcher {
    /// What the name of the file for a machine holds; there is a file only
    /// for the machines listed here.
    pub open spec fn marker(platform: Platform, architecture: Architecture) -> Option<Seq<char>> {
        match (platform, architecture) {
            (Platform::Windows, Architecture::X64) => Some("yt-dlp.exe"@),
            (Platform::Windows, Architecture::X86) => Some("yt-dlp_x86.exe"@),
            (Platform::Linux, Architecture::X64) => Some("yt-dlp_linux"@),
            (Platform::Linux, Architecture::Armv7l) => Some("yt-dlp_linux_armv7l"@),
            (Platform::Linux, Architecture::Aarch64) => Some("yt-dlp_linux_aarch64"@),
            (Platform::Mac, _) => Some("yt-dlp*macos"@),
            _ => None,
        }
    }

    /// The file at `index` is the one for the machine: the first whose name
    /// holds the marker.
    pub open spec fn chosen(
        assets: Seq<GithubAsset>,
        platform: Platform,
        architecture: Architecture,
        index: int,
    ) -> bool {
        &&& 0 <= index < assets.len()
        &&& YtdlpFetcher::marker(platform, architecture) matches Some(marker)
        &&& occurs_in(assets[index].name@, marker)
        &&& forall|j: int| 0 <= j < index ==> !occurs_in(#[trigger] assets[j].name@, marker)
    }

    /// What the error says when no file is for the machine.
    pub open spec fn not_found(platform: Platform, architecture: Architecture) -> Seq<char> {
        "Could not find asset for platform: "@ + platform.debug_label() + ", architecture: "@
            + architecture.debug_label()
    }

    /// Where the latest release is listed.
    pub open spec fn listing_url() -> Seq<char> {
        "https://api.github.com/repos/yt-dlp/yt-dlp/releases/latest"@
    }

    pub fn new() -> (r: YtdlpFetcher) {
        YtdlpFetcher {  }
    }

    /// Where the latest release is listed.
    pub fn release_url(&self) -> (r: String)
        ensures
            r@ == YtdlpFetcher::listing_url(),
    {
        "https://api.github.com/repos/yt-dlp/yt-dlp/releases/latest".to_owned()
    }

    /// What the name of the file for a machine holds.
    fn marker_of(platform: &Platform, architecture: &Architecture) -> (r: Option<&'static str>)
        ensures
            match r {
                Some(marker) => YtdlpFetcher::marker(*platform, *architecture) == Some(marker@),
                None => YtdlpFetcher::marker(*platform, *architecture) is None,
            },
    {
        match platform {
            Platform::Windows => match architecture {
                Architecture::X64 => Some("yt-dlp.exe"),
                Architecture::X86 => Some("yt-dlp_x86.exe"),
                _ => None,
            },
            Platform::Linux => match architecture {
                Architecture::X64 => Some("yt-dlp_linux"),
                Architecture::Armv7l => Some("yt-dlp_linux_armv7l"),
                Architecture::Aarch64 => Some("yt-dlp_linux_aarch64"),
                _ => None,
            },
            Platform::Mac => Some("yt-dlp*macos"),
            Platform::Unknown(_) => None,
        }
    }

    /// The release for a machine, chosen among the files of `listing`: the
    /// first file whose name holds the machine's marker, or an error that
    /// names the machine.
    pub fn select_release(
        listing: &GitHubRelease,
        platform: &Platform,
        architecture: &Architecture,
    ) -> (r: Result<Release, FetcherError>)
        ensures
            match r {
                Ok(release) => exists|i: int|
                    YtdlpFetcher::chosen(listing.assets@, *platform, *architecture, i)
                        && release.url@ == listing.assets@[i].download_url@ && release.binary_name@
                        == listing.assets@[i].name@,
                Err(FetcherError::AssetNotFound(detail)) => detail@ == YtdlpFetcher::not_found(
                    *platform,
                    *architecture,
                ) && forall|i: int|
                    !YtdlpFetcher::chosen(listing.assets@, *platform, *architecture, i),
                Err(_) => false,
            },
    {
        match Self::marker_of(platform, architecture) {
            Some(marker) => {
                let pattern = chars_of(marker);
                let mut i: usize = 0;
                while i < listing.assets.len()
                    invariant
                        i <= listing.assets.len(),
                        pattern@ == marker@,
                        YtdlpFetcher::marker(*platform, *architecture) == Some(marker@),
                        forall|j: int|
                            0 <= j < i ==> !occurs_in(#[trigger] listing.assets@[j].name@, marker@),
                    decreases listing.assets.len() - i,
                {
                    let asset = &listing.assets[i];
                    let name = chars_of(asset.name.as_str());
                    if contains(name.as_slice(), pattern.as_slice()) {
                        assert(YtdlpFetcher::chosen(
                            listing.assets@,
                            *platform,
                            *architecture,
                            i as int,
                        ));
                        return Ok(
                            Release {
                                url: asset.download_url.clone(),
                                binary_name: asset.name.clone(),
                            },
                        );
                    }
                    i += 1;
                }
            },
            None => {},
        }
        let mut out: Vec<char> = Vec::new();
        push_str(&mut out, "Could not find asset for platform: ");
        platform.push_debug(&mut out);
        push_str(&mut out, ", architecture: ");
        architecture.push_debug(&mut out);
        assert(out@ =~= YtdlpFetcher::not_found(*platform, *architecture));
        Err(FetcherError::AssetNotFound(string_of(out.as_slice())))
    }
}

impl ReleaseFetcher for YtdlpFetcher {
    type Listing = GitHubRelease;

    /// The release of yt-dlp for a machine, chosen among the files of the
    /// latest release.
    fn get_release(
        &self,
        listing: &GitHubRelease,
        platform: &Platform,
        architecture: &Architecture,
    ) -> (r: Result<Release, FetcherError>)
        ensures
            match r {
                Ok(release) => exists|i: int|
                    YtdlpFetcher::chosen(listing.assets@, *platform, *architecture, i)
                        && release.url@ == listing.assets@[i].download_url@ && release.binary_name@
                        == listing.assets@[i].name@,
                Err(FetcherError::AssetNotFound(detail)) => detail@ == YtdlpFetcher::not_found(
                    *platform,
                    *architecture,
                ) && forall|i: int|
                    !YtdlpFetcher::chosen(listing.assets@, *platform, *architecture, i),
                Err(_) => false,
            },
    {
        Self::select_release(listing, platform, architecture)
    }
}

} // verus!
