//! Where ffmpeg is offered.

use crate::binary_sidecar::deps::{FetcherError, Release, ReleaseFetcher};
use crate::binary_sidecar::utils::architecture::Architecture;
use crate::binary_sidecar::utils::platform::Platform;
use crate::text::{push_str, string_of};
use vstd::prelude::*;

verus! {

/// Knows where ffmpeg is offered for each kind of machine.
#[derive(Debug, Clone, Copy, PartialEq, Eq)]
pub struct FfmpegFetcher {}

impl FfmpegFetcher {
    /// The name of the static Linux build for a processor; an unknown
    /// processor is taken for the most common one.
    pub open spec fn linux_build(architecture: Architecture) -> Seq<char> {
        match architecture {
            Architecture::X64 => "amd64"@,
            Architecture::X86 => "i686"@,
            Architecture::Aarch64 => "arm64"@,
            Architecture::Armv7l => "armv7"@,
            Architecture::Unknown(_) => "amd64"@,
        }
    }

    /// The address of the static Linux build named `build`.
    pub open spec fn linux_url(build: Seq<char>) -> Seq<char> {
        "https://johnvansickle.com/ffmpeg/releases/ffmpeg-release-"@ + build + "-static.tar.xz"@
    }

    /// Where ffmpeg is offered for a machine. An unknown system is taken
    /// for Linux on the most common processor.
    pub open spec fn url_for(platform: Platform, architecture: Architecture) -> Seq<char> {
        match platform {
            Platform::Windows => "https://www.gyan.dev/ffmpeg/builds/ffmpeg-release-essentials.zip"@,
            Platform::Mac => match architecture {
                Architecture::Aarch64 => "https://www.osxexperts.net/ffmpeg71arm.zip"@,
                _ => "https://www.osxexperts.net/ffmpeg71intel.zip"@,
            },
            Platform::Linux => FfmpegFetcher::linux_url(FfmpegFetcher::linux_build(architecture)),
            Platform::Unknown(_) => FfmpegFetcher::linux_url("amd64"@),
        }
    }

    pub fn new() -> (r: FfmpegFetcher) {
        FfmpegFetcher {  }
    }

    /// The release of ffmpeg for a machine: there is one for every machine.
    pub fn release_for(platform: &Platform, architecture: &Architecture) -> (r: Release)
        ensures
            r.url@ == FfmpegFetcher::url_for(*platform, *architecture),
            r.binary_name@ == "ffmpeg"@,
    {
        let url = match platform {
            Platform::Windows => {
                "https://www.gyan.dev/ffmpeg/builds/ffmpeg-release-essentials.zip".to_owned()
            },
            Platform::Mac => match architecture {
                Architecture::Aarch64 => "https://www.osxexperts.net/ffmpeg71arm.zip".to_owned(),
                _ => "https://www.osxexperts.net/ffmpeg71intel.zip".to_owned(),
            },
            Platform::Linux => {
                let build = match architecture {
                    Architecture::X64 => "amd64",
                    Architecture::X86 => "i686",
                    Architecture::Aarch64 => "arm64",
                    Architecture::Armv7l => "armv7",
                    Architecture::Unknown(_) => "amd64",
                };
                Self::linux(build)
            },
            Platform::Unknown(_) => Self::linux("amd64"),
        };
        Release { url, binary_name: "ffmpeg".to_owned() }
    }

    /// The address of the static Linux build named `build`.
    fn linux(build: &str) -> (r: String)
        ensures
            r@ == FfmpegFetcher::linux_url(build@),
    {
        let mut out: Vec<char> = Vec::new();
        push_str(&mut out, "https://johnvansickle.com/ffmpeg/releases/ffmpeg-release-");
        push_str(&mut out, build);
        push_str(&mut out, "-static.tar.xz");
        string_of(out.as_slice())
    }
}

impl ReleaseFetcher for FfmpegFetcher {
    type Listing = ();

    /// The release of ffmpeg for a machine; nothing has to be fetched to
    /// know it.
    fn get_release(&self, listing: &(), platform: &Platform, architecture: &Architecture) -> (r:
        Result<Release, FetcherError>)
        ensures
            r matches Ok(release) && release.url@ == FfmpegFetcher::url_for(*platform, *architecture)
                && release.binary_name@ == "ffmpeg"@,
    {
        Ok(Self::release_for(platform, architecture))
    }
}

} // verus!
