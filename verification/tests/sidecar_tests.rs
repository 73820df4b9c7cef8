use ferris::binary_sidecar::deps::ffmpeg::FfmpegFetcher;
use ferris::binary_sidecar::deps::ytdlp::{GitHubRelease, GithubAsset, YtdlpFetcher};
use ferris::binary_sidecar::deps::{FetcherError, Release, ReleaseFetcher};
use ferris::binary_sidecar::utils::architecture::Architecture;
use ferris::binary_sidecar::utils::platform::Platform;
use ferris::binary_sidecar::{find_binary, is_directory_entry, ArchiveKind, Binary, ExecutionError};
use std::path::PathBuf;

fn listing(names: &[&str]) -> GitHubRelease {
    GitHubRelease {
        tag_name: "2025.01.01".to_string(),
        assets: names
            .iter()
            .map(|n| GithubAsset {
                name: n.to_string(),
                download_url: format!("https://example.org/{}", n),
            })
            .collect(),
    }
}

#[test]
fn detects_the_platform_by_its_name() {
    assert_eq!(Platform::detect("windows"), Platform::Windows);
    assert_eq!(Platform::detect("linux"), Platform::Linux);
    assert_eq!(Platform::detect("macos"), Platform::Mac);
    assert_eq!(Platform::detect("freebsd"), Platform::Unknown("freebsd".to_string()));
    assert_eq!(Platform::Mac.to_string(), "MacOS");
    assert_eq!(Platform::Unknown("plan9".to_string()).to_string(), "Unknown: plan9");
}

#[test]
fn detects_the_architecture_by_its_name() {
    assert_eq!(Architecture::detect("x86_64"), Architecture::X64);
    assert_eq!(Architecture::detect("x86"), Architecture::X86);
    assert_eq!(Architecture::detect("armv7l"), Architecture::Armv7l);
    assert_eq!(Architecture::detect("aarch64"), Architecture::Aarch64);
    assert_eq!(Architecture::detect("riscv64"), Architecture::Unknown("riscv64".to_string()));
    assert_eq!(Architecture::X64.to_string(), "x64");
    assert_eq!(Architecture::Unknown("mips".to_string()).to_string(), "Unknown: mips");
}

#[test]
fn ffmpeg_is_offered_for_every_machine() {
    let fetcher = FfmpegFetcher::new();
    let url = |p: Platform, a: Architecture| fetcher.get_release(&(), &p, &a).unwrap().url;
    assert_eq!(
        url(Platform::Windows, Architecture::X64),
        "https://www.gyan.dev/ffmpeg/builds/ffmpeg-release-essentials.zip"
    );
    assert_eq!(url(Platform::Mac, Architecture::Aarch64), "https://www.osxexperts.net/ffmpeg71arm.zip");
    assert_eq!(url(Platform::Mac, Architecture::X86), "https://www.osxexperts.net/ffmpeg71intel.zip");
    assert_eq!(
        url(Platform::Linux, Architecture::Armv7l),
        "https://johnvansickle.com/ffmpeg/releases/ffmpeg-release-armv7-static.tar.xz"
    );
    assert_eq!(
        url(Platform::Linux, Architecture::X86),
        "https://johnvansickle.com/ffmpeg/releases/ffmpeg-release-i686-static.tar.xz"
    );
    assert_eq!(
        url(Platform::Linux, Architecture::Aarch64),
        "https://johnvansickle.com/ffmpeg/releases/ffmpeg-release-arm64-static.tar.xz"
    );
    assert_eq!(
        url(Platform::Unknown("bsd".to_string()), Architecture::Aarch64),
        "https://johnvansickle.com/ffmpeg/releases/ffmpeg-release-amd64-static.tar.xz"
    );
    assert_eq!(
        FfmpegFetcher::release_for(&Platform::Linux, &Architecture::Unknown("x".to_string())),
        Release {
            url: "https://johnvansickle.com/ffmpeg/releases/ffmpeg-release-amd64-static.tar.xz"
                .to_string(),
            binary_name: "ffmpeg".to_string()
        }
    );
}

#[test]
fn ytdlp_takes_the_first_file_with_the_marker() {
    let release = listing(&["SHA2-256SUMS", "yt-dlp", "yt-dlp_linux_aarch64", "yt-dlp_linux", "yt-dlp.exe", "yt-dlp_x86.exe"]);
    let fetcher = YtdlpFetcher::new();
    let pick = |p: Platform, a: Architecture| fetcher.get_release(&release, &p, &a);
    assert_eq!(
        pick(Platform::Linux, Architecture::X64),
        Ok(Release {
            url: "https://example.org/yt-dlp_linux_aarch64".to_string(),
            binary_name: "yt-dlp_linux_aarch64".to_string()
        })
    );
    assert_eq!(pick(Platform::Linux, Architecture::Aarch64).unwrap().binary_name, "yt-dlp_linux_aarch64");
    assert_eq!(pick(Platform::Windows, Architecture::X64).unwrap().binary_name, "yt-dlp.exe");
    assert_eq!(pick(Platform::Windows, Architecture::X86).unwrap().binary_name, "yt-dlp_x86.exe");
}

#[test]
fn ytdlp_reports_a_machine_without_file() {
    let release = listing(&["yt-dlp", "yt-dlp_linux"]);
    assert_eq!(
        YtdlpFetcher::select_release(&release, &Platform::Linux, &Architecture::Armv7l),
        Err(FetcherError::AssetNotFound(
            "Could not find asset for platform: Linux, architecture: Armv7l".to_string()
        ))
    );
    assert_eq!(
        YtdlpFetcher::select_release(&release, &Platform::Linux, &Architecture::X86),
        Err(FetcherError::AssetNotFound(
            "Could not find asset for platform: Linux, architecture: X86".to_string()
        ))
    );
    assert_eq!(
        YtdlpFetcher::select_release(
            &release,
            &Platform::Unknown("bsd".to_string()),
            &Architecture::X64
        ),
        Err(FetcherError::AssetNotFound(
            "Could not find asset for platform: Unknown(\"bsd\"), architecture: X64".to_string()
        ))
    );
    assert!(YtdlpFetcher::select_release(&release, &Platform::Mac, &Architecture::X64).is_err());
    assert!(YtdlpFetcher::select_release(&listing(&[]), &Platform::Linux, &Architecture::X64).is_err());
}

#[test]
fn the_listing_of_ytdlp() {
    assert_eq!(
        YtdlpFetcher::new().release_url(),
        "https://api.github.com/repos/yt-dlp/yt-dlp/releases/latest"
    );
    let release = listing(&["a", "b"]);
    assert_eq!(release.to_string(), "Release: tag=2025.01.01, assets=2;");
    assert_eq!(release.assets[0].to_string(), "Asset: name=a, url=https://example.org/a;");
}

#[test]
fn releases_and_their_errors_are_written() {
    let release = Release { url: "https://x/y.zip".to_string(), binary_name: "y".to_string() };
    assert_eq!(release.to_string(), "Release: https://x/y.zip");
    assert_eq!(FetcherError::NetworkError("down".to_string()).to_string(), "Network error: down");
    assert_eq!(FetcherError::ParseError("bad".to_string()).to_string(), "Parse error: bad");
    assert_eq!(FetcherError::AssetNotFound("x".to_string()).to_string(), "Asset not found: x");
    assert_eq!(FetcherError::Other("y".to_string()).to_string(), "Other error: y");
}

#[test]
fn the_archive_is_known_by_its_ending() {
    assert_eq!(ArchiveKind::of_url("https://x/ffmpeg.zip"), ArchiveKind::Zip);
    assert_eq!(ArchiveKind::of_url("https://x/ffmpeg.tar.xz"), ArchiveKind::TarXz);
    assert_eq!(ArchiveKind::of_url("https://x/ffmpeg.tar.gz"), ArchiveKind::TarGz);
    assert_eq!(ArchiveKind::of_url("https://x/ffmpeg.tgz"), ArchiveKind::TarGz);
    assert_eq!(ArchiveKind::of_url("https://x/yt-dlp_linux"), ArchiveKind::Plain);
    assert_eq!(ArchiveKind::of_url("zip"), ArchiveKind::Plain);
    assert_eq!(ArchiveKind::of_url(""), ArchiveKind::Plain);
}

#[test]
fn the_program_is_found_among_the_unpacked_files() {
    let names: Vec<String> =
        ["README", "ffmpeg.txt", "ffmpeg.exe", "ffmpeg"].iter().map(|n| n.to_string()).collect();
    assert_eq!(find_binary(&names, "ffmpeg"), Some(2));
    assert_eq!(find_binary(&names, "README"), Some(0));
    assert_eq!(find_binary(&names, "ffprobe"), None);
    assert_eq!(find_binary(&Vec::new(), "ffmpeg"), None);
    assert!(is_directory_entry("bin/"));
    assert!(!is_directory_entry("bin/ffmpeg"));
}

#[test]
fn a_run_is_judged_by_how_it_ended() {
    let binary = Binary::new(PathBuf::from("/opt/bin/ffmpeg"));
    assert_eq!(binary.path(), &PathBuf::from("/opt/bin/ffmpeg"));
    assert_eq!(binary.clone().path(), binary.path());
    assert_eq!(binary.execute(true, Some(0)), Ok(()));
    assert_eq!(binary.execute(false, Some(3)), Err(ExecutionError::NonZeroExit(3)));
    assert_eq!(binary.execute(false, None), Err(ExecutionError::TerminatedBySignal));
}
