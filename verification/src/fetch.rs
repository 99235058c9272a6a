//! Locating a decoder build to download.
//!
//! The engine decodes through an external decoder binary. When none is
//! installed, the application offers a set of known builds per platform;
//! the choice of archive URL for a requested version is decided here. The
//! download and extraction themselves are I/O and live outside the engine.

use vstd::prelude::*;

use vstd::string::{StringExecFns, StringSliceAdditionalSpecFns};

verus! {

/// Whether a usable decoder binary was found, and where.
#[derive(Debug, Clone)]
pub enum FFmpegStatus {
    Ready { path: String, version: String },
    Missing,
    ManualRequired,
}

/// Progress of a decoder download.
#[derive(Debug, Clone)]
pub struct DownloadProgress {
    pub progress: u64,
    pub total: u64,
}

/// A decoder build the application knows how to fetch.
#[derive(Debug, Clone)]
pub struct FFmpegVersion {
    pub id: String,
    pub name: String,
    pub description: String,
}

/// The platform a build is fetched for. The caller passes the platform it
/// was compiled for.
#[derive(Debug, Clone, Copy, PartialEq, Eq, Structural)]
pub enum Os {
    Windows,
    MacOs,
    Linux,
}

/// The bytes of the version id `latest`.
pub open spec fn bytes_latest() -> Seq<u8> {
    seq![108u8, 97u8, 116u8, 101u8, 115u8, 116u8]
}

/// The bytes of the version id `6.1.1`.
pub open spec fn bytes_611() -> Seq<u8> {
    seq![54u8, 46u8, 49u8, 46u8, 49u8]
}

/// The bytes of the version id `5.1.4`.
pub open spec fn bytes_514() -> Seq<u8> {
    seq![53u8, 46u8, 49u8, 46u8, 52u8]
}

/// The bytes of the version id `4.4.1`.
pub open spec fn bytes_441() -> Seq<u8> {
    seq![52u8, 46u8, 52u8, 46u8, 49u8]
}

fn eq_latest(b: &[u8]) -> (r: bool)
    ensures
        r == (b@ == bytes_latest()),
{
    let r = b.len() == 6 && b[0] == 108 && b[1] == 97 && b[2] == 116 && b[3] == 101 && b[4] == 115
        && b[5] == 116;
    proof {
        if r {
            assert(b@ =~= bytes_latest());
        }
    }
    r
}

fn eq_611(b: &[u8]) -> (r: bool)
    ensures
        r == (b@ == bytes_611()),
{
    let r = b.len() == 5 && b[0] == 54 && b[1] == 46 && b[2] == 49 && b[3] == 46 && b[4] == 49;
    proof {
        if r {
            assert(b@ =~= bytes_611());
        }
    }
    r
}

fn eq_514(b: &[u8]) -> (r: bool)
    ensures
        r == (b@ == bytes_514()),
{
    let r = b.len() == 5 && b[0] == 53 && b[1] == 46 && b[2] == 49 && b[3] == 46 && b[4] == 52;
    proof {
        if r {
            assert(b@ =~= bytes_514());
        }
    }
    r
}

fn eq_441(b: &[u8]) -> (r: bool)
    ensures
        r == (b@ == bytes_441()),
{
    let r = b.len() == 5 && b[0] == 52 && b[1] == 46 && b[2] == 52 && b[3] == 46 && b[4] == 49;
    proof {
        if r {
            assert(b@ =~= bytes_441());
        }
    }
    r
}

/// The version ids that resolve to an archive on each platform.
pub open spec fn spec_version_known(os: Os, v: Seq<u8>) -> bool {
    match os {
        Os::Windows => v == bytes_latest() || v == bytes_611() || v == bytes_514() || v
            == bytes_441(),
        Os::MacOs => v == bytes_latest() || v == bytes_441(),
        Os::Linux => v == bytes_latest() || v == bytes_441(),
    }
}

/// The archive URL and local archive name for a requested decoder version on
/// a platform. An unknown version is refused, named in the error.
pub fn resolve_ffmpeg_url(os: Os, version: &str) -> (r: Result<
    (&'static str, &'static str),
    String,
>)
    ensures
        r is Ok <==> spec_version_known(os, version.spec_bytes()),
        (os is Windows && r is Err) ==> (r matches Err(e) && e@
            == "Unknown version for Windows: "@ + version@),
        (os is MacOs && r is Err) ==> (r matches Err(e) && e@ == "Unknown version for macOS: "@
            + version@),
        (os is Linux && r is Err) ==> (r matches Err(e) && e@ == "Unknown version for Linux: "@
            + version@),
        r matches Ok((url, zip)) ==> zip@ == "ffmpeg.zip"@,
        (os is Windows && version.spec_bytes() == bytes_latest()) ==> (r matches Ok((url, zip))
            && url@ == "https://www.gyan.dev/ffmpeg/builds/ffmpeg-release-essentials.zip"@),
        (os is Windows && version.spec_bytes() == bytes_611()) ==> (r matches Ok((url, zip)) && url@
            == "https://www.gyan.dev/ffmpeg/builds/packages/ffmpeg-6.1.1-essentials_build.zip"@),
        (os is Windows && version.spec_bytes() == bytes_514()) ==> (r matches Ok((url, zip)) && url@
            == "https://www.gyan.dev/ffmpeg/builds/packages/ffmpeg-5.1.4-essentials_build.zip"@),
        (os is Windows && version.spec_bytes() == bytes_441()) ==> (r matches Ok((url, zip)) && url@
            == "https://github.com/ffbinaries/ffbinaries-prebuilt/releases/download/v4.4.1/ffmpeg-4.4.1-win-64.zip"@),
        (os is MacOs && version.spec_bytes() == bytes_latest()) ==> (r matches Ok((url, zip))
            && url@ == "https://evermeet.cx/ffmpeg/ffmpeg.zip"@),
        (os is MacOs && version.spec_bytes() == bytes_441()) ==> (r matches Ok((url, zip)) && url@
            == "https://github.com/ffbinaries/ffbinaries-prebuilt/releases/download/v4.4.1/ffmpeg-4.4.1-osx-64.zip"@),
        (os is Linux && spec_version_known(os, version.spec_bytes())) ==> (r matches Ok((url, zip))
            && url@
            == "https://github.com/ffbinaries/ffbinaries-prebuilt/releases/download/v4.4.1/ffmpeg-4.4.1-linux-64.zip"@),
{
    let b = version.as_bytes();
    match os {
        Os::Windows => {
            if eq_latest(b) {
                Ok(("https://www.gyan.dev/ffmpeg/builds/ffmpeg-release-essentials.zip", "ffmpeg.zip"))
            } else if eq_611(b) {
                Ok((
                    "https://www.gyan.dev/ffmpeg/builds/packages/ffmpeg-6.1.1-essentials_build.zip",
                    "ffmpeg.zip",
                ))
            } else if eq_514(b) {
                Ok((
                    "https://www.gyan.dev/ffmpeg/builds/packages/ffmpeg-5.1.4-essentials_build.zip",
                    "ffmpeg.zip",
                ))
            } else if eq_441(b) {
                Ok((
                    "https://github.com/ffbinaries/ffbinaries-prebuilt/releases/download/v4.4.1/ffmpeg-4.4.1-win-64.zip",
                    "ffmpeg.zip",
                ))
            } else {
                Err("Unknown version for Windows: ".to_owned().concat(version))
            }
        },
        Os::MacOs => {
            if eq_latest(b) {
                Ok(("https://evermeet.cx/ffmpeg/ffmpeg.zip", "ffmpeg.zip"))
            } else if eq_441(b) {
                Ok((
                    "https://github.com/ffbinaries/ffbinaries-prebuilt/releases/download/v4.4.1/ffmpeg-4.4.1-osx-64.zip",
                    "ffmpeg.zip",
                ))
            } else {
                Err("Unknown version for macOS: ".to_owned().concat(version))
            }
        },
        Os::Linux => {
            if eq_441(b) || eq_latest(b) {
                Ok((
                    "https://github.com/ffbinaries/ffbinaries-prebuilt/releases/download/v4.4.1/ffmpeg-4.4.1-linux-64.zip",
                    "ffmpeg.zip",
                ))
            } else {
                Err("Unknown version for Linux: ".to_owned().concat(version))
            }
        },
    }
}

/// The decoder builds offered on a platform: the latest stable build
/// everywhere, two pinned builds only on Windows, and a legacy build
/// everywhere.
pub fn get_supported_ffmpeg_versions(os: Os) -> (r: Vec<FFmpegVersion>)
    ensures
        r@.len() == (if os is Windows {
            4int
        } else {
            2int
        }),
        r@[0].id@ == "latest"@,
        r@[r@.len() - 1].id@ == "4.4.1"@,
        os is Windows ==> r@[1].id@ == "6.1.1"@ && r@[2].id@ == "5.1.4"@,
{
    let mut versions: Vec<FFmpegVersion> = Vec::new();
    versions.push(
        FFmpegVersion {
            id: "latest".to_owned(),
            name: "Latest Stable".to_owned(),
            description: "Recommended. Best support for newer formats (M4A/AAC).".to_owned(),
        },
    );
    match os {
        Os::Windows => {
            versions.push(
                FFmpegVersion {
                    id: "6.1.1".to_owned(),
                    name: "v6.1.1".to_owned(),
                    description: "Stable release from 2023.".to_owned(),
                },
            );
            versions.push(
                FFmpegVersion {
                    id: "5.1.4".to_owned(),
                    name: "v5.1.4".to_owned(),
                    description: "LTS release from 2022.".to_owned(),
                },
            );
        },
        _ => {},
    }
    versions.push(
        FFmpegVersion {
            id: "4.4.1".to_owned(),
            name: "v4.4.1 (Legacy)".to_owned(),
            description: "Older release. Use if you experience compatibility issues.".to_owned(),
        },
    );
    versions
}

} // verus!
