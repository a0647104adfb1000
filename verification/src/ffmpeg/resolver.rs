//! Where the FFmpeg binary is looked for, and where it is downloaded from.

use sha2::Digest;
use vstd::prelude::*;

use crate::ffmpeg::error::FfmpegError;
use crate::text::{hex_encode, hex_lower, join2, join_path, owned, path_join, str_eq};

verus! {

/// A prebuilt FFmpeg archive for one operating system and architecture.
#[derive(Debug, Clone)]
pub struct PlatformBinaries {
    pub os: String,
    pub arch: String,
    pub url: String,
    pub checksum: Option<String>,
}

/// The archive offered for an operating system and architecture, if any.
pub open spec fn download_url_for(os: Seq<char>, arch: Seq<char>) -> Option<Seq<char>> {
    if os == "linux"@ && arch == "x86_64"@ {
        Some("https://johnvansickle.com/ffmpeg/releases/ffmpeg-release-amd64-static.tar.xz"@)
    } else if os == "linux"@ && arch == "aarch64"@ {
        Some("https://johnvansickle.com/ffmpeg/releases/ffmpeg-release-arm64-static.tar.xz"@)
    } else if os == "linux"@ && arch == "arm"@ {
        Some("https://johnvansickle.com/ffmpeg/releases/ffmpeg-release-armhf-static.tar.xz"@)
    } else if os == "macos"@ && (arch == "x86_64"@ || arch == "aarch64"@) {
        Some("https://evermeet.cx/ffmpeg/ffmpeg-7.1.1.zip"@)
    } else if os == "windows"@ && arch == "x86_64"@ {
        Some("https://www.gyan.dev/ffmpeg/builds/ffmpeg-release-essentials.zip"@)
    } else {
        None
    }
}

impl PlatformBinaries {
    /// The archive for `os` and `arch` (as `std::env::consts` names them),
    /// without a known checksum.
    pub fn for_platform(os: &str, arch: &str) -> (r: Option<Self>)
        ensures
            r.is_some() == download_url_for(os@, arch@).is_some(),
            r matches Some(p) ==> p.os@ == os@ && p.arch@ == arch@
                && p.url@ == download_url_for(os@, arch@).unwrap() && p.checksum.is_none(),
    {
        let linux = str_eq(os, "linux");
        let macos = str_eq(os, "macos");
        let windows = str_eq(os, "windows");
        let x86_64 = str_eq(arch, "x86_64");
        let aarch64 = str_eq(arch, "aarch64");
        let arm = str_eq(arch, "arm");
        let url = if linux && x86_64 {
            "https://johnvansickle.com/ffmpeg/releases/ffmpeg-release-amd64-static.tar.xz"
        } else if linux && aarch64 {
            "https://johnvansickle.com/ffmpeg/releases/ffmpeg-release-arm64-static.tar.xz"
        } else if linux && arm {
            "https://johnvansickle.com/ffmpeg/releases/ffmpeg-release-armhf-static.tar.xz"
        } else if macos && (x86_64 || aarch64) {
            "https://evermeet.cx/ffmpeg/ffmpeg-7.1.1.zip"
        } else if windows && x86_64 {
            "https://www.gyan.dev/ffmpeg/builds/ffmpeg-release-essentials.zip"
        } else {
            return None;
        };
        Some(PlatformBinaries { os: owned(os), arch: owned(arch), url: owned(url), checksum: None })
    }
}

/// `sha2::Sha256::digest`: the SHA-256 digest of a byte string.
pub uninterp spec fn sha256_of(data: Seq<u8>) -> Seq<u8>;

/// `sha2::Sha256::new`, `update` and `finalize`: hashes `data`. The digest
/// is the named function of the input, and is 32 bytes long.
#[verifier::external_body]
fn sha256_digest(data: &[u8]) -> (r: Vec<u8>)
    ensures
        r@ == sha256_of(data@),
        r@.len() == 32,
{
    let mut hasher = sha2::Sha256::new();
    hasher.update(data);
    hasher.finalize().to_vec()
}

/// Checks a downloaded archive against the expected lowercase hex SHA-256
/// digest, when there is one.
pub fn verify_checksum(data: &[u8], expected: &Option<String>) -> (r: Result<(), FfmpegError>)
    ensures
        match expected {
            None => r is Ok,
            Some(e) => {
                let actual = hex_lower(sha256_of(data@));
                if actual == e@ {
                    r is Ok
                } else {
                    r matches Err(FfmpegError::ChecksumMismatch { expected: x, actual: a })
                        && x@ == e@ && a@ == actual
                }
            },
        },
{
    match expected {
        None => Ok(()),
        Some(e) => {
            let digest = sha256_digest(data);
            let actual = hex_encode(digest.as_slice());
            if actual == *e {
                Ok(())
            } else {
                Err(FfmpegError::ChecksumMismatch { expected: e.clone(), actual })
            }
        },
    }
}

/// Finds the FFmpeg binary: an explicit path, then the local cache, then
/// the `PATH`.
#[derive(Debug, Clone)]
pub struct BinaryResolver {
    pub data_dir: String,
    pub custom_path: Option<String>,
    pub windows_host: bool,
}

/// The executable name of a tool on the host.
pub open spec fn exe_name(tool: Seq<char>, windows_host: bool) -> Seq<char> {
    if windows_host {
        tool + ".exe"@
    } else {
        tool
    }
}

impl BinaryResolver {
    /// A resolver that keeps its binaries under `data_dir/bin`.
    /// `windows_host` tells whether executables carry an `.exe` suffix.
    pub fn new(data_dir: String, windows_host: bool) -> (r: Self)
        ensures
            r.data_dir == data_dir,
            r.custom_path.is_none(),
            r.windows_host == windows_host,
    {
        BinaryResolver { data_dir, custom_path: None, windows_host }
    }

    /// Uses `path` in place of any search.
    pub fn with_custom_path(self, path: String) -> (r: Self)
        ensures
            r.custom_path == Some(path),
            r.data_dir == self.data_dir,
            r.windows_host == self.windows_host,
    {
        let mut r = self;
        r.custom_path = Some(path);
        r
    }

    /// The directory of cached binaries.
    pub fn bin_dir(&self) -> (r: String)
        ensures
            r@ == path_join(self.data_dir@, "bin"@),
    {
        join_path(self.data_dir.as_str(), "bin")
    }

    /// The cached `ffmpeg` executable.
    pub fn ffmpeg_path(&self) -> (r: String)
        ensures
            r@ == path_join(path_join(self.data_dir@, "bin"@), exe_name("ffmpeg"@, self.windows_host)),
    {
        let dir = self.bin_dir();
        if self.windows_host {
            proof {
                reveal_strlit("ffmpeg");
                reveal_strlit(".exe");
                reveal_strlit("ffmpeg.exe");
                assert("ffmpeg"@ + ".exe"@ =~= "ffmpeg.exe"@);
            }
            join_path(dir.as_str(), "ffmpeg.exe")
        } else {
            join_path(dir.as_str(), "ffmpeg")
        }
    }

    /// The cached `ffprobe` executable.
    pub fn ffprobe_path(&self) -> (r: String)
        ensures
            r@ == path_join(path_join(self.data_dir@, "bin"@), exe_name("ffprobe"@, self.windows_host)),
    {
        let dir = self.bin_dir();
        if self.windows_host {
            proof {
                reveal_strlit("ffprobe");
                reveal_strlit(".exe");
                reveal_strlit("ffprobe.exe");
                assert("ffprobe"@ + ".exe"@ =~= "ffprobe.exe"@);
            }
            join_path(dir.as_str(), "ffprobe.exe")
        } else {
            join_path(dir.as_str(), "ffprobe")
        }
    }

    /// Picks the binary from what the host reports: whether the custom path
    /// exists, whether the cached binary exists, and what a `PATH` search found.
    pub fn select_ffmpeg(&self, custom_exists: bool, cached_exists: bool, on_path: Option<String>) -> (r: Result<String, FfmpegError>)
        ensures
            match self.custom_path {
                Some(c) => if custom_exists {
                    r == Ok::<String, FfmpegError>(c)
                } else {
                    r matches Err(FfmpegError::BinaryNotFound(m)) && m@ == "Custom path does not exist: "@ + c@
                },
                None => if cached_exists {
                    r matches Ok(p) && p@ == path_join(path_join(self.data_dir@, "bin"@), exe_name("ffmpeg"@, self.windows_host))
                } else {
                    match on_path {
                        Some(p) => r == Ok::<String, FfmpegError>(p),
                        None => r matches Err(FfmpegError::BinaryNotFound(m))
                            && m@ == "FFmpeg not found. Install it or use BinaryResolver::download()"@,
                    }
                },
            },
    {
        match &self.custom_path {
            Some(c) => {
                if custom_exists {
                    Ok(c.clone())
                } else {
                    Err(FfmpegError::BinaryNotFound(join2("Custom path does not exist: ", c.as_str())))
                }
            },
            None => {
                if cached_exists {
                    Ok(self.ffmpeg_path())
                } else {
                    match on_path {
                        Some(p) => Ok(p),
                        None => Err(FfmpegError::BinaryNotFound(owned("FFmpeg not found. Install it or use BinaryResolver::download()"))),
                    }
                }
            },
        }
    }

    /// Whether a binary can be found, from the same reports as
    /// `select_ffmpeg`.
    pub fn is_available(&self, custom_exists: bool, cached_exists: bool, on_path: Option<String>) -> (r: bool)
        ensures
            r == match self.custom_path {
                Some(_) => custom_exists,
                None => cached_exists || on_path.is_some(),
            },
    {
        self.select_ffmpeg(custom_exists, cached_exists, on_path).is_ok()
    }
}

} // verus!
