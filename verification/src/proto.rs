//! The resolver's decisions: tool metadata, the supported-platform
//! gate, artifact selection, the executable layout of an installed
//! archive, and the shaping of the upstream version listing.

use vstd::prelude::*;

use crate::adoptium_api::{Asset, ReleaseVersion, ReleaseVersions};
use crate::platform::{HostEnvironment, HostOs};
use crate::version::SemVersion;

verus! {

/// The error kinds the resolver can report. `UnsupportedPlatform` is
/// raised before any network call; `NoBinariesAvailable` means the
/// upstream truly has no build for the requested release and platform;
/// the last two are transport and decoding failures handed in by the
/// host.
#[derive(Clone, Copy, PartialEq, Eq, Structural, Debug)]
pub enum ResolveError {
    UnsupportedPlatform,
    NoBinariesAvailable,
    UpstreamUnreachable,
    MalformedResponse,
}

impl ResolveError {
    /// A user-facing message for the error.
    pub fn message(&self) -> (r: String)
        ensures
            *self == ResolveError::UnsupportedPlatform ==> r@ == "Unsupported platform."@,
            *self == ResolveError::NoBinariesAvailable ==> r@ == "API returned no binaries."@,
            *self == ResolveError::UpstreamUnreachable ==> r@ == "Upstream API is unreachable."@,
            *self == ResolveError::MalformedResponse ==> r@
                == "Upstream API returned a malformed response."@,
    {
        match self {
            ResolveError::UnsupportedPlatform => String::from_str("Unsupported platform."),
            ResolveError::NoBinariesAvailable => String::from_str("API returned no binaries."),
            ResolveError::UpstreamUnreachable => String::from_str("Upstream API is unreachable."),
            ResolveError::MalformedResponse => String::from_str(
                "Upstream API returned a malformed response.",
            ),
        }
    }
}

/// What the tool registers itself as with the plugin host.
pub struct ToolMetadata {
    pub name: String,
    pub minimum_proto_version: SemVersion,
}

/// The registration record: the tool's display name and the oldest
/// host version it works with.
pub fn register_tool() -> (r: ToolMetadata)
    ensures
        r.name@ == "Eclipse Adoptium OpenJDK"@,
        r.minimum_proto_version == (SemVersion { major: 0, minor: 46, patch: 0, build: 0 }),
{
    ToolMetadata {
        name: String::from_str("Eclipse Adoptium OpenJDK"),
        minimum_proto_version: SemVersion { major: 0, minor: 46, patch: 0, build: 0 },
    }
}

/// The checksum algorithm the upstream publishes; fixed to SHA-256.
#[derive(Clone, Copy, PartialEq, Eq, Structural, Debug)]
pub enum ChecksumAlgorithm {
    Sha256,
}

/// Everything the installer needs to download and verify one artifact.
pub struct DownloadInfo {
    /// The release name the artifact was looked up under; the archive
    /// unpacks below a directory of this name.
    pub archive_prefix: String,
    pub checksum_algo: ChecksumAlgorithm,
    pub checksum_hash: String,
    pub download_url: String,
}

/// Picks the artifact out of an upstream asset: the first binary's
/// package, under the release name it was looked up with and a SHA-256
/// checksum. Fails with `NoBinariesAvailable`, and only then, when the
/// asset carries no binaries at all.
pub fn select_artifact(release: &str, asset: &Asset) -> (r: Result<DownloadInfo, ResolveError>)
    ensures
        r is Err <==> asset.binaries@.len() == 0,
        r is Err ==> r->Err_0 == ResolveError::NoBinariesAvailable,
        r is Ok ==> {
            &&& r->Ok_0.archive_prefix@ == release@
            &&& r->Ok_0.checksum_algo == ChecksumAlgorithm::Sha256
            &&& r->Ok_0.checksum_hash@ == asset.binaries@[0].package.checksum@
            &&& r->Ok_0.download_url@ == asset.binaries@[0].package.link@
        },
{
    if asset.binaries.len() == 0 {
        Err(ResolveError::NoBinariesAvailable)
    } else {
        let binary = &asset.binaries[0];
        Ok(
            DownloadInfo {
                archive_prefix: String::from_str(release),
                checksum_algo: ChecksumAlgorithm::Sha256,
                checksum_hash: binary.package.checksum.clone(),
                download_url: binary.package.link.clone(),
            },
        )
    }
}

/// One executable the installed archive exposes.
pub struct ExecutableEntry {
    pub name: String,
    pub path: String,
    pub primary: bool,
}

/// The on-disk name of a binary: Windows executables carry `.exe`.
pub open spec fn spec_exe_name(os: HostOs, bin: Seq<char>) -> Seq<char> {
    if os == HostOs::Windows {
        bin + ".exe"@
    } else {
        bin
    }
}

/// Where a binary lives under the archive root: `Contents/Home/bin/`
/// on macOS, `bin/` everywhere else.
pub open spec fn spec_exe_path(os: HostOs, bin: Seq<char>) -> Seq<char> {
    spec_bin_dir(os) + "/"@ + spec_exe_name(os, bin)
}

/// The directory of the executables under the archive root.
pub open spec fn spec_bin_dir(os: HostOs) -> Seq<char> {
    if os == HostOs::MacOs {
        "Contents/Home/bin"@
    } else {
        "bin"@
    }
}

fn exe_entry(os: HostOs, bin: &str, primary: bool) -> (r: ExecutableEntry)
    ensures
        r.name@ == bin@,
        r.path@ == spec_exe_path(os, bin@),
        r.primary == primary,
{
    let mut path = if os == HostOs::MacOs {
        String::from_str("Contents/Home/bin/")
    } else {
        String::from_str("bin/")
    };
    path.append(bin);
    if os == HostOs::Windows {
        path.append(".exe");
    }
    proof {
        reveal_strlit("Contents/Home/bin");
        reveal_strlit("Contents/Home/bin/");
        reveal_strlit("bin");
        reveal_strlit("bin/");
        reveal_strlit("/");
        assert(path@ =~= spec_exe_path(os, bin@));
    }
    ExecutableEntry { name: String::from_str(bin), path, primary }
}

/// The executables an installed archive exposes, computed from the
/// operating system alone: the five JDK binaries, `java` first and
/// marked primary, each under the OS's binary directory.
pub fn locate_executables(env: &HostEnvironment) -> (r: Vec<ExecutableEntry>)
    ensures
        r@.len() == 5,
        r@[0].name@ == "java"@ && r@[0].primary,
        r@[1].name@ == "javac"@ && !r@[1].primary,
        r@[2].name@ == "javadoc"@ && !r@[2].primary,
        r@[3].name@ == "jar"@ && !r@[3].primary,
        r@[4].name@ == "keytool"@ && !r@[4].primary,
        forall|i: int|
            0 <= i < r@.len() ==> (#[trigger] r@[i]).path@ == spec_exe_path(env.os, r@[i].name@),
{
    let mut r: Vec<ExecutableEntry> = Vec::new();
    r.push(exe_entry(env.os, "java", true));
    r.push(exe_entry(env.os, "javac", false));
    r.push(exe_entry(env.os, "javadoc", false));
    r.push(exe_entry(env.os, "jar", false));
    r.push(exe_entry(env.os, "keytool", false));
    r
}

/// The directory, relative to the archive root, where the executables
/// live.
pub fn executables_dir(env: &HostEnvironment) -> (r: String)
    ensures
        r@ == spec_bin_dir(env.os),
{
    if env.os == HostOs::MacOs {
        String::from_str("Contents/Home/bin")
    } else {
        String::from_str("bin")
    }
}

/// The semantic version a catalog record stands for.
pub open spec fn spec_sem_of(r: ReleaseVersion) -> SemVersion {
    SemVersion { major: r.major, minor: r.minor, patch: r.patch, build: r.build }
}

/// The shaped version listing: every record as a semantic version, and
/// the `latest` alias.
pub struct VersionsOutput {
    pub versions: Vec<SemVersion>,
    pub latest: SemVersion,
}

/// Turns the upstream records into semantic versions, preserving the
/// upstream order (assumed newest first), and binds `latest` to the
/// first record; an empty listing leaves `latest` at version 0.
pub fn load_versions(releases: &ReleaseVersions) -> (r: VersionsOutput)
    ensures
        r.versions@.len() == releases.versions@.len(),
        forall|i: int|
            0 <= i < releases.versions@.len() ==> #[trigger] r.versions@[i] == spec_sem_of(
                releases.versions@[i],
            ),
        releases.versions@.len() > 0 ==> r.latest == spec_sem_of(releases.versions@[0]),
        releases.versions@.len() == 0 ==> r.latest == (SemVersion {
            major: 0,
            minor: 0,
            patch: 0,
            build: 0,
        }),
{
    let mut versions: Vec<SemVersion> = Vec::new();
    let mut i: usize = 0;
    while i < releases.versions.len()
        invariant
            i <= releases.versions@.len(),
            versions@.len() == i as nat,
            forall|j: int|
                0 <= j < i as int ==> #[trigger] versions@[j] == spec_sem_of(
                    releases.versions@[j],
                ),
        decreases releases.versions@.len() - i,
    {
        let record = &releases.versions[i];
        versions.push(
            SemVersion {
                major: record.major,
                minor: record.minor,
                patch: record.patch,
                build: record.build,
            },
        );
        i = i + 1;
    }
    let latest = if versions.len() > 0 {
        versions[0]
    } else {
        SemVersion { major: 0, minor: 0, patch: 0, build: 0 }
    };
    VersionsOutput { versions, latest }
}

} // verus!
