//! The upstream catalog's data model and the query URLs the resolver
//! sends to it. The HTTP transport itself is supplied by the embedding
//! host; this module only states, exactly, which bytes go on the wire.

use vstd::prelude::*;

use crate::platform::{spec_arch_name, spec_os_name, HostEnvironment};
use crate::version::{spec_digits, u64_to_string};

verus! {

/// One downloadable package inside an upstream release asset.
pub struct AssetPackage {
    pub name: String,
    pub checksum: String,
    pub link: String,
}

/// One platform binary of an upstream release.
pub struct AssetBinary {
    pub package: AssetPackage,
}

/// An upstream release asset: the binaries the vendor published for
/// the queried release and platform.
pub struct Asset {
    pub binaries: Vec<AssetBinary>,
}

/// One release as the upstream version listing reports it. The vendor
/// calls the patch component "security"; `semver` is its own rendering
/// of the version.
pub struct ReleaseVersion {
    pub major: u64,
    pub minor: u64,
    pub patch: u64,
    pub build: u64,
    pub semver: String,
}

/// A page of the upstream version listing.
pub struct ReleaseVersions {
    pub versions: Vec<ReleaseVersion>,
}

/// The query URL that looks one release's asset up for a platform:
/// the release-name endpoint under the vendor `eclipse`, with the
/// fixed heap-size, image-type, JVM and project parameters.
pub open spec fn spec_asset_url(release: Seq<char>, arch: Seq<char>, os: Seq<char>) -> Seq<char> {
    "https://api.adoptium.net/v3/assets/release_name/eclipse/"@ + release + "?architecture="@
        + arch + "&os="@ + os + "&heap_size=normal&image_type=jdk&jvm_impl=hotspot&project=jdk"@
}

/// The query URL for the first page of the version listing: general
/// availability releases of the vendor `eclipse`, twenty per page.
pub open spec fn spec_versions_url(arch: Seq<char>, os: Seq<char>) -> Seq<char> {
    "https://api.adoptium.net/v3/info/release_versions?architecture="@ + arch + "&os="@ + os
        + "&heap_size=normal&image_type=jdk&jvm_impl=hotspot&page_size=20&project=jdk&release_type=ga&vendor=eclipse"@
}

/// Builds the asset-lookup URL for `release` on the platform of `env`.
pub fn release_asset_url(env: &HostEnvironment, release: &str) -> (r: String)
    ensures
        r@ == spec_asset_url(release@, spec_arch_name(env.arch), spec_os_name(env.os, env.libc)),
{
    let (architecture, os) = crate::platform::env_to_arch_and_os(env);
    let mut r = String::from_str("https://api.adoptium.net/v3/assets/release_name/eclipse/");
    r.append(release);
    r.append("?architecture=");
    r.append(architecture.as_str());
    r.append("&os=");
    r.append(os.as_str());
    r.append("&heap_size=normal&image_type=jdk&jvm_impl=hotspot&project=jdk");
    proof {
        assert(r@ =~= spec_asset_url(
            release@,
            spec_arch_name(env.arch),
            spec_os_name(env.os, env.libc),
        ));
    }
    r
}

/// Builds the first-page version-listing URL for the platform of `env`.
pub fn release_versions_url(env: &HostEnvironment) -> (r: String)
    ensures
        r@ == spec_versions_url(spec_arch_name(env.arch), spec_os_name(env.os, env.libc)),
{
    let (architecture, os) = crate::platform::env_to_arch_and_os(env);
    let mut r = String::from_str("https://api.adoptium.net/v3/info/release_versions?architecture=");
    r.append(architecture.as_str());
    r.append("&os=");
    r.append(os.as_str());
    r.append(
        "&heap_size=normal&image_type=jdk&jvm_impl=hotspot&page_size=20&project=jdk&release_type=ga&vendor=eclipse",
    );
    proof {
        assert(r@ =~= spec_versions_url(
            spec_arch_name(env.arch),
            spec_os_name(env.os, env.libc),
        ));
    }
    r
}

/// Appends the 0-based `page` parameter used from the second version
/// listing request on.
pub fn page_url(base: &str, page: u64) -> (r: String)
    ensures
        r@ == base@ + "&page="@ + spec_digits(page as nat),
{
    let mut r = String::from_str(base);
    r.append("&page=");
    r.append(u64_to_string(page).as_str());
    proof {
        assert(r@ =~= base@ + "&page="@ + spec_digits(page as nat));
    }
    r
}

} // verus!
