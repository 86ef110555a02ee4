//! Names of the remote endpoints and of the downloaded bundle.
use vstd::prelude::*;
use crate::platform::{arch_token_of, os_token_of, Target};

verus! {

/// The remote directory that holds the published bundles.
pub const DEFAULT_BUNDLES_BASE: &'static str = "https://update.tabnine.com/bundles";

/// The address that answers with the latest version, below `base`.
pub open spec fn version_url_of(base: Seq<char>) -> Seq<char> {
    base + "/version"@
}

/// The address of the bundle of `version` for `t`, below `base`.
pub open spec fn download_url_of(base: Seq<char>, version: Seq<char>, t: Target) -> Seq<char> {
    base + "/"@ + version + "/"@ + arch_token_of(t.arch) + "-"@ + os_token_of(t.os)
        + "/TabNine.zip"@
}

/// The local file name of the downloaded bundle of `version` for `t`.
pub open spec fn archive_name_of(version: Seq<char>, t: Target) -> Seq<char> {
    "TabNine-"@ + version + "-"@ + arch_token_of(t.arch) + "-"@ + os_token_of(t.os) + ".zip"@
}

/// The address that answers with the latest version.
pub fn version_url(base: &str) -> (r: String)
    ensures
        r@ == version_url_of(base@),
{
    String::from_str(base).concat("/version")
}

/// The address of the bundle of `version` for `t`.
pub fn download_url(base: &str, version: &str, t: Target) -> (r: String)
    ensures
        r@ == download_url_of(base@, version@, t),
{
    let mut s = String::from_str(base);
    s.append("/");
    s.append(version);
    s.append("/");
    s.append(t.arch.token());
    s.append("-");
    s.append(t.os.token());
    s.append("/TabNine.zip");
    s
}

/// The local file name of the downloaded bundle; it carries the version and
/// the target so that different bundles do not share a file.
pub fn archive_file_name(version: &str, t: Target) -> (r: String)
    ensures
        r@ == archive_name_of(version@, t),
{
    let mut s = String::from_str("TabNine-");
    s.append(version);
    s.append("-");
    s.append(t.arch.token());
    s.append("-");
    s.append(t.os.token());
    s.append(".zip");
    s
}

} // verus!
