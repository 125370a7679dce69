//! Deterministic construction of artifact names and install paths.
//!
//! Two representations of a version tag are in play, each in its own place:
//! the artifact name is built from the *normalized* tag (leading `"v"`
//! stripped), while the local version directory keeps the *raw* tag exactly
//! as published.

use vstd::prelude::*;

use crate::error::Error;
use crate::platform::{arch_token, os_token, Os, PlatformDescriptor};

verus! {

/// The version tag with a single leading `'v'` stripped, if one is there.
pub open spec fn normalized_version(tag: Seq<char>) -> Seq<char> {
    if tag.len() > 0 && tag[0] == 'v' {
        tag.subrange(1, tag.len() as int)
    } else {
        tag
    }
}

/// Strips the leading `"v"` of a version tag, if present.
pub fn normalize_version(tag: &str) -> (r: String)
    ensures
        r@ == normalized_version(tag@),
{
    let n: usize = tag.unicode_len();
    if n > 0 {
        let c = tag.get_char(0);
        if c == 'v' {
            return String::from_str(tag.substring_char(1, n));
        }
    }
    String::from_str(tag)
}

/// The artifact name the release must carry for this platform:
/// `dafny-<normalized version>-<architecture>-<operating system>.zip`.
pub open spec fn expected_asset_name_for(version_tag: Seq<char>, d: PlatformDescriptor) -> Seq<
    char,
> {
    "dafny-"@ + normalized_version(version_tag) + "-"@ + arch_token(d.arch) + "-"@ + os_token(d.os)
        + ".zip"@
}

/// Builds the expected artifact name, or rejects the platform where no
/// artifact is published for it.
pub fn expected_asset_name(version_tag: &str, d: PlatformDescriptor) -> (r: Result<String, Error>)
    ensures
        r is Ok <==> d.supported(),
        r matches Ok(s) ==> s@ == expected_asset_name_for(version_tag@, d),
        r matches Err(e) ==> e == Error::UnsupportedPlatform,
{
    let (arch, os) = match crate::platform::to_asset_fragment(d) {
        Ok(pair) => pair,
        Err(e) => {
            return Err(e);
        },
    };
    let version = normalize_version(version_tag);
    let name = String::from_str("dafny-").concat(version.as_str()).concat("-").concat(
        arch.as_str(),
    ).concat("-").concat(os.as_str()).concat(".zip");
    proof {
        assert(name@ =~= expected_asset_name_for(version_tag@, d));
    }
    Ok(name)
}

/// The version-scoped install directory: `dafny-<raw version tag>`, the tag
/// kept exactly as published.
pub open spec fn version_dir_for(version_tag: Seq<char>) -> Seq<char> {
    "dafny-"@ + version_tag
}

/// Builds the version directory name from the raw tag.
pub fn version_dir_name(version_tag: &str) -> (r: String)
    ensures
        r@ == version_dir_for(version_tag@),
{
    String::from_str("dafny-").concat(version_tag)
}

/// The binary's filename inside the extracted tree, which depends on the
/// operating system alone.
pub open spec fn binary_filename(os: Os) -> Seq<char> {
    match os {
        Os::Windows => "Dafny.exe"@,
        Os::Mac => "dafny"@,
        Os::Linux => "dafny"@,
    }
}

/// Builds the platform-specific binary filename.
pub fn binary_file_name(os: Os) -> (r: String)
    ensures
        r@ == binary_filename(os),
{
    match os {
        Os::Windows => String::from_str("Dafny.exe"),
        Os::Mac => String::from_str("dafny"),
        Os::Linux => String::from_str("dafny"),
    }
}

/// Where the binary lives once the archive is unpacked:
/// `<version directory>/dafny/<binary filename>`.
pub open spec fn binary_path_for(version_tag: Seq<char>, os: Os) -> Seq<char> {
    version_dir_for(version_tag) + "/dafny/"@ + binary_filename(os)
}

/// Builds the binary path from the raw version tag and the operating system.
pub fn binary_path(version_tag: &str, os: Os) -> (r: String)
    ensures
        r@ == binary_path_for(version_tag@, os),
{
    let r = version_dir_name(version_tag).concat("/dafny/").concat(
        binary_file_name(os).as_str(),
    );
    proof {
        assert(r@ =~= binary_path_for(version_tag@, os));
    }
    r
}

/// The bundled solver's executable directory inside a version directory;
/// granting the execute bit there is best-effort.
pub open spec fn aux_bin_dir_for(version_dir: Seq<char>) -> Seq<char> {
    version_dir + "/dafny/z3/bin"@
}

/// Builds the auxiliary executable directory's path.
pub fn aux_bin_dir(version_dir: &str) -> (r: String)
    ensures
        r@ == aux_bin_dir_for(version_dir@),
{
    String::from_str(version_dir).concat("/dafny/z3/bin")
}

/// Whether pruning removes a working-root entry: everything but the
/// directory just installed goes.
pub fn should_prune(entry_name: &String, keep_dir: &String) -> (r: bool)
    ensures
        r == (entry_name@ != keep_dir@),
{
    !(*entry_name == *keep_dir)
}

} // verus!
