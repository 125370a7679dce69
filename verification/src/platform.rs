//! The platform descriptor and its mapping to artifact-name fragments.

use vstd::prelude::*;

use crate::error::Error;

verus! {

/// Operating systems the tool publishes artifacts for.
#[derive(Clone, Copy, PartialEq, Eq, Structural, Debug)]
pub enum Os {
    Mac,
    Linux,
    Windows,
}

/// Processor architectures a host may report.
#[derive(Clone, Copy, PartialEq, Eq, Structural, Debug)]
pub enum Arch {
    Aarch64,
    X8664,
    X86,
}

/// The (operating system, architecture) pair of the running environment,
/// derived once per resolution call.
#[derive(Clone, Copy, PartialEq, Eq, Structural, Debug)]
pub struct PlatformDescriptor {
    pub os: Os,
    pub arch: Arch,
}

/// The architecture token used in artifact names; empty for the unsupported
/// `X86`, which never reaches name construction.
pub open spec fn arch_token(arch: Arch) -> Seq<char> {
    match arch {
        Arch::Aarch64 => "arm64"@,
        Arch::X8664 => "x64"@,
        Arch::X86 => Seq::<char>::empty(),
    }
}

/// The operating-system token used in artifact names.
pub open spec fn os_token(os: Os) -> Seq<char> {
    match os {
        Os::Mac => "macos-11"@,
        Os::Linux => "ubuntu-20.04"@,
        Os::Windows => "windows-2019"@,
    }
}

impl PlatformDescriptor {
    /// Whether artifacts exist for this platform at all.
    pub open spec fn supported(self) -> bool {
        self.arch != Arch::X86
    }
}

/// Maps a platform descriptor to the `(architecture, operating system)`
/// token pair that artifact names are built from.  The `X86` architecture
/// has no published artifact and is rejected, and only it is.
pub fn to_asset_fragment(d: PlatformDescriptor) -> (r: Result<(String, String), Error>)
    ensures
        r is Ok <==> d.supported(),
        r matches Ok(pair) ==> pair.0@ == arch_token(d.arch) && pair.1@ == os_token(d.os),
        r matches Err(e) ==> e == Error::UnsupportedPlatform,
{
    let arch: String = match d.arch {
        Arch::Aarch64 => String::from_str("arm64"),
        Arch::X8664 => String::from_str("x64"),
        Arch::X86 => {
            return Err(Error::UnsupportedPlatform);
        },
    };
    let os: String = match d.os {
        Os::Mac => String::from_str("macos-11"),
        Os::Linux => String::from_str("ubuntu-20.04"),
        Os::Windows => String::from_str("windows-2019"),
    };
    Ok((arch, os))
}

} // verus!
