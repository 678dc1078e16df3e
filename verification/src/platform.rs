//! The closed set of supported host platforms and the two platform-suffix
//! tables of the naming scheme.
//!
//! Release naming changed with major version 4: the "modern" table applies
//! to major versions 4 and later, the "legacy" table to everything before.
//! Detection of the host platform is left to the unverified shell, which
//! passes the tag in; the library never fails on `Unsupported`, it simply
//! produces a filename that no release ever matches.

use vstd::prelude::*;

verus! {

#[derive(Clone, Copy, Debug, PartialEq, Eq, Structural)]
pub enum Platform {
    Windows32,
    Windows64,
    MacOS,
    Linux32,
    Linux64,
    Unsupported,
}

/// The suffix of the installed binary's filename, by era and platform.
pub open spec fn spec_binary_suffix(modern: bool, p: Platform) -> Seq<char> {
    if modern {
        match p {
            Platform::Windows32 => "win32.exe"@,
            Platform::Windows64 => "win64.exe"@,
            Platform::MacOS => "macos.universal"@,
            Platform::Linux32 => "linux.x86_32"@,
            Platform::Linux64 => "linux.x86_64"@,
            Platform::Unsupported => "unsupported"@,
        }
    } else {
        match p {
            Platform::Windows32 => "win32.exe"@,
            Platform::Windows64 => "win64.exe"@,
            Platform::MacOS => "osx.universal"@,
            Platform::Linux32 => "x11.32"@,
            Platform::Linux64 => "x11.64"@,
            Platform::Unsupported => "unsupported"@,
        }
    }
}

/// The suffix of the release archive's name, by era and platform.  The
/// hosted project names archives with short platform codes, which differ
/// from the installed binary's suffixes.
pub open spec fn spec_zip_suffix(modern: bool, p: Platform) -> Seq<char> {
    if modern {
        match p {
            Platform::Windows32 => "win32"@,
            Platform::Windows64 => "win64"@,
            Platform::MacOS => "macos.universal"@,
            Platform::Linux32 => "linux_x86_32"@,
            Platform::Linux64 => "linux_x86_64"@,
            Platform::Unsupported => "unsupported"@,
        }
    } else {
        match p {
            Platform::Windows32 => "win32"@,
            Platform::Windows64 => "win64"@,
            Platform::MacOS => "osx.universal"@,
            Platform::Linux32 => "x11_32"@,
            Platform::Linux64 => "x11_64"@,
            Platform::Unsupported => "unsupported"@,
        }
    }
}

/// A host needs the extra cache nesting level exactly when it is a Windows
/// host, whose OS-level cache location is shared with unrelated data.
pub open spec fn is_windows(p: Platform) -> bool {
    p == Platform::Windows32 || p == Platform::Windows64
}

impl Platform {
    /// The binary suffix of the selected era's table for this platform.
    pub fn binary_suffix(self, modern: bool) -> (r: &'static str)
        ensures
            r@ == spec_binary_suffix(modern, self),
    {
        if modern {
            match self {
                Platform::Windows32 => "win32.exe",
                Platform::Windows64 => "win64.exe",
                Platform::MacOS => "macos.universal",
                Platform::Linux32 => "linux.x86_32",
                Platform::Linux64 => "linux.x86_64",
                Platform::Unsupported => "unsupported",
            }
        } else {
            match self {
                Platform::Windows32 => "win32.exe",
                Platform::Windows64 => "win64.exe",
                Platform::MacOS => "osx.universal",
                Platform::Linux32 => "x11.32",
                Platform::Linux64 => "x11.64",
                Platform::Unsupported => "unsupported",
            }
        }
    }

    /// The archive suffix of the selected era's table for this platform.
    pub fn zip_suffix(self, modern: bool) -> (r: &'static str)
        ensures
            r@ == spec_zip_suffix(modern, self),
    {
        if modern {
            match self {
                Platform::Windows32 => "win32",
                Platform::Windows64 => "win64",
                Platform::MacOS => "macos.universal",
                Platform::Linux32 => "linux_x86_32",
                Platform::Linux64 => "linux_x86_64",
                Platform::Unsupported => "unsupported",
            }
        } else {
            match self {
                Platform::Windows32 => "win32",
                Platform::Windows64 => "win64",
                Platform::MacOS => "osx.universal",
                Platform::Linux32 => "x11_32",
                Platform::Linux64 => "x11_64",
                Platform::Unsupported => "unsupported",
            }
        }
    }

    /// The package suffix of the legacy naming table for this platform.
    pub fn to_package(&self) -> (r: &'static str)
        ensures
            r@ == spec_binary_suffix(false, *self),
    {
        (*self).binary_suffix(false)
    }

    /// Whether this tag calls for the Windows cache nesting level.
    pub fn is_windows_host(self) -> (r: bool)
        ensures
            r == is_windows(self),
    {
        match self {
            Platform::Windows32 => true,
            Platform::Windows64 => true,
            _ => false,
        }
    }
}

/// The two binary-suffix tables disagree on every platform where they are
/// documented to differ: macOS and both Linux variants.
pub proof fn lemma_binary_suffix_tables_differ(p: Platform)
    requires
        p == Platform::MacOS || p == Platform::Linux32 || p == Platform::Linux64,
    ensures
        spec_binary_suffix(true, p) != spec_binary_suffix(false, p),
{
    reveal_strlit("macos.universal");
    reveal_strlit("osx.universal");
    reveal_strlit("linux.x86_32");
    reveal_strlit("x11.32");
    reveal_strlit("linux.x86_64");
    reveal_strlit("x11.64");
    assert("macos.universal"@.len() == 15);
    assert("osx.universal"@.len() == 13);
    assert("linux.x86_32"@.len() == 12);
    assert("x11.32"@.len() == 6);
    assert("linux.x86_64"@.len() == 12);
    assert("x11.64"@.len() == 6);
}

/// The archive-suffix tables likewise disagree on macOS and Linux.
pub proof fn lemma_zip_suffix_tables_differ(p: Platform)
    requires
        p == Platform::MacOS || p == Platform::Linux32 || p == Platform::Linux64,
    ensures
        spec_zip_suffix(true, p) != spec_zip_suffix(false, p),
{
    reveal_strlit("macos.universal");
    reveal_strlit("osx.universal");
    reveal_strlit("linux_x86_32");
    reveal_strlit("x11_32");
    reveal_strlit("linux_x86_64");
    reveal_strlit("x11_64");
    assert("macos.universal"@.len() == 15);
    assert("osx.universal"@.len() == 13);
    assert("linux_x86_32"@.len() == 12);
    assert("x11_32"@.len() == 6);
    assert("linux_x86_64"@.len() == 12);
    assert("x11_64"@.len() == 6);
}

} // verus!
