//! The on-disk layout: where a version is installed and where its archive
//! is cached.
//!
//! All paths are pure functions of the two root directories, the host
//! platform and a version identity; no other component computes paths on
//! its own.  Paths are modelled as strings joined with `/`; the unverified
//! shell turns them into native paths.  The two roots are resolved once at
//! process start by the shell and injected here; empty roots mark a host
//! whose base directories could not be resolved.

use vstd::prelude::*;

use crate::platform::{is_windows, Platform};
use crate::version::{
    spec_binary_name, spec_full_version_with_flavor, spec_zip_name, GodotVersion, VersionView,
};

verus! {

pub open spec fn path_join(a: Seq<char>, b: Seq<char>) -> Seq<char> {
    a + seq!['/'] + b
}

/// Join two path components with the layout's separator.
pub fn join_path(a: &str, b: &str) -> (r: String)
    ensures
        r@ == path_join(a@, b@),
{
    let mut r = String::from_str(a);
    r.append("/");
    r.append(b);
    proof {
        reveal_strlit("/");
        assert("/"@ =~= seq!['/']);
        assert(r@ =~= path_join(a@, b@));
    }
    r
}

/// The resolved engine directories of this process.
pub struct FygDirs {
    engines_data_dir: String,
    engines_cache_dir: String,
    platform: Platform,
}

/// The mathematical value of a [`FygDirs`].
pub struct DirsView {
    pub data: Seq<char>,
    pub cache: Seq<char>,
    pub platform: Platform,
}

impl View for FygDirs {
    type V = DirsView;

    closed spec fn view(&self) -> DirsView {
        DirsView {
            data: self.engines_data_dir@,
            cache: self.engines_cache_dir@,
            platform: self.platform,
        }
    }
}

/// Where installed engines live under the data root.
pub open spec fn spec_engines_data_dir(data_root: Seq<char>) -> Seq<char> {
    path_join(path_join(data_root, "find-your-godot"@), "engines"@)
}

/// Where cached archives live under the cache root.  Windows hosts get one
/// extra nesting level, because the OS-level cache location is shared with
/// unrelated data.
pub open spec fn spec_engines_cache_dir(cache_root: Seq<char>, platform: Platform) -> Seq<char> {
    if is_windows(platform) {
        path_join(path_join(path_join(cache_root, "find-your-godot"@), "cache"@), "engines"@)
    } else {
        path_join(path_join(cache_root, "find-your-godot"@), "engines"@)
    }
}

/// The directories derived from the injected roots; both stay empty when
/// either root is empty (base directories unresolved).
pub open spec fn spec_dirs(data_root: Seq<char>, cache_root: Seq<char>, platform: Platform) -> DirsView {
    if data_root.len() == 0 || cache_root.len() == 0 {
        DirsView { data: Seq::<char>::empty(), cache: Seq::<char>::empty(), platform }
    } else {
        DirsView {
            data: spec_engines_data_dir(data_root),
            cache: spec_engines_cache_dir(cache_root, platform),
            platform,
        }
    }
}

/// The install directory of a version.
pub open spec fn spec_install_dir(d: DirsView, v: VersionView) -> Seq<char> {
    path_join(d.data, spec_full_version_with_flavor(v))
}

/// The installed binary's path.
pub open spec fn spec_binary_path(d: DirsView, v: VersionView) -> Seq<char> {
    path_join(spec_install_dir(d, v), spec_binary_name(v, d.platform))
}

/// The cache directory of a version.
pub open spec fn spec_version_cache_dir(d: DirsView, v: VersionView) -> Seq<char> {
    path_join(d.cache, spec_full_version_with_flavor(v))
}

/// The cached archive's path.
pub open spec fn spec_cached_zip_path(d: DirsView, v: VersionView) -> Seq<char> {
    path_join(spec_version_cache_dir(d, v), spec_zip_name(v, d.platform))
}

impl FygDirs {
    /// Derive the engine directories from the injected roots.
    pub fn new(data_root: &str, cache_root: &str, platform: Platform) -> (r: FygDirs)
        ensures
            r@ == spec_dirs(data_root@, cache_root@, platform),
    {
        if data_root.is_empty() || cache_root.is_empty() {
            return FygDirs {
                engines_data_dir: String::new(),
                engines_cache_dir: String::new(),
                platform,
            };
        }
        let data_base = join_path(data_root, "find-your-godot");
        let data = join_path(data_base.as_str(), "engines");
        let cache_base = join_path(cache_root, "find-your-godot");
        let cache = if platform.is_windows_host() {
            let nested = join_path(cache_base.as_str(), "cache");
            join_path(nested.as_str(), "engines")
        } else {
            join_path(cache_base.as_str(), "engines")
        };
        FygDirs { engines_data_dir: data, engines_cache_dir: cache, platform }
    }

    /// The directory that holds one subdirectory per installed version.
    pub fn engines_data(&self) -> (r: &str)
        ensures
            r@ == self@.data,
    {
        self.engines_data_dir.as_str()
    }

    /// The directory that holds one subdirectory per cached archive.
    pub fn engines_cache(&self) -> (r: &str)
        ensures
            r@ == self@.cache,
    {
        self.engines_cache_dir.as_str()
    }

    /// The platform tag the layout was resolved for.
    pub fn host_platform(&self) -> (r: Platform)
        ensures
            r == self@.platform,
    {
        self.platform
    }

    /// Both roots were resolved.
    pub fn is_valid(&self) -> (r: bool)
        ensures
            r == (self@.data.len() > 0 && self@.cache.len() > 0),
    {
        !self.engines_data_dir.as_str().is_empty() && !self.engines_cache_dir.as_str().is_empty()
    }

    /// The install directory of a version.
    pub fn get_install_dir(&self, version: &GodotVersion) -> (r: String)
        ensures
            r@ == spec_install_dir(self@, version@),
    {
        let flavored = version.get_full_version_with_flavor();
        join_path(self.engines_data_dir.as_str(), flavored.as_str())
    }

    /// The installed binary's path for a version.
    pub fn get_binary_path(&self, version: &GodotVersion) -> (r: String)
        ensures
            r@ == spec_binary_path(self@, version@),
    {
        let dir = self.get_install_dir(version);
        let binary_name = version.get_binary_name(self.platform);
        join_path(dir.as_str(), binary_name.as_str())
    }

    /// The cache directory of a version.
    pub fn get_version_cache_dir(&self, version: &GodotVersion) -> (r: String)
        ensures
            r@ == spec_version_cache_dir(self@, version@),
    {
        let flavored = version.get_full_version_with_flavor();
        join_path(self.engines_cache_dir.as_str(), flavored.as_str())
    }

    /// The cached archive's path for a version.
    pub fn get_cached_zip_path(&self, version: &GodotVersion) -> (r: String)
        ensures
            r@ == spec_cached_zip_path(self@, version@),
    {
        let dir = self.get_version_cache_dir(version);
        let zip_name = version.get_zip_name(self.platform);
        join_path(dir.as_str(), zip_name.as_str())
    }
}

} // verus!
