//! The install pipeline, as a verified decision machine.
//!
//! One install run is a walk of a state machine.  Each non-terminal state
//! names the single piece of outside work the shell must do next (a file
//! check, the release lookup, the download, the extraction); the shell
//! reports what happened as an [`InstallEvent`], and [`install_step`]
//! decides the next state.  All decisions — force handling, the
//! already-installed check, the cache-hit shortcut, asset selection and
//! the error taxonomy — are made here and proved against [`spec_step`].

use vstd::prelude::*;

use crate::dirs::{
    spec_binary_path, spec_cached_zip_path, spec_install_dir, spec_version_cache_dir, FygDirs,
};
use crate::error::FygError;
use crate::version::{spec_full_version, spec_zip_name, GodotVersion};

verus! {

/// One downloadable file of a release, as the release source reports it.
pub struct ReleaseAsset {
    pub name: String,
    pub url: String,
}

/// The mathematical value of a [`ReleaseAsset`].
pub struct AssetView {
    pub name: Seq<char>,
    pub url: Seq<char>,
}

impl View for ReleaseAsset {
    type V = AssetView;

    open spec fn view(&self) -> AssetView {
        AssetView { name: self.name@, url: self.url@ }
    }
}

impl DeepView for ReleaseAsset {
    type V = AssetView;

    open spec fn deep_view(&self) -> AssetView {
        self.view()
    }
}

/// Everything one install run needs to know, resolved once up front.
pub struct InstallContext {
    /// Reinstall even if the version is already installed.
    pub force: bool,
    /// Where the installed binary must end up.
    pub bin_path: String,
    /// The directory the archive is extracted into.
    pub install_dir: String,
    /// The cache directory of the version.
    pub cache_dir: String,
    /// The cached archive's path.
    pub cache_zip_path: String,
    /// The asset name to look for in the release's asset list.
    pub asset_name: String,
    /// The release tag to query: the canonical version text.
    pub tag: String,
}

/// The mathematical value of an [`InstallContext`].
pub struct ContextView {
    pub force: bool,
    pub bin_path: Seq<char>,
    pub install_dir: Seq<char>,
    pub cache_dir: Seq<char>,
    pub cache_zip_path: Seq<char>,
    pub asset_name: Seq<char>,
    pub tag: Seq<char>,
}

impl View for InstallContext {
    type V = ContextView;

    open spec fn view(&self) -> ContextView {
        ContextView {
            force: self.force,
            bin_path: self.bin_path@,
            install_dir: self.install_dir@,
            cache_dir: self.cache_dir@,
            cache_zip_path: self.cache_zip_path@,
            asset_name: self.asset_name@,
            tag: self.tag@,
        }
    }
}

/// The context an install of `v` runs with: every path comes from the
/// directory layout, the asset name from the naming scheme, the tag from
/// the canonical text.
pub open spec fn spec_resolve(
    d: crate::dirs::DirsView,
    v: crate::version::VersionView,
    force: bool,
) -> ContextView {
    ContextView {
        force,
        bin_path: spec_binary_path(d, v),
        install_dir: spec_install_dir(d, v),
        cache_dir: spec_version_cache_dir(d, v),
        cache_zip_path: spec_cached_zip_path(d, v),
        asset_name: spec_zip_name(v, d.platform),
        tag: spec_full_version(v),
    }
}

impl InstallContext {
    /// Resolve the paths and names one install run works with.
    pub fn resolve(dirs: &FygDirs, version: &GodotVersion, force: bool) -> (r: InstallContext)
        ensures
            r@ == spec_resolve(dirs@, version@, force),
    {
        let full_version = version.get_full_version();
        InstallContext {
            force,
            bin_path: dirs.get_binary_path(version),
            install_dir: dirs.get_install_dir(version),
            cache_dir: dirs.get_version_cache_dir(version),
            cache_zip_path: dirs.get_cached_zip_path(version),
            asset_name: version.get_zip_name(dirs.host_platform()),
            tag: full_version,
        }
    }
}

/// A state of one install run.  Every non-terminal state names the one
/// piece of outside work the shell performs next.
pub enum InstallStep {
    /// Check whether the binary path exists as a regular file.
    CheckInstalled,
    /// Force was given: remove any previous install of this version first.
    RemovePrevious,
    /// Check whether the cached archive exists as a regular file.
    CheckCache,
    /// Ask the release source for the release under the context's tag.
    FetchRelease,
    /// Download the selected asset fully into memory.
    Download { url: String },
    /// Create the cache directory and write the downloaded bytes to the
    /// cached archive's path, before any extraction.
    PersistCache,
    /// Extract the archive (cached or downloaded) into the install
    /// directory, creating it if absent.
    Extract { from_cache: bool },
    /// Write the empty self-contained marker file into the install
    /// directory.
    WriteMarker,
    /// Terminal: the binary path now exists.
    Done,
    /// Terminal: the run failed; the cause says whether a retry can help.
    Failed { error: FygError },
}

/// The mathematical value of an [`InstallStep`].
pub enum StepView {
    CheckInstalled,
    RemovePrevious,
    CheckCache,
    FetchRelease,
    Download { url: Seq<char> },
    PersistCache,
    Extract { from_cache: bool },
    WriteMarker,
    Done,
    Failed { error: FygError },
}

impl View for InstallStep {
    type V = StepView;

    open spec fn view(&self) -> StepView {
        match self {
            InstallStep::CheckInstalled => StepView::CheckInstalled,
            InstallStep::RemovePrevious => StepView::RemovePrevious,
            InstallStep::CheckCache => StepView::CheckCache,
            InstallStep::FetchRelease => StepView::FetchRelease,
            InstallStep::Download { url } => StepView::Download { url: url@ },
            InstallStep::PersistCache => StepView::PersistCache,
            InstallStep::Extract { from_cache } => StepView::Extract { from_cache: *from_cache },
            InstallStep::WriteMarker => StepView::WriteMarker,
            InstallStep::Done => StepView::Done,
            InstallStep::Failed { error } => StepView::Failed { error: *error },
        }
    }
}

/// What the shell reports back after performing a step's work.
pub enum InstallEvent {
    /// Answer to `CheckInstalled` or `CheckCache`.
    Exists { yes: bool },
    /// The previous install, if any, was removed.
    Removed,
    /// The release exists and exposes these assets.
    ReleaseFound { assets: Vec<ReleaseAsset> },
    /// The release source has no release under the tag.
    ReleaseNotFound,
    /// The asset's bytes are fully in memory.
    Downloaded,
    /// A transport error interrupted the download.
    DownloadFailed,
    /// The bytes were written to the cached archive's path.
    Persisted,
    /// The archive was extracted into the install directory.
    Extracted,
    /// The archive could not be extracted; the cached copy is kept.
    ExtractFailed,
    /// The marker file was written.
    Marked,
    /// A filesystem error at the current step.
    IoError,
}

/// The mathematical value of an [`InstallEvent`].
pub enum EventView {
    Exists { yes: bool },
    Removed,
    ReleaseFound { assets: Seq<AssetView> },
    ReleaseNotFound,
    Downloaded,
    DownloadFailed,
    Persisted,
    Extracted,
    ExtractFailed,
    Marked,
    IoError,
}

impl View for InstallEvent {
    type V = EventView;

    open spec fn view(&self) -> EventView {
        match self {
            InstallEvent::Exists { yes } => EventView::Exists { yes: *yes },
            InstallEvent::Removed => EventView::Removed,
            InstallEvent::ReleaseFound { assets } => EventView::ReleaseFound {
                assets: assets.deep_view(),
            },
            InstallEvent::ReleaseNotFound => EventView::ReleaseNotFound,
            InstallEvent::Downloaded => EventView::Downloaded,
            InstallEvent::DownloadFailed => EventView::DownloadFailed,
            InstallEvent::Persisted => EventView::Persisted,
            InstallEvent::Extracted => EventView::Extracted,
            InstallEvent::ExtractFailed => EventView::ExtractFailed,
            InstallEvent::Marked => EventView::Marked,
            InstallEvent::IoError => EventView::IoError,
        }
    }
}

/// The index of the first asset with the wanted name, if any.
pub open spec fn find_asset(assets: Seq<AssetView>, name: Seq<char>) -> Option<int>
    decreases assets.len(),
{
    if assets.len() == 0 {
        None
    } else if assets[0].name == name {
        Some(0)
    } else {
        match find_asset(assets.drop_first(), name) {
            Some(i) => Some(i + 1),
            None => None,
        }
    }
}

pub proof fn lemma_find_asset_exact(assets: Seq<AssetView>, name: Seq<char>, i: int)
    requires
        0 <= i < assets.len(),
        assets[i].name == name,
        forall|j: int| 0 <= j < i ==> #[trigger] assets[j].name != name,
    ensures
        find_asset(assets, name) == Some(i),
    decreases i,
{
    if i > 0 {
        lemma_find_asset_exact(assets.drop_first(), name, i - 1);
    }
}

pub proof fn lemma_find_asset_none(assets: Seq<AssetView>, name: Seq<char>)
    requires
        forall|j: int| 0 <= j < assets.len() ==> #[trigger] assets[j].name != name,
    ensures
        find_asset(assets, name) == None::<int>,
    decreases assets.len(),
{
    if assets.len() > 0 {
        lemma_find_asset_none(assets.drop_first(), name);
    }
}

/// Which events can answer which step.  The shell only ever reports an
/// event that fits the step it just performed.
pub open spec fn event_fits(s: StepView, e: EventView) -> bool {
    match s {
        StepView::CheckInstalled => e is Exists || e is IoError,
        StepView::RemovePrevious => e is Removed || e is IoError,
        StepView::CheckCache => e is Exists || e is IoError,
        StepView::FetchRelease => e is ReleaseFound || e is ReleaseNotFound,
        StepView::Download { .. } => e is Downloaded || e is DownloadFailed,
        StepView::PersistCache => e is Persisted || e is IoError,
        StepView::Extract { .. } => e is Extracted || e is ExtractFailed || e is IoError,
        StepView::WriteMarker => e is Marked || e is IoError,
        StepView::Done => false,
        StepView::Failed { .. } => false,
    }
}

/// The first step of a run: a forced install removes any previous install
/// before anything else; otherwise the already-installed check comes first.
pub open spec fn spec_start(ctx: ContextView) -> StepView {
    if ctx.force {
        StepView::RemovePrevious
    } else {
        StepView::CheckInstalled
    }
}

pub open spec fn spec_step_check_installed(e: EventView) -> StepView {
    match e {
        EventView::Exists { yes } => if yes {
            StepView::Failed { error: FygError::AlreadyInstalled }
        } else {
            StepView::CheckCache
        },
        _ => StepView::Failed { error: FygError::Io },
    }
}

pub open spec fn spec_step_after_remove(e: EventView) -> StepView {
    match e {
        EventView::Removed => StepView::CheckCache,
        _ => StepView::Failed { error: FygError::Io },
    }
}

pub open spec fn spec_step_check_cache(e: EventView) -> StepView {
    match e {
        EventView::Exists { yes } => if yes {
            StepView::Extract { from_cache: true }
        } else {
            StepView::FetchRelease
        },
        _ => StepView::Failed { error: FygError::Io },
    }
}

/// Select the asset whose name is the download asset name; a release
/// without one ships no build for this host.
pub open spec fn spec_select_asset(ctx: ContextView, assets: Seq<AssetView>) -> StepView {
    match find_asset(assets, ctx.asset_name) {
        Some(i) => StepView::Download { url: assets[i].url },
        None => StepView::Failed { error: FygError::UnsupportedPlatform },
    }
}

pub open spec fn spec_step_fetch(ctx: ContextView, e: EventView) -> StepView {
    match e {
        EventView::ReleaseFound { assets } => spec_select_asset(ctx, assets),
        _ => StepView::Failed { error: FygError::VersionNotFound },
    }
}

pub open spec fn spec_step_download(e: EventView) -> StepView {
    match e {
        EventView::Downloaded => StepView::PersistCache,
        _ => StepView::Failed { error: FygError::DownloadFailed },
    }
}

pub open spec fn spec_step_persist(e: EventView) -> StepView {
    match e {
        EventView::Persisted => StepView::Extract { from_cache: false },
        _ => StepView::Failed { error: FygError::Io },
    }
}

pub open spec fn spec_step_extract(e: EventView) -> StepView {
    match e {
        EventView::Extracted => StepView::WriteMarker,
        EventView::ExtractFailed => StepView::Failed { error: FygError::ExtractionFailed },
        _ => StepView::Failed { error: FygError::Io },
    }
}

pub open spec fn spec_step_mark(e: EventView) -> StepView {
    match e {
        EventView::Marked => StepView::Done,
        _ => StepView::Failed { error: FygError::Io },
    }
}

/// The transition relation of the install machine.
pub open spec fn spec_step(ctx: ContextView, s: StepView, e: EventView) -> StepView {
    match s {
        StepView::CheckInstalled => spec_step_check_installed(e),
        StepView::RemovePrevious => spec_step_after_remove(e),
        StepView::CheckCache => spec_step_check_cache(e),
        StepView::FetchRelease => spec_step_fetch(ctx, e),
        StepView::Download { .. } => spec_step_download(e),
        StepView::PersistCache => spec_step_persist(e),
        StepView::Extract { .. } => spec_step_extract(e),
        StepView::WriteMarker => spec_step_mark(e),
        StepView::Done => s,
        StepView::Failed { .. } => s,
    }
}

/// Steps whose outside work talks to the network.
pub open spec fn is_network_step(s: StepView) -> bool {
    s is FetchRelease || s is Download
}

/// Steps whose outside work changes the filesystem.
pub open spec fn is_mutating_step(s: StepView) -> bool {
    s is RemovePrevious || s is PersistCache || s is Extract || s is WriteMarker
}

/// Terminal states of a run.
pub open spec fn is_terminal_step(s: StepView) -> bool {
    s is Done || s is Failed
}

/// The first asset whose name equals `name`, scanning in order.
pub fn find_asset_index(assets: &Vec<ReleaseAsset>, name: &String) -> (r: Option<usize>)
    ensures
        match r {
            Some(i) => i < assets@.len() && find_asset(assets.deep_view(), name@) == Some(
                i as int,
            ),
            None => find_asset(assets.deep_view(), name@) is None,
        },
{
    let n = assets.len();
    let mut i: usize = 0;
    while i < n
        invariant
            0 <= i <= n,
            n == assets@.len(),
            assets.deep_view().len() == assets@.len(),
            forall|j: int| 0 <= j < i ==> #[trigger] assets.deep_view()[j].name != name@,
        decreases n - i,
    {
        if assets[i].name == *name {
            proof {
                assert(assets.deep_view()[i as int] == assets@[i as int]@);
                lemma_find_asset_exact(assets.deep_view(), name@, i as int);
            }
            return Some(i);
        }
        proof {
            assert(assets.deep_view()[i as int] == assets@[i as int]@);
        }
        i = i + 1;
    }
    proof {
        lemma_find_asset_none(assets.deep_view(), name@);
    }
    None
}

fn select_asset_step(ctx: &InstallContext, assets: Vec<ReleaseAsset>) -> (r: InstallStep)
    ensures
        r@ == spec_select_asset(ctx@, assets.deep_view()),
{
    match find_asset_index(&assets, &ctx.asset_name) {
        Some(i) => {
            let url = assets[i].url.clone();
            proof {
                assert(assets.deep_view()[i as int] == assets@[i as int]@);
            }
            InstallStep::Download { url }
        },
        None => InstallStep::Failed { error: FygError::UnsupportedPlatform },
    }
}

/// The first step of an install run.
pub fn install_start(ctx: &InstallContext) -> (s: InstallStep)
    ensures
        s@ == spec_start(ctx@),
{
    if ctx.force {
        InstallStep::RemovePrevious
    } else {
        InstallStep::CheckInstalled
    }
}

/// Decide the next step from the current one and what the shell reports.
pub fn install_step(ctx: &InstallContext, state: InstallStep, event: InstallEvent) -> (next:
    InstallStep)
    requires
        event_fits(state@, event@),
    ensures
        next@ == spec_step(ctx@, state@, event@),
{
    match state {
        InstallStep::CheckInstalled => match event {
            InstallEvent::Exists { yes } => {
                if yes {
                    InstallStep::Failed { error: FygError::AlreadyInstalled }
                } else {
                    InstallStep::CheckCache
                }
            },
            _ => InstallStep::Failed { error: FygError::Io },
        },
        InstallStep::RemovePrevious => match event {
            InstallEvent::Removed => InstallStep::CheckCache,
            _ => InstallStep::Failed { error: FygError::Io },
        },
        InstallStep::CheckCache => match event {
            InstallEvent::Exists { yes } => {
                if yes {
                    InstallStep::Extract { from_cache: true }
                } else {
                    InstallStep::FetchRelease
                }
            },
            _ => InstallStep::Failed { error: FygError::Io },
        },
        InstallStep::FetchRelease => match event {
            InstallEvent::ReleaseFound { assets } => select_asset_step(ctx, assets),
            _ => InstallStep::Failed { error: FygError::VersionNotFound },
        },
        InstallStep::Download { .. } => match event {
            InstallEvent::Downloaded => InstallStep::PersistCache,
            _ => InstallStep::Failed { error: FygError::DownloadFailed },
        },
        InstallStep::PersistCache => match event {
            InstallEvent::Persisted => InstallStep::Extract { from_cache: false },
            _ => InstallStep::Failed { error: FygError::Io },
        },
        InstallStep::Extract { .. } => match event {
            InstallEvent::Extracted => InstallStep::WriteMarker,
            InstallEvent::ExtractFailed => InstallStep::Failed {
                error: FygError::ExtractionFailed,
            },
            _ => InstallStep::Failed { error: FygError::Io },
        },
        InstallStep::WriteMarker => match event {
            InstallEvent::Marked => InstallStep::Done,
            _ => InstallStep::Failed { error: FygError::Io },
        },
        InstallStep::Done => InstallStep::Done,
        InstallStep::Failed { error } => InstallStep::Failed { error },
    }
}

/// Repeated install is a no-op: without force, a run against an
/// already-installed version performs one read-only check and halts with
/// `AlreadyInstalled`; the filesystem is left unchanged.
pub proof fn lemma_repeat_install_is_noop(ctx: ContextView)
    requires
        !ctx.force,
    ensures
        spec_start(ctx) == StepView::CheckInstalled,
        !is_mutating_step(spec_start(ctx)),
        !is_network_step(spec_start(ctx)),
        spec_step(ctx, StepView::CheckInstalled, EventView::Exists { yes: true }) == (StepView::Failed {
            error: FygError::AlreadyInstalled,
        }),
        is_terminal_step(spec_step(ctx, StepView::CheckInstalled, EventView::Exists { yes: true })),
{
}

/// A cache hit installs fully offline: from the start to `Done` the run
/// passes through no step that talks to the network.
pub proof fn lemma_cache_hit_installs_offline(ctx: ContextView)
    requires
        !ctx.force,
    ensures
        ({
            let s0 = spec_start(ctx);
            let s1 = spec_step(ctx, s0, EventView::Exists { yes: false });
            let s2 = spec_step(ctx, s1, EventView::Exists { yes: true });
            let s3 = spec_step(ctx, s2, EventView::Extracted);
            let s4 = spec_step(ctx, s3, EventView::Marked);
            s0 == StepView::CheckInstalled && s1 == StepView::CheckCache && s2 == (StepView::Extract {
                from_cache: true,
            }) && s3 == StepView::WriteMarker && s4 == StepView::Done && !is_network_step(s0)
                && !is_network_step(s1) && !is_network_step(s2) && !is_network_step(s3)
                && !is_network_step(s4)
        }),
{
}

} // verus!
