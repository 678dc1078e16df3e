//! The cache manager's decisions: what `cache show` reports and what
//! `cache rm` removes.
//!
//! The shell enumerates the cache root's subdirectories and probes the
//! filesystem; this module reverse-parses directory names, decides which
//! entries are real cached versions, computes the paths to remove, and
//! accumulates the report.

use vstd::prelude::*;

use crate::dirs::{path_join, spec_cached_zip_path, spec_version_cache_dir, DirsView, FygDirs};
use crate::version::{parse_version_dir_name, spec_parse_dir_name, GodotVersion};

verus! {

/// The human-readable rendering of a byte count that the size formatter
/// of the report produces; it depends on the byte count alone.
pub uninterp spec fn human_size_of(n: u64) -> Seq<char>;

/// Relies on humansize::format_size with the DECIMAL options: a pure
/// rendering of the byte count, written here as `human_size_of`.
#[verifier::external_body]
fn format_size_decimal(n: u64) -> (r: String)
    ensures
        r@ == human_size_of(n),
{
    humansize::format_size(n, humansize::DECIMAL)
}

/// What the shell found out about one subdirectory of the cache root:
/// its name, and the size of the expected archive if that file exists.
pub struct CacheProbe {
    pub dir_name: String,
    pub archive_size: Option<u64>,
}

/// The mathematical value of a [`CacheProbe`].
pub struct CacheProbeView {
    pub dir_name: Seq<char>,
    pub archive_size: Option<u64>,
}

impl View for CacheProbe {
    type V = CacheProbeView;

    open spec fn view(&self) -> CacheProbeView {
        CacheProbeView { dir_name: self.dir_name@, archive_size: self.archive_size }
    }
}

impl DeepView for CacheProbe {
    type V = CacheProbeView;

    open spec fn deep_view(&self) -> CacheProbeView {
        self.view()
    }
}

/// One reported cache entry: a parseable version directory whose expected
/// archive is present.
pub struct CacheEntry {
    pub dir_name: String,
    pub archive_path: String,
    pub size: u64,
    pub size_text: String,
}

/// The mathematical value of a [`CacheEntry`].
pub struct CacheEntryView {
    pub dir_name: Seq<char>,
    pub archive_path: Seq<char>,
    pub size: u64,
    pub size_text: Seq<char>,
}

impl View for CacheEntry {
    type V = CacheEntryView;

    open spec fn view(&self) -> CacheEntryView {
        CacheEntryView {
            dir_name: self.dir_name@,
            archive_path: self.archive_path@,
            size: self.size,
            size_text: self.size_text@,
        }
    }
}

impl DeepView for CacheEntry {
    type V = CacheEntryView;

    open spec fn deep_view(&self) -> CacheEntryView {
        self.view()
    }
}

/// What `cache show` reports: the entries and the total byte size.
pub struct CacheReport {
    pub entries: Vec<CacheEntry>,
    pub total: u128,
}

/// A probe is reported exactly when its directory name reverse-parses to
/// a version and the expected archive is present.
pub open spec fn probe_shown(p: CacheProbeView) -> bool {
    p.archive_size is Some && spec_parse_dir_name(p.dir_name) is Some
}

/// The entry reported for a shown probe.
pub open spec fn spec_entry_of(d: DirsView, p: CacheProbeView) -> CacheEntryView {
    CacheEntryView {
        dir_name: p.dir_name,
        archive_path: spec_cached_zip_path(d, spec_parse_dir_name(p.dir_name)->Some_0),
        size: p.archive_size->Some_0,
        size_text: human_size_of(p.archive_size->Some_0),
    }
}

/// The reported entries, in probe order.
pub open spec fn spec_cache_entries(d: DirsView, probes: Seq<CacheProbeView>) -> Seq<
    CacheEntryView,
>
    decreases probes.len(),
{
    if probes.len() == 0 {
        Seq::empty()
    } else {
        let init = spec_cache_entries(d, probes.drop_last());
        if probe_shown(probes.last()) {
            init.push(spec_entry_of(d, probes.last()))
        } else {
            init
        }
    }
}

/// The total byte size over the reported entries.
pub open spec fn spec_cache_total(probes: Seq<CacheProbeView>) -> int
    decreases probes.len(),
{
    if probes.len() == 0 {
        0
    } else {
        spec_cache_total(probes.drop_last()) + if probe_shown(probes.last()) {
            probes.last().archive_size->Some_0 as int
        } else {
            0
        }
    }
}

/// The byte sizes of a list of report entries, summed.
pub open spec fn sum_entry_sizes(entries: Seq<CacheEntryView>) -> int
    decreases entries.len(),
{
    if entries.len() == 0 {
        0
    } else {
        sum_entry_sizes(entries.drop_last()) + entries.last().size as int
    }
}

/// The reported total is exactly the sum of the reported entries' sizes:
/// entries without a present archive contribute nothing.
pub proof fn lemma_total_is_sum_of_entry_sizes(d: DirsView, probes: Seq<CacheProbeView>)
    ensures
        spec_cache_total(probes) == sum_entry_sizes(spec_cache_entries(d, probes)),
    decreases probes.len(),
{
    if probes.len() > 0 {
        lemma_total_is_sum_of_entry_sizes(d, probes.drop_last());
        let entries = spec_cache_entries(d, probes);
        let init = spec_cache_entries(d, probes.drop_last());
        if probe_shown(probes.last()) {
            assert(entries == init.push(spec_entry_of(d, probes.last())));
            assert(entries.drop_last() =~= init);
        }
    }
}

proof fn lemma_cache_total_nonneg(probes: Seq<CacheProbeView>)
    ensures
        spec_cache_total(probes) >= 0,
    decreases probes.len(),
{
    if probes.len() > 0 {
        lemma_cache_total_nonneg(probes.drop_last());
    }
}

/// The archive path a cache directory name stands for, or `None` when the
/// name is not a managed version's.  The shell probes the returned path.
pub fn cache_archive_path(dirs: &FygDirs, dir_name: &str) -> (r: Option<String>)
    ensures
        match r {
            Some(p) => spec_parse_dir_name(dir_name@) matches Some(v) && p@
                == spec_cached_zip_path(dirs@, v),
            None => spec_parse_dir_name(dir_name@) is None,
        },
{
    match parse_version_dir_name(dir_name) {
        Some(version) => Some(dirs.get_cached_zip_path(&version)),
        None => None,
    }
}

/// Assemble the `cache show` report from the shell's probes: exactly the
/// parseable directories with a present archive are listed, each with the
/// archive's path and rendered size, and the total is their byte sum.
pub fn cache_show_report(dirs: &FygDirs, probes: &Vec<CacheProbe>) -> (r: CacheReport)
    ensures
        r.entries.deep_view() == spec_cache_entries(dirs@, probes.deep_view()),
        r.total as int == spec_cache_total(probes.deep_view()),
{
    let ghost all = probes.deep_view();
    let mut entries: Vec<CacheEntry> = Vec::new();
    let mut total: u128 = 0;
    let n = probes.len();
    let mut i: usize = 0;
    while i < n
        invariant
            0 <= i <= n,
            n == probes@.len(),
            all == probes.deep_view(),
            all.len() == n,
            entries.deep_view() =~= spec_cache_entries(dirs@, all.subrange(0, i as int)),
            total as int == spec_cache_total(all.subrange(0, i as int)),
            total as int <= (i as int) * (u64::MAX as int),
        decreases n - i,
    {
        proof {
            assert(all.subrange(0, i as int + 1).drop_last() =~= all.subrange(0, i as int));
            assert(all.subrange(0, i as int + 1).last() == all[i as int]);
            assert(all[i as int] == probes@[i as int]@);
        }
        let probe = &probes[i];
        let parsed = parse_version_dir_name(probe.dir_name.as_str());
        let ghost entries_before = entries.deep_view();
        match (parsed, probe.archive_size) {
            (Some(version), Some(size)) => {
                let archive_path = dirs.get_cached_zip_path(&version);
                let size_text = format_size_decimal(size);
                let entry = CacheEntry {
                    dir_name: probe.dir_name.clone(),
                    archive_path,
                    size,
                    size_text,
                };
                proof {
                    assert((i as int + 1) * (u64::MAX as int) == (i as int) * (u64::MAX as int)
                        + u64::MAX as int);
                    assert((i as int + 1) * (u64::MAX as int) <= u128::MAX as int)
                        by (nonlinear_arith)
                        requires
                            0 <= i as int + 1 <= u64::MAX as int,
                    ;
                    lemma_cache_total_nonneg(all.subrange(0, i as int));
                }
                entries.push(entry);
                total = total + size as u128;
                proof {
                    assert(entry@ == spec_entry_of(dirs@, all[i as int]));
                    assert(entries.deep_view() =~= entries_before.push(entry@));
                }
            },
            _ => {
                proof {
                    assert(!probe_shown(all[i as int]));
                }
            },
        }
        i = i + 1;
    }
    proof {
        assert(all.subrange(0, n as int) =~= all);
    }
    CacheReport { entries, total }
}

/// The removal plan of `cache rm --all`: every immediate subdirectory of
/// the cache root is removed, whatever its name; the root itself stays.
pub fn cache_rm_all_plan(dirs: &FygDirs, names: &Vec<String>) -> (r: Vec<String>)
    ensures
        r@.len() == names@.len(),
        forall|i: int|
            0 <= i < names@.len() ==> (#[trigger] r@[i])@ == path_join(dirs@.cache, names@[i]@),
{
    let mut paths: Vec<String> = Vec::new();
    let n = names.len();
    let mut i: usize = 0;
    while i < n
        invariant
            0 <= i <= n,
            n == names@.len(),
            paths@.len() == i,
            forall|j: int|
                0 <= j < i ==> (#[trigger] paths@[j])@ == path_join(dirs@.cache, names@[j]@),
        decreases n - i,
    {
        let path = crate::dirs::join_path(dirs.engines_cache(), names[i].as_str());
        paths.push(path);
        i = i + 1;
    }
    paths
}

/// The per-version plan of `cache rm`: for each requested version, the
/// cache directory to remove when it is present, and `None` — a reported
/// skip, never an abort — when it is not.
pub fn cache_rm_plan(dirs: &FygDirs, versions: &Vec<GodotVersion>, present: &Vec<bool>) -> (r: Vec<
    Option<String>,
>)
    requires
        versions@.len() == present@.len(),
    ensures
        r@.len() == versions@.len(),
        forall|i: int| 0 <= i < r@.len() ==> ((#[trigger] r@[i]) is Some <==> present@[i]),
        forall|i: int|
            0 <= i < r@.len() ==> ((#[trigger] r@[i]) matches Some(p) ==> p@
                == spec_version_cache_dir(dirs@, versions@[i]@)),
{
    let mut plan: Vec<Option<String>> = Vec::new();
    let n = versions.len();
    let mut i: usize = 0;
    while i < n
        invariant
            0 <= i <= n,
            n == versions@.len(),
            n == present@.len(),
            plan@.len() == i,
            forall|j: int| 0 <= j < i ==> ((#[trigger] plan@[j]) is Some <==> present@[j]),
            forall|j: int|
                0 <= j < i ==> ((#[trigger] plan@[j]) matches Some(p) ==> p@
                    == spec_version_cache_dir(dirs@, versions@[j]@)),
        decreases n - i,
    {
        if present[i] {
            plan.push(Some(dirs.get_version_cache_dir(&versions[i])));
        } else {
            plan.push(None);
        }
        i = i + 1;
    }
    plan
}

} // verus!
