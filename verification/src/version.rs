//! The canonical identity of an engine version and the naming scheme that
//! derives directory, binary and archive names from it.
//!
//! A version identity is a numeric triple, an optional pre-release channel
//! and an alternate-runtime ("mono") flag.  Its canonical text
//! `major.minor.patch-channel`, with `_mono` appended for the alternate
//! runtime, is the unique on-disk key for the version: parsing and
//! formatting are exact inverses, which [`lemma_parse_round_trip`] and
//! [`lemma_dir_name_round_trip`] prove.

use vstd::prelude::*;

use crate::error::FygError;
use crate::platform::{spec_binary_suffix, spec_zip_suffix, Platform};
use crate::text::{
    all_digits, dec_str, digits_val, find_char, find_char_in_str, has_suffix, is_digit,
    lemma_dec_str_digits, lemma_dec_str_val, lemma_find_char_characterization,
    lemma_find_char_exact, lemma_find_char_none, parse_u64_digits, u64_to_string,
};

verus! {

/// A parsed engine version: numeric triple, optional pre-release channel,
/// alternate-runtime flag.  Immutable once constructed.
#[derive(Debug, PartialEq)]
pub struct GodotVersion {
    pub major: u64,
    pub minor: u64,
    pub patch: u64,
    pub pre_release: Option<String>,
    pub mono: bool,
}

/// The mathematical value of a [`GodotVersion`].
pub struct VersionView {
    pub major: u64,
    pub minor: u64,
    pub patch: u64,
    pub pre_release: Option<Seq<char>>,
    pub mono: bool,
}

impl View for GodotVersion {
    type V = VersionView;

    open spec fn view(&self) -> VersionView {
        VersionView {
            major: self.major,
            minor: self.minor,
            patch: self.patch,
            pre_release: match self.pre_release {
                Some(c) => Some(c@),
                None => None,
            },
            mono: self.mono,
        }
    }
}

pub open spec fn stable_seq() -> Seq<char> {
    seq!['s', 't', 'a', 'b', 'l', 'e']
}

pub open spec fn mono_suffix_seq() -> Seq<char> {
    seq!['_', 'm', 'o', 'n', 'o']
}

impl VersionView {
    /// A well-formed identity never stores the normalized channel spellings:
    /// an absent or "stable" channel is represented as `None`.
    pub open spec fn wf(self) -> bool {
        match self.pre_release {
            Some(c) => c.len() > 0 && c != stable_seq(),
            None => true,
        }
    }
}

/// The channel part of the canonical text: an absent channel is spelled
/// `stable`.
pub open spec fn spec_channel_text(v: VersionView) -> Seq<char> {
    match v.pre_release {
        Some(c) => c,
        None => stable_seq(),
    }
}

/// The dot-separated numeric part of the canonical text.
pub open spec fn spec_numeric_text(v: VersionView) -> Seq<char> {
    dec_str(v.major as int) + seq!['.'] + dec_str(v.minor as int) + seq!['.'] + dec_str(
        v.patch as int,
    )
}

/// The canonical text `major.minor.patch-channel`.
pub open spec fn spec_full_version(v: VersionView) -> Seq<char> {
    spec_numeric_text(v) + seq!['-'] + spec_channel_text(v)
}

/// The canonical text with the alternate-runtime marker: the on-disk
/// directory name of the version.
pub open spec fn spec_full_version_with_flavor(v: VersionView) -> Seq<char> {
    if v.mono {
        spec_full_version(v) + mono_suffix_seq()
    } else {
        spec_full_version(v)
    }
}

/// The binary filename under a chosen suffix table.
pub open spec fn spec_binary_name_with_table(v: VersionView, modern: bool, p: Platform) -> Seq<
    char,
> {
    "Godot_v"@ + spec_full_version_with_flavor(v) + seq!['_'] + spec_binary_suffix(modern, p)
}

/// The installed binary's filename; the suffix table is selected by the
/// major version being at least 4.
pub open spec fn spec_binary_name(v: VersionView, p: Platform) -> Seq<char> {
    spec_binary_name_with_table(v, v.major >= 4, p)
}

/// The release archive's name; its suffix table is likewise selected by era.
pub open spec fn spec_zip_name(v: VersionView, p: Platform) -> Seq<char> {
    "Godot_v"@ + spec_full_version_with_flavor(v) + seq!['_'] + spec_zip_suffix(
        v.major >= 4,
        p,
    ) + ".zip"@
}

/// The flavor marker of the human-facing text.
pub open spec fn spec_mono_marker(mono: bool) -> Seq<char> {
    if mono {
        " (Mono)"@
    } else {
        Seq::<char>::empty()
    }
}

/// The channel part of the human-facing text.
pub open spec fn spec_display_channel(v: VersionView) -> Seq<char> {
    match v.pre_release {
        Some(c) => seq!['-'] + c,
        None => Seq::<char>::empty(),
    }
}

/// Human-facing text of a version: the triple, the channel if any, and a
/// marker for the alternate runtime.
pub open spec fn spec_display_text(v: VersionView) -> Seq<char> {
    spec_numeric_text(v) + spec_display_channel(v) + spec_mono_marker(v.mono)
}

/// A numeric segment is acceptable when it is a non-empty digit sequence
/// whose value fits in a `u64`.
pub open spec fn seg_ok(s: Seq<char>) -> bool {
    s.len() > 0 && all_digits(s) && digits_val(s) <= u64::MAX as int
}

/// One numeric segment: minor and patch default to zero.
pub open spec fn spec_parse_one(s: Seq<char>) -> Option<(u64, u64, u64)> {
    if seg_ok(s) {
        Some((digits_val(s) as u64, 0u64, 0u64))
    } else {
        None
    }
}

/// Two numeric segments: patch defaults to zero.
pub open spec fn spec_parse_two(a: Seq<char>, b: Seq<char>) -> Option<(u64, u64, u64)> {
    if seg_ok(a) && seg_ok(b) {
        Some((digits_val(a) as u64, digits_val(b) as u64, 0u64))
    } else {
        None
    }
}

/// Three numeric segments; a fourth segment is a syntax error.
pub open spec fn spec_parse_three(a: Seq<char>, b: Seq<char>, c: Seq<char>) -> Option<
    (u64, u64, u64),
> {
    if find_char(c, '.') is None && seg_ok(a) && seg_ok(b) && seg_ok(c) {
        Some((digits_val(a) as u64, digits_val(b) as u64, digits_val(c) as u64))
    } else {
        None
    }
}

/// Split the remainder after the first dot on its own first dot.
pub open spec fn spec_parse_after_first_dot(a: Seq<char>, rest: Seq<char>) -> Option<
    (u64, u64, u64),
> {
    match find_char(rest, '.') {
        None => spec_parse_two(a, rest),
        Some(j) => spec_parse_three(a, rest.subrange(0, j), rest.subrange(j + 1, rest.len() as int)),
    }
}

/// Parse the dot-separated numeric part: one to three segments, with
/// missing trailing segments defaulting to zero.
pub open spec fn spec_parse_numeric(s: Seq<char>) -> Option<(u64, u64, u64)> {
    match find_char(s, '.') {
        None => spec_parse_one(s),
        Some(i) => spec_parse_after_first_dot(s.subrange(0, i), s.subrange(i + 1, s.len() as int)),
    }
}

/// Normalize the channel token: absent, empty or `stable` mean "no channel".
pub open spec fn spec_channel_of(right: Seq<char>) -> Option<Seq<char>> {
    if right.len() == 0 || right == stable_seq() {
        None
    } else {
        Some(right)
    }
}

/// The part of the input left of the first `-`.
pub open spec fn spec_left_of_dash(s: Seq<char>) -> Seq<char> {
    match find_char(s, '-') {
        None => s,
        Some(i) => s.subrange(0, i),
    }
}

/// The part of the input right of the first `-`, empty when there is none.
pub open spec fn spec_right_of_dash(s: Seq<char>) -> Seq<char> {
    match find_char(s, '-') {
        None => Seq::<char>::empty(),
        Some(i) => s.subrange(i + 1, s.len() as int),
    }
}

pub open spec fn spec_view_of(t: (u64, u64, u64), right: Seq<char>, mono: bool) -> VersionView {
    VersionView {
        major: t.0,
        minor: t.1,
        patch: t.2,
        pre_release: spec_channel_of(right),
        mono,
    }
}

/// Parse a full version string: the part left of the first `-` is the
/// numeric triple; the right part is the channel token, normalized.
pub open spec fn spec_parse(s: Seq<char>, mono: bool) -> Option<VersionView> {
    match spec_parse_numeric(spec_left_of_dash(s)) {
        None => None,
        Some(t) => Some(spec_view_of(t, spec_right_of_dash(s), mono)),
    }
}

/// Reverse-parse an on-disk directory name: split off an optional `_mono`
/// suffix, then parse the canonical text.
pub open spec fn spec_parse_dir_name(name: Seq<char>) -> Option<VersionView> {
    if has_suffix(name, mono_suffix_seq()) {
        spec_parse(name.subrange(0, name.len() - 5), true)
    } else {
        spec_parse(name, false)
    }
}

/// Parse the dot-separated numeric part of a version string.
fn parse_numeric_part(s: &str) -> (r: Option<(u64, u64, u64)>)
    ensures
        match r {
            Some(t) => spec_parse_numeric(s@) == Some(t),
            None => spec_parse_numeric(s@) is None,
        },
{
    let n = s.unicode_len();
    let first = find_char_in_str(s, '.');
    if first.is_none() {
        let a = match parse_u64_digits(s) {
            Some(a) => a,
            None => {
                return None;
            },
        };
        return Some((a, 0, 0));
    }
    let i = first.unwrap();
    proof {
        lemma_find_char_characterization(s@, '.');
    }
    let a_str = s.substring_char(0, i);
    let rest = s.substring_char(i + 1, n);
    let rest_len = rest.unicode_len();
    let second = find_char_in_str(rest, '.');
    if second.is_none() {
        let a = match parse_u64_digits(a_str) {
            Some(a) => a,
            None => {
                return None;
            },
        };
        let b = match parse_u64_digits(rest) {
            Some(b) => b,
            None => {
                return None;
            },
        };
        return Some((a, b, 0));
    }
    let j = second.unwrap();
    proof {
        lemma_find_char_characterization(rest@, '.');
    }
    let b_str = rest.substring_char(0, j);
    let c_str = rest.substring_char(j + 1, rest_len);
    let extra = find_char_in_str(c_str, '.');
    if extra.is_some() {
        return None;
    }
    let a = match parse_u64_digits(a_str) {
        Some(a) => a,
        None => {
            return None;
        },
    };
    let b = match parse_u64_digits(b_str) {
        Some(b) => b,
        None => {
            return None;
        },
    };
    let c = match parse_u64_digits(c_str) {
        Some(c) => c,
        None => {
            return None;
        },
    };
    Some((a, b, c))
}

impl GodotVersion {
    pub open spec fn wf(self) -> bool {
        self@.wf()
    }

    /// Parse a user-supplied version string into a canonical identity.
    ///
    /// Fails with [`FygError::InvalidVersionSyntax`] exactly when the part
    /// left of the first `-` is empty, has a non-numeric or oversized
    /// segment, or has more than three segments.
    pub fn new(full_version: &str, mono: bool) -> (r: Result<GodotVersion, FygError>)
        ensures
            match r {
                Ok(v) => spec_parse(full_version@, mono) == Some(v@) && v.wf(),
                Err(e) => spec_parse(full_version@, mono) is None && e
                    == FygError::InvalidVersionSyntax,
            },
    {
        let n = full_version.unicode_len();
        let dash = find_char_in_str(full_version, '-');
        let (left, right): (&str, &str) = match dash {
            Some(i) => {
                proof {
                    lemma_find_char_characterization(full_version@, '-');
                }
                (full_version.substring_char(0, i), full_version.substring_char(i + 1, n))
            },
            None => {
                proof {
                    reveal_strlit("");
                    assert(""@ =~= Seq::<char>::empty());
                }
                (full_version, "")
            },
        };
        let triple = match parse_numeric_part(left) {
            Some(t) => t,
            None => {
                return Err(FygError::InvalidVersionSyntax);
            },
        };
        let right_len = right.unicode_len();
        let pre_release: Option<String> = if right_len == 0 {
            None
        } else {
            let right_string = String::from_str(right);
            let stable_string = String::from_str("stable");
            proof {
                reveal_strlit("stable");
                assert("stable"@ =~= stable_seq());
            }
            if right_string == stable_string {
                None
            } else {
                Some(right_string)
            }
        };
        Ok(GodotVersion { major: triple.0, minor: triple.1, patch: triple.2, pre_release, mono })
    }

    /// The canonical text `major.minor.patch-channel`.
    pub fn get_full_version(&self) -> (r: String)
        ensures
            r@ == spec_full_version(self@),
    {
        let mut r = u64_to_string(self.major);
        r.append(".");
        let minor_text = u64_to_string(self.minor);
        r.append(minor_text.as_str());
        r.append(".");
        let patch_text = u64_to_string(self.patch);
        r.append(patch_text.as_str());
        r.append("-");
        match &self.pre_release {
            Some(c) => r.append(c.as_str()),
            None => r.append("stable"),
        }
        proof {
            reveal_strlit(".");
            reveal_strlit("-");
            reveal_strlit("stable");
            assert("."@ =~= seq!['.']);
            assert("-"@ =~= seq!['-']);
            assert("stable"@ =~= stable_seq());
            assert(r@ =~= spec_full_version(self@));
        }
        r
    }

    /// The canonical text with the `_mono` marker when the alternate
    /// runtime is selected: the version's directory name.
    pub fn get_full_version_with_flavor(&self) -> (r: String)
        ensures
            r@ == spec_full_version_with_flavor(self@),
    {
        let mut r = self.get_full_version();
        if self.mono {
            r.append("_mono");
            proof {
                reveal_strlit("_mono");
                assert("_mono"@ =~= mono_suffix_seq());
                assert(r@ =~= spec_full_version_with_flavor(self@));
            }
        }
        r
    }

    /// The installed binary's filename on the given platform.
    pub fn get_binary_name(&self, platform: Platform) -> (r: String)
        ensures
            r@ == spec_binary_name(self@, platform),
    {
        let mut r = String::from_str("Godot_v");
        let flavored = self.get_full_version_with_flavor();
        r.append(flavored.as_str());
        r.append("_");
        r.append(platform.binary_suffix(self.major >= 4));
        proof {
            reveal_strlit("_");
            assert("_"@ =~= seq!['_']);
            assert(r@ =~= spec_binary_name(self@, platform));
        }
        r
    }

    /// The release archive's name on the given platform; also the name of
    /// the cached copy of the archive.
    pub fn get_zip_name(&self, platform: Platform) -> (r: String)
        ensures
            r@ == spec_zip_name(self@, platform),
    {
        let mut r = String::from_str("Godot_v");
        let flavored = self.get_full_version_with_flavor();
        r.append(flavored.as_str());
        r.append("_");
        r.append(platform.zip_suffix(self.major >= 4));
        r.append(".zip");
        proof {
            reveal_strlit("_");
            assert("_"@ =~= seq!['_']);
            assert(r@ =~= spec_zip_name(self@, platform));
        }
        r
    }

    /// Identity equality: two versions are the same exactly when their
    /// canonical on-disk names coincide.
    pub fn same_identity(&self, other: &GodotVersion) -> (r: bool)
        ensures
            r == (spec_full_version_with_flavor(self@) == spec_full_version_with_flavor(other@)),
    {
        let ours = self.get_full_version_with_flavor();
        let theirs = other.get_full_version_with_flavor();
        ours == theirs
    }

    /// Human-facing text of the version, for reports.
    pub fn display_text(&self) -> (r: String)
        ensures
            r@ == spec_display_text(self@),
    {
        let mut r = u64_to_string(self.major);
        r.append(".");
        let minor_text = u64_to_string(self.minor);
        r.append(minor_text.as_str());
        r.append(".");
        let patch_text = u64_to_string(self.patch);
        r.append(patch_text.as_str());
        match &self.pre_release {
            Some(c) => {
                r.append("-");
                r.append(c.as_str());
            },
            None => {},
        }
        if self.mono {
            r.append(" (Mono)");
        }
        proof {
            reveal_strlit(".");
            reveal_strlit("-");
            assert("."@ =~= seq!['.']);
            assert("-"@ =~= seq!['-']);
            assert(r@ =~= spec_display_text(self@));
        }
        r
    }
}

/// Reverse-parse a directory name found under an `engines` directory.
/// `None` means the directory is not a managed version and is skipped.
pub fn parse_version_dir_name(name: &str) -> (r: Option<GodotVersion>)
    ensures
        match r {
            Some(v) => spec_parse_dir_name(name@) == Some(v@) && v.wf(),
            None => spec_parse_dir_name(name@) is None,
        },
{
    let n = name.unicode_len();
    let mut mono = false;
    let mut base: &str = name;
    if n >= 5 {
        let tail = name.substring_char(n - 5, n);
        let tail_string = String::from_str(tail);
        let mono_string = String::from_str("_mono");
        proof {
            reveal_strlit("_mono");
            assert("_mono"@ =~= mono_suffix_seq());
        }
        if tail_string == mono_string {
            mono = true;
            base = name.substring_char(0, n - 5);
        }
    }
    proof {
        assert(has_suffix(name@, mono_suffix_seq()) == mono);
    }
    match GodotVersion::new(base, mono) {
        Ok(v) => Some(v),
        Err(_) => None,
    }
}

/// The binary names drawn from the two suffix tables never coincide on the
/// platforms where the tables differ: macOS and both Linux variants.
pub proof fn lemma_binary_name_tables_differ(v: VersionView, p: Platform)
    requires
        p == Platform::MacOS || p == Platform::Linux32 || p == Platform::Linux64,
    ensures
        spec_binary_name_with_table(v, true, p) != spec_binary_name_with_table(v, false, p),
{
    crate::platform::lemma_binary_suffix_tables_differ(p);
    reveal_strlit("macos.universal");
    reveal_strlit("osx.universal");
    reveal_strlit("linux.x86_32");
    reveal_strlit("x11.32");
    reveal_strlit("linux.x86_64");
    reveal_strlit("x11.64");
    assert(spec_binary_suffix(true, p).len() != spec_binary_suffix(false, p).len());
    let modern_name = spec_binary_name_with_table(v, true, p);
    let legacy_name = spec_binary_name_with_table(v, false, p);
    assert(modern_name.len() == "Godot_v"@.len() + spec_full_version_with_flavor(v).len() + 1
        + spec_binary_suffix(true, p).len());
    assert(legacy_name.len() == "Godot_v"@.len() + spec_full_version_with_flavor(v).len() + 1
        + spec_binary_suffix(false, p).len());
    assert(modern_name.len() != legacy_name.len());
}

proof fn lemma_parse_numeric_of_canonical(major: u64, minor: u64, patch: u64)
    ensures
        spec_parse_numeric(
            dec_str(major as int) + seq!['.'] + dec_str(minor as int) + seq!['.'] + dec_str(
                patch as int,
            ),
        ) == Some((major, minor, patch)),
{
    let d1 = dec_str(major as int);
    let d2 = dec_str(minor as int);
    let d3 = dec_str(patch as int);
    lemma_dec_str_digits(major as int);
    lemma_dec_str_digits(minor as int);
    lemma_dec_str_digits(patch as int);
    lemma_dec_str_val(major as int);
    lemma_dec_str_val(minor as int);
    lemma_dec_str_val(patch as int);
    let s = d1 + seq!['.'] + d2 + seq!['.'] + d3;
    let l1 = d1.len() as int;
    let l2 = d2.len() as int;
    assert forall|j: int| 0 <= j < l1 implies s[j] != '.' by {
        assert(s[j] == d1[j]);
        assert(is_digit(d1[j]));
    }
    assert(s[l1] == '.');
    lemma_find_char_exact(s, '.', l1);
    let a = s.subrange(0, l1);
    let rest = s.subrange(l1 + 1, s.len() as int);
    assert(a =~= d1);
    assert(rest =~= d2 + seq!['.'] + d3);
    assert forall|j: int| 0 <= j < l2 implies rest[j] != '.' by {
        assert(rest[j] == d2[j]);
        assert(is_digit(d2[j]));
    }
    assert(rest[l2] == '.');
    lemma_find_char_exact(rest, '.', l2);
    let b = rest.subrange(0, l2);
    let c = rest.subrange(l2 + 1, rest.len() as int);
    assert(b =~= d2);
    assert(c =~= d3);
    assert forall|j: int| 0 <= j < c.len() implies c[j] != '.' by {
        assert(is_digit(d3[j]));
    }
    lemma_find_char_none(c, '.');
    assert(seg_ok(a));
    assert(seg_ok(b));
    assert(seg_ok(c));
}

/// No character of the numeric part of a canonical text is a dash.
proof fn lemma_numeric_text_no_dash(v: VersionView)
    ensures
        forall|j: int|
            0 <= j < spec_numeric_text(v).len() ==> #[trigger] spec_numeric_text(v)[j] != '-',
{
    let d1 = dec_str(v.major as int);
    let d2 = dec_str(v.minor as int);
    let d3 = dec_str(v.patch as int);
    lemma_dec_str_digits(v.major as int);
    lemma_dec_str_digits(v.minor as int);
    lemma_dec_str_digits(v.patch as int);
    let numeric = spec_numeric_text(v);
    let l1 = d1.len() as int;
    let l2 = d2.len() as int;
    assert forall|j: int| 0 <= j < numeric.len() implies numeric[j] != '-' by {
        if j < l1 {
            assert(numeric[j] == d1[j]);
            assert(is_digit(d1[j]));
        } else if j == l1 {
            assert(numeric[j] == '.');
        } else if j < l1 + 1 + l2 {
            assert(numeric[j] == d2[j - l1 - 1]);
            assert(is_digit(d2[j - l1 - 1]));
        } else if j == l1 + 1 + l2 {
            assert(numeric[j] == '.');
        } else {
            assert(numeric[j] == d3[j - l1 - 1 - l2 - 1]);
            assert(is_digit(d3[j - l1 - 1 - l2 - 1]));
        }
    }
}

/// Round trip: re-parsing the canonical text of a well-formed identity
/// yields exactly that identity, so canonicalization is idempotent.
pub proof fn lemma_parse_round_trip(v: VersionView)
    requires
        v.wf(),
    ensures
        spec_parse(spec_full_version(v), v.mono) == Some(v),
{
    let numeric = spec_numeric_text(v);
    let ch = spec_channel_text(v);
    let s = spec_full_version(v);
    let nl = numeric.len() as int;
    lemma_numeric_text_no_dash(v);
    assert(s[nl] == '-');
    assert forall|j: int| 0 <= j < nl implies s[j] != '-' by {
        assert(s[j] == numeric[j]);
    }
    lemma_find_char_exact(s, '-', nl);
    assert(spec_left_of_dash(s) =~= numeric);
    assert(spec_right_of_dash(s) =~= ch);
    lemma_parse_numeric_of_canonical(v.major, v.minor, v.patch);
    match v.pre_release {
        Some(c) => {
            assert(spec_channel_of(ch) == Some(c));
        },
        None => {
            assert(ch == stable_seq());
            assert(spec_channel_of(ch) == None::<Seq<char>>);
        },
    }
}

/// The canonical text of a well-formed identity never ends in the flavor
/// marker, provided the channel itself does not.
proof fn lemma_canonical_no_mono_suffix(v: VersionView)
    requires
        v.wf(),
        match v.pre_release {
            Some(c) => !has_suffix(c, mono_suffix_seq()),
            None => true,
        },
    ensures
        !has_suffix(spec_full_version(v), mono_suffix_seq()),
{
    let full = spec_full_version(v);
    let numeric = spec_numeric_text(v);
    let ch = spec_channel_text(v);
    let nl = numeric.len() as int;
    assert(full.len() == numeric.len() + 1 + ch.len());
    assert(numeric.len() >= 3) by {
        lemma_dec_str_digits(v.major as int);
        lemma_dec_str_digits(v.minor as int);
        lemma_dec_str_digits(v.patch as int);
    }
    if has_suffix(full, mono_suffix_seq()) {
        let tail = full.subrange(full.len() - 5, full.len() as int);
        assert(tail == mono_suffix_seq());
        if ch.len() >= 5 {
            assert(ch.subrange(ch.len() - 5, ch.len() as int) =~= mono_suffix_seq()) by {
                assert forall|k: int| 0 <= k < 5 implies ch[ch.len() - 5 + k] == tail[k] by {
                    assert(tail[k] == full[full.len() - 5 + k]);
                }
            }
            if v.pre_release is Some {
                assert(has_suffix(ch, mono_suffix_seq()));
            } else {
                assert(ch == stable_seq());
                assert(stable_seq().subrange(1, 6) =~= mono_suffix_seq());
                assert(stable_seq()[1] == mono_suffix_seq()[0]);
            }
            assert(false);
        } else {
            assert(ch.len() >= 1);
            let k = 4 - ch.len() as int;
            assert(0 <= k < 4);
            assert(full.len() - 5 + k == nl);
            assert(tail[k] == full[nl]);
            assert(full[nl] == '-');
            assert(mono_suffix_seq()[k] != '-');
            assert(false);
        }
    }
}

/// Round trip for on-disk directory names: the directory name written for
/// a well-formed identity reverse-parses to exactly that identity.  For a
/// standard-runtime identity the channel must not itself end in the
/// flavor marker, or the marker would be mistaken for the flavor.
pub proof fn lemma_dir_name_round_trip(v: VersionView)
    requires
        v.wf(),
        !v.mono ==> match v.pre_release {
            Some(c) => !has_suffix(c, mono_suffix_seq()),
            None => true,
        },
    ensures
        spec_parse_dir_name(spec_full_version_with_flavor(v)) == Some(v),
{
    let full = spec_full_version(v);
    let name = spec_full_version_with_flavor(v);
    if v.mono {
        assert(name =~= full + mono_suffix_seq());
        assert(name.subrange(name.len() - 5, name.len() as int) =~= mono_suffix_seq());
        assert(has_suffix(name, mono_suffix_seq()));
        assert(name.subrange(0, name.len() - 5) =~= full);
        lemma_parse_round_trip(v);
    } else {
        lemma_canonical_no_mono_suffix(v);
        lemma_parse_round_trip(v);
    }
}

} // verus!
