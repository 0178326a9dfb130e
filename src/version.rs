//! Reading the version out of a package manifest.
use vstd::prelude::*;
use crate::text::{decimal_string, decimal_text, parse_u64, parse_u64_spec, occurs_at, find_char, find_char_from, find_from, find_str, lemma_find_char_from_bounds, lemma_find_from_bounds};

verus! {

/// `source` cut in three around the text between the first `start_pattern`
/// and the first `end` after it: what precedes it (the pattern included),
/// the text itself, and the rest (from `end` on). `None` when the pattern or
/// the end after it is missing.
pub open spec fn split_spec(source: Seq<char>, start_pattern: Seq<char>, end: char) -> Option<(Seq<char>, Seq<char>, Seq<char>)> {
    let i = find_from(source, start_pattern, 0);
    if i < 0 {
        None
    } else {
        let st = i + start_pattern.len();
        let e = find_char_from(source, end, st);
        if e < 0 {
            None
        } else {
            Some((source.subrange(0, st), source.subrange(st, e), source.subrange(e, source.len() as int)))
        }
    }
}

pub open spec fn split_view(r: Option<(String, String, String)>) -> Option<(Seq<char>, Seq<char>, Seq<char>)> {
    match r {
        Some((a, b, c)) => Some((a@, b@, c@)),
        None => None,
    }
}

/// Splits `source` around the text between `start_pattern` and `end`.
pub fn split_string(source: &str, start_pattern: &str, end: char) -> (r: Option<(String, String, String)>)
    ensures
        split_view(r) == split_spec(source@, start_pattern@, end),
{
    let n = source.unicode_len();
    let i = match find_str(source, start_pattern) {
        None => return None,
        Some(i) => i,
    };
    proof {
        lemma_find_from_bounds(source@, start_pattern@, 0);
    }
    let st = i + start_pattern.unicode_len();
    let e = match find_char(source, end, st) {
        None => return None,
        Some(e) => e,
    };
    proof {
        lemma_find_char_from_bounds(source@, end, st as int);
    }
    Some((
        String::from_str(source.substring_char(0, st)),
        String::from_str(source.substring_char(st, e)),
        String::from_str(source.substring_char(e, n)),
    ))
}

/// The version that a manifest declares: the text of its first
/// `version = "..."`.
pub open spec fn manifest_version(manifest: Seq<char>) -> Option<Seq<char>> {
    match split_spec(manifest, "version = \""@, '"') {
        Some((_, v, _)) => Some(v),
        None => None,
    }
}

fn version_of(manifest: &str) -> (r: Option<String>)
    ensures
        match r {
            Some(v) => manifest_version(manifest@) == Some(v@),
            None => manifest_version(manifest@) is None,
        },
{
    match split_string(manifest, "version = \"", '"') {
        Some((_, v, _)) => Some(v),
        None => None,
    }
}

/// The server's version, from the manifest of its common package.
pub fn version(common_manifest: &str) -> (r: Option<String>)
    ensures
        match r {
            Some(v) => manifest_version(common_manifest@) == Some(v@),
            None => manifest_version(common_manifest@) is None,
        },
{
    version_of(common_manifest)
}

/// The OpenXR client's version, from the manifest of its common package.
pub fn alxr_version(alxr_common_manifest: &str) -> (r: Option<String>)
    ensures
        match r {
            Some(v) => manifest_version(alxr_common_manifest@) == Some(v@),
            None => manifest_version(alxr_common_manifest@) is None,
        },
{
    version_of(alxr_common_manifest)
}


/// `source` with the text between `start_pattern` and `end` replaced.
pub open spec fn replaced_spec(source: Seq<char>, start_pattern: Seq<char>, end: char, with: Seq<char>) -> Option<Seq<char>> {
    match split_spec(source, start_pattern, end) {
        Some((a, _, c)) => Some(a + with + c),
        None => None,
    }
}

pub open spec fn string_view(r: Option<String>) -> Option<Seq<char>> {
    match r {
        Some(s) => Some(s@),
        None => None,
    }
}

/// Replaces the text between the first `start_pattern` and the `end` after
/// it; `None` when either is missing.
pub fn replace_between(source: &str, start_pattern: &str, end: char, with: &str) -> (r: Option<String>)
    ensures
        string_view(r) == replaced_spec(source@, start_pattern@, end, with@),
{
    match split_string(source, start_pattern, end) {
        Some((a, _, c)) => Some(a.concat(with).concat(c.as_str())),
        None => None,
    }
}

/// A package manifest declaring `new_version` instead of its version.
pub fn with_cargo_version(manifest: &str, new_version: &str) -> (r: Option<String>)
    ensures
        string_view(r) == replaced_spec(manifest@, "version = \""@, '"', new_version@),
{
    replace_between(manifest, "version = \"", '"', new_version)
}

/// A Debian control file declaring `new_version`.
pub fn with_deb_control_version(control: &str, new_version: &str) -> (r: Option<String>)
    ensures
        string_view(r) == replaced_spec(control@, "\nVersion: "@, '\n', new_version@),
{
    replace_between(control, "\nVersion: ", '\n', new_version)
}

/// Version and release of an RPM package for `version`: a pre-release
/// suffix (after the first `-`) moves into the release, after `0.0.1`;
/// otherwise the release is `1.0.0`.
pub open spec fn rpm_version_parts(version: Seq<char>) -> (Seq<char>, Seq<char>) {
    match split_spec(version, ""@, '-') {
        Some((_, start, end)) => (start, "0.0.1"@ + end.drop_first()),
        None => (version, "1.0.0"@),
    }
}

fn rpm_parts(version: &str) -> (r: (String, String))
    ensures
        (r.0@, r.1@) == rpm_version_parts(version@),
{
    match split_string(version, "", '-') {
        Some((_, start, end)) => {
            let n = end.unicode_len();
            proof {
                assert(split_spec(version@, ""@, '-') is Some);
                assert(end@.len() > 0 && end@[0] == '-') by {
                    reveal_strlit("");
                    assert(occurs_at(version@, ""@, 0));
                    lemma_find_char_from_bounds(version@, '-', 0);
                    lemma_find_from_bounds(version@, ""@, 0);
                }
            }
            let rest = String::from_str(end.as_str().substring_char(1, n));
            assert(rest@ =~= end@.drop_first());
            (start, String::from_str("0.0.1").concat(rest.as_str()))
        },
        None => (String::from_str(version), String::from_str("1.0.0")),
    }
}

/// An RPM spec file for `new_version`: its `Version:` and `Release:` lines,
/// and for a release (not a nightly) the tag in its source URL.
pub open spec fn rpm_spec_with_version_spec(spec: Seq<char>, new_version: Seq<char>, is_nightly: bool) -> Option<Seq<char>> {
    let parts = rpm_version_parts(new_version);
    match replaced_spec(spec, "Version: "@, '\n', parts.0) {
        None => None,
        Some(s1) => match replaced_spec(s1, "Release: "@, '\n', parts.1) {
            None => None,
            Some(s2) => if is_nightly {
                Some(s2)
            } else {
                replaced_spec(s2, "refs/tags/v"@, 't', new_version + "."@)
            },
        },
    }
}

pub fn with_rpm_spec_version(spec: &str, new_version: &str, is_nightly: bool) -> (r: Option<String>)
    ensures
        string_view(r) == rpm_spec_with_version_spec(spec@, new_version@, is_nightly),
{
    let (start, end) = rpm_parts(new_version);
    let s1 = match replace_between(spec, "Version: ", '\n', start.as_str()) {
        Some(s) => s,
        None => return None,
    };
    let s2 = match replace_between(s1.as_str(), "Release: ", '\n', end.as_str()) {
        Some(s) => s,
        None => return None,
    };
    if is_nightly {
        Some(s2)
    } else {
        let tag = String::from_str(new_version).concat(".");
        replace_between(s2.as_str(), "refs/tags/v", 't', tag.as_str())
    }
}


/// A Gradle build file for `new_version`: its `versionName`, and for a
/// release (not a nightly) its `versionCode` raised by one. `None` when a
/// field is missing or the code is not a number that can be raised.
pub open spec fn gradle_with_version_spec(content: Seq<char>, new_version: Seq<char>, is_nightly: bool) -> Option<Seq<char>> {
    match replaced_spec(content, "versionName \""@, '"', new_version) {
        None => None,
        Some(s1) => if is_nightly {
            Some(s1)
        } else {
            match split_spec(s1, "versionCode "@, '\n') {
                None => None,
                Some((a, code, c)) => match parse_u64_spec(code) {
                    Some(n) if n < u64::MAX => Some(a + decimal_text(n as nat + 1) + c),
                    _ => None,
                },
            }
        },
    }
}

pub fn with_gradle_version(content: &str, new_version: &str, is_nightly: bool) -> (r: Option<String>)
    ensures
        string_view(r) == gradle_with_version_spec(content@, new_version@, is_nightly),
{
    let s1 = match replace_between(content, "versionName \"", '"', new_version) {
        Some(s) => s,
        None => return None,
    };
    if is_nightly {
        return Some(s1);
    }
    match split_string(s1.as_str(), "versionCode ", '\n') {
        None => None,
        Some((a, code, c)) => match parse_u64(code.as_str()) {
            Some(n) => {
                if n < u64::MAX {
                    let next = decimal_string(n + 1);
                    Some(a.concat(next.as_str()).concat(c.as_str()))
                } else {
                    None
                }
            },
            None => None,
        },
    }
}

/// The version of the store package for `version`: its major number raised
/// by one, the rest kept. `None` without a `.` or when the major number is
/// not a 32-bit number that can be raised.
pub open spec fn uwp_version_spec(version: Seq<char>) -> Option<Seq<char>> {
    let i = find_char_from(version, '.', 0);
    if i < 0 {
        None
    } else {
        match parse_u64_spec(version.subrange(0, i)) {
            Some(m) if m < u32::MAX => Some(decimal_text(m as nat + 1) + "."@ + version.subrange(i + 1, version.len() as int)),
            _ => None,
        }
    }
}

pub fn uwp_version(version: &str) -> (r: Option<String>)
    ensures
        string_view(r) == uwp_version_spec(version@),
{
    let n = version.unicode_len();
    let i = match find_char(version, '.', 0) {
        Some(i) => i,
        None => return None,
    };
    proof {
        lemma_find_char_from_bounds(version@, '.', 0);
    }
    match parse_u64(version.substring_char(0, i)) {
        Some(m) => {
            if m < 4294967295 {
                let major = decimal_string(m + 1);
                Some(major.concat(".").concat(version.substring_char(i + 1, n)))
            } else {
                None
            }
        },
        None => None,
    }
}

} // verus!
