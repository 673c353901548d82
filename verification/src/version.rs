//! Versions of SDK directories: how the version of a directory is read off
//! its path, and how two versions are ordered.

use crate::path::{final_name, HostPath};
use crate::text::{number, parse_number, split, split_text, strip_prefix, without_prefix};
use vstd::prelude::*;
use vstd::string::*;

verus! {

/// Four numbers, ordered from the first to the last.
pub type Version = (u32, u32, u32, u32);

/// Whether `a` comes before `b`: the first component in which they differ is
/// smaller in `a`.
pub open spec fn version_before(a: Version, b: Version) -> bool {
    ||| a.0 < b.0
    ||| a.0 == b.0 && a.1 < b.1
    ||| a.0 == b.0 && a.1 == b.1 && a.2 < b.2
    ||| a.0 == b.0 && a.1 == b.1 && a.2 == b.2 && a.3 < b.3
}

/// Tells whether `a` comes before `b`.
pub fn version_less(a: Version, b: Version) -> (less: bool)
    ensures
        less == version_before(a, b),
{
    if a.0 != b.0 {
        a.0 < b.0
    } else if a.1 != b.1 {
        a.1 < b.1
    } else if a.2 != b.2 {
        a.2 < b.2
    } else {
        a.3 < b.3
    }
}

/// Of two different versions exactly one comes before the other, no version
/// comes before itself, and the order carries over a middle version.
pub proof fn law_version_order(a: Version, b: Version, c: Version)
    ensures
        !version_before(a, a),
        a != b ==> (version_before(a, b) <==> !version_before(b, a)),
        version_before(a, b) && version_before(b, c) ==> version_before(a, c),
{
}

/// The version that the name of a directory of the Windows 10 SDK writes:
/// exactly four numbers with a dot between each two, as in `10.0.22000.0`.
pub open spec fn w10_name_version(name: Seq<char>) -> Option<Version> {
    let fields = split(name, '.');
    if fields.len() == 4 && number(fields[0]) is Some && number(fields[1]) is Some && number(
        fields[2],
    ) is Some && number(fields[3]) is Some {
        Some(
            (
                number(fields[0])->0,
                number(fields[1])->0,
                number(fields[2])->0,
                number(fields[3])->0,
            ),
        )
    } else {
        None
    }
}

/// The version that the name of a directory of the Windows 8 SDK writes:
/// `winv`, then exactly two numbers with a dot between them, as in
/// `winv6.3`. The last two components of the version are zero.
pub open spec fn w8_name_version(name: Seq<char>) -> Option<Version> {
    match without_prefix(name, "winv"@) {
        Some(rest) => {
            let fields = split(rest, '.');
            if fields.len() == 2 && number(fields[0]) is Some && number(fields[1]) is Some {
                Some((number(fields[0])->0, number(fields[1])->0, 0, 0))
            } else {
                None
            }
        },
        None => None,
    }
}

/// The version of the Windows 10 SDK directory at `path`: the one that its
/// final component writes. The components before it play no part.
pub open spec fn w10_version(path: Seq<u16>) -> Option<Version> {
    match final_name(path) {
        Some(name) => w10_name_version(name),
        None => None,
    }
}

/// The version of the Windows 8 SDK directory at `path`: the one that its
/// final component writes. The components before it play no part.
pub open spec fn w8_version(path: Seq<u16>) -> Option<Version> {
    match final_name(path) {
        Some(name) => w8_name_version(name),
        None => None,
    }
}

/// Reads the name of a Windows 10 SDK directory as a version.
pub fn parse_w10_name(name: &str) -> (version: Option<Version>)
    ensures
        version == w10_name_version(name@),
{
    let fields = split_text(name, '.');
    if fields.len() != 4 {
        return None;
    }
    let v0 = parse_number(fields[0].as_str());
    let v1 = parse_number(fields[1].as_str());
    let v2 = parse_number(fields[2].as_str());
    let v3 = parse_number(fields[3].as_str());
    match (v0, v1, v2, v3) {
        (Some(a), Some(b), Some(c), Some(d)) => Some((a, b, c, d)),
        _ => None,
    }
}

/// Reads the name of a Windows 8 SDK directory as a version.
pub fn parse_w8_name(name: &str) -> (version: Option<Version>)
    ensures
        version == w8_name_version(name@),
{
    let rest = match strip_prefix(name, "winv") {
        Some(rest) => rest,
        None => {
            return None;
        },
    };
    let fields = split_text(rest, '.');
    if fields.len() != 2 {
        return None;
    }
    let v0 = parse_number(fields[0].as_str());
    let v1 = parse_number(fields[1].as_str());
    match (v0, v1) {
        (Some(a), Some(b)) => Some((a, b, 0, 0)),
        _ => None,
    }
}

/// Reads the version of the Windows 10 SDK directory at `path` off the
/// path's final component.
pub fn parse_w10_version(path: &HostPath) -> (version: Option<Version>)
    ensures
        version == w10_version(path@),
{
    match path.file_name() {
        Some(name) => parse_w10_name(name.as_str()),
        None => None,
    }
}

/// Reads the version of the Windows 8 SDK directory at `path` off the
/// path's final component.
pub fn parse_w8_version(path: &HostPath) -> (version: Option<Version>)
    ensures
        version == w8_version(path@),
{
    match path.file_name() {
        Some(name) => parse_w8_name(name.as_str()),
        None => None,
    }
}

} // verus!
