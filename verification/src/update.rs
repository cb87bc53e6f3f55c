//! Newer releases: which asset fits this machine, whether a release is newer
//! than the running one, and where to download it.
use crate::json::{json_as_text, json_get, json_member, json_text};
use serde_json::Value;
use vstd::prelude::*;

verus! {

/// A newer release: its version and the download of the asset for this
/// machine.
#[derive(Debug)]
pub struct UpdateInfo {
    pub latest_version: String,
    pub download_url: String,
}

#[verifier::external_type_specification]
#[verifier::external_body]
pub struct ExVersion(semver::Version);

/// A version parsed by `semver`, with the text it was parsed from; only
/// `parse_version` makes one, so the two always belong together.
struct ParsedVersion {
    version: semver::Version,
    source: Ghost<Seq<char>>,
}

/// Whether `semver` accepts `s` as a version (`semver::Version::parse`).
pub uninterp spec fn semver_valid(s: Seq<char>) -> bool;

/// Whether the version parsed from `a` is greater than the one parsed from
/// `b`, in `semver`'s order (`>` on `semver::Version`).
pub uninterp spec fn semver_greater(a: Seq<char>, b: Seq<char>) -> bool;

/// How `semver` writes the version parsed from `s` (its `Display`).
pub uninterp spec fn semver_text(s: Seq<char>) -> Seq<char>;

/// Parses a version with `semver::Version::parse`.
///
/// Trusted: the parse succeeds exactly on the texts `semver_valid` names,
/// and the result remembers the text.
#[verifier::external_body]
fn parse_version(s: &str) -> (r: Option<ParsedVersion>)
    ensures
        r is Some <==> semver_valid(s@),
        r matches Some(p) ==> p.source@ == s@,
{
    match semver::Version::parse(s) {
        Ok(v) => Some(ParsedVersion { version: v, source: Ghost(s@) }),
        Err(_) => None,
    }
}

/// Compares two parsed versions with `>` (`semver::Version`'s derived
/// order: major, minor, patch, pre-release, build metadata).
///
/// Trusted: the result is `semver_greater` of the two texts; a version is
/// not greater than one parsed from the same text, the order being total.
#[verifier::external_body]
fn version_newer(a: &ParsedVersion, b: &ParsedVersion) -> (r: bool)
    ensures
        r == semver_greater(a.source@, b.source@),
        a.source@ == b.source@ ==> !r,
{
    a.version > b.version
}

/// Writes a parsed version with its `Display` (`to_string`).
///
/// Trusted: the result is `semver_text` of the text it was parsed from.
#[verifier::external_body]
fn version_text(v: &ParsedVersion) -> (r: String)
    ensures
        r@ == semver_text(v.source@),
{
    v.version.to_string()
}

/// A release tag without its leading `v`, if it has one.
pub open spec fn tag_version(tag: Seq<char>) -> Seq<char> {
    if tag.len() > 0 && tag[0] == 'v' {
        tag.skip(1)
    } else {
        tag
    }
}

/// A release tag without its leading `v`, if it has one.
pub fn strip_tag(tag: &str) -> (r: String)
    ensures
        r@ == tag_version(tag@),
{
    let n = tag.unicode_len();
    if n > 0 && tag.get_char(0) == 'v' {
        String::from_str(tag.substring_char(1, n))
    } else {
        String::from_str(tag)
    }
}

/// The release asset built for an operating system and a processor:
/// `quads-tui-<os>-<arch>`, with `.exe` on Windows; none for other systems
/// or processors.
pub open spec fn asset_for(os: Seq<char>, arch: Seq<char>) -> Option<Seq<char>> {
    if (os == "linux"@ || os == "macos"@ || os == "windows"@) && (arch == "x86_64"@ || arch
        == "aarch64"@) {
        Some(
            "quads-tui-"@ + os + "-"@ + arch + if os == "windows"@ {
                ".exe"@
            } else {
                ""@
            },
        )
    } else {
        None
    }
}

/// The release asset for the operating system `os` and the processor
/// `arch` (as `std::env::consts` names them).
pub fn asset_name(os: &str, arch: &str) -> (r: Option<String>)
    ensures
        match r {
            Some(a) => asset_for(os@, arch@) == Some(a@),
            None => asset_for(os@, arch@) is None,
        },
{
    proof {
        reveal_strlit("linux");
        reveal_strlit("macos");
        reveal_strlit("windows");
        reveal_strlit("x86_64");
        reveal_strlit("aarch64");
        reveal_strlit("quads-tui-");
        reveal_strlit("-");
        reveal_strlit(".exe");
        reveal_strlit("");
    }
    let os_ok = crate::text_util::text_eq(os, "linux") || crate::text_util::text_eq(os, "macos")
        || crate::text_util::text_eq(os, "windows");
    let arch_ok = crate::text_util::text_eq(arch, "x86_64") || crate::text_util::text_eq(
        arch,
        "aarch64",
    );
    if !(os_ok && arch_ok) {
        return None;
    }
    let suffix = if crate::text_util::text_eq(os, "windows") {
        ".exe"
    } else {
        ""
    };
    let head = crate::flows::concat3("quads-tui-", os, "-");
    let name = crate::flows::concat3(head.as_str(), arch, suffix);
    Some(name)
}

/// Where a release's asset is downloaded from.
pub open spec fn download_url_for(tag: Seq<char>, asset: Seq<char>) -> Seq<char> {
    "https://github.com/NewtonChutney/quads-tui/releases/download/"@ + tag + "/"@ + asset
}

/// The update offer, given whether the release tagged `tag` is newer than
/// the running version, the release's version as written, and the asset
/// for this machine (an empty name where none fits).
pub fn offer(newer: bool, tag: &str, version: String, asset: Option<String>) -> (r: Option<
    UpdateInfo,
>)
    ensures
        newer ==> (r matches Some(info) && info.latest_version == version
            && info.download_url@ == download_url_for(
            tag@,
            match asset {
                Some(a) => a@,
                None => Seq::empty(),
            },
        )),
        !newer ==> r is None,
{
    if !newer {
        return None;
    }
    let a = match asset {
        Some(a) => a,
        None => String::new(),
    };
    let head = crate::flows::concat3(
        "https://github.com/NewtonChutney/quads-tui/releases/download/",
        tag,
        "/",
    );
    let url = crate::flows::concat3(head.as_str(), a.as_str(), "");
    proof {
        reveal_strlit("");
        assert(head@ + a@ + ""@ =~= head@ + a@);
    }
    Some(UpdateInfo { latest_version: version, download_url: url })
}

/// Whether the release tagged `tag` is newer than the running version
/// `current`: both must parse, and the release's version must be greater.
pub open spec fn release_newer(tag: Seq<char>, current: Seq<char>) -> bool {
    &&& semver_valid(tag_version(tag))
    &&& semver_valid(current)
    &&& semver_greater(tag_version(tag), current)
}

/// The update offer for the release tagged `tag`, running version
/// `current`, on the operating system `os` and processor `arch`: offered
/// exactly when the release is newer, with the release's version as
/// `semver` writes it and the download of this machine's asset.
pub fn update_for_release(tag: &str, current: &str, os: &str, arch: &str) -> (r: Option<
    UpdateInfo,
>)
    ensures
        r is Some <==> release_newer(tag@, current@),
        tag_version(tag@) == current@ ==> r is None,
        r matches Some(info) ==> {
            &&& info.latest_version@ == semver_text(tag_version(tag@))
            &&& info.download_url@ == download_url_for(
                tag@,
                match asset_for(os@, arch@) {
                    Some(a) => a,
                    None => Seq::empty(),
                },
            )
        },
{
    let remote_text = strip_tag(tag);
    let remote = match parse_version(remote_text.as_str()) {
        Some(v) => v,
        None => return None,
    };
    let local = match parse_version(current) {
        Some(v) => v,
        None => return None,
    };
    let newer = version_newer(&remote, &local);
    if !newer {
        return None;
    }
    let version = version_text(&remote);
    let asset = asset_name(os, arch);
    offer(newer, tag, version, asset)
}

/// The tag of the latest release as the release service describes it: the
/// `tag_name` member when it is a string, else empty.
pub open spec fn release_tag(body: Value) -> Seq<char> {
    match json_member(body, "tag_name"@) {
        Some(t) => match json_as_text(t) {
            Some(s) => s,
            None => Seq::empty(),
        },
        None => Seq::empty(),
    }
}

/// The tag of the latest release in the release service's reply.
pub fn tag_of_release(body: &Value) -> (r: String)
    ensures
        r@ == release_tag(*body),
{
    match json_get(body, "tag_name") {
        Some(t) => match json_text(&t) {
            Some(s) => s,
            None => String::new(),
        },
        None => String::new(),
    }
}

} // verus!
