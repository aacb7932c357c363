//! Update checks: comparing semantic versions (with the `semver` crate), reading the latest
//! release's description, and deciding what to download.
use vstd::prelude::*;
use crate::json::{Json, json_value, parse_json};
use crate::text::{chars_of, extend_chars, same_chars, string_of, trim, trim_exec};

verus! {

broadcast use vstd::string::group_string_axioms;

#[verifier::external_type_specification]
#[verifier::external_body]
pub struct ExVersion(semver::Version);

/// Whether `semver::Version::parse` accepts the text; the answer depends on the text alone.
pub uninterp spec fn semver_valid(text: Seq<char>) -> bool;

/// Whether the version parsed from `a` is greater than the one parsed from `b` in
/// `semver::Version`'s order; the answer depends on the two texts alone.
pub uninterp spec fn semver_newer(a: Seq<char>, b: Seq<char>) -> bool;

/// A parsed semantic version together with the text it was parsed from.
struct ParsedVersion {
    text: String,
    version: semver::Version,
}

impl ParsedVersion {
    /// The text the version was parsed from.
    spec fn text(&self) -> Seq<char> {
        self.text@
    }

    /// Parses a semantic version (`semver::Version::parse`), `None` when the text is not one.
    #[verifier::external_body]
    fn from_text(text: &str) -> (r: Option<ParsedVersion>)
        ensures
            r is Some <==> semver_valid(text@),
            r matches Some(v) ==> v.text() == text@,
    {
        semver::Version::parse(text).ok().map(|version| ParsedVersion { text: text.to_string(), version })
    }

    /// This version is greater than `other` (`>` on `semver::Version`, the order derived
    /// from major, minor, patch, pre-release and build). A version is never greater than
    /// one parsed from the same text.
    #[verifier::external_body]
    fn is_newer_than(&self, other: &ParsedVersion) -> (r: bool)
        ensures
            r == semver_newer(self.text(), other.text()),
            self.text() == other.text() ==> !r,
    {
        self.version > other.version
    }
}

/// What the check for a new script bundle decides.
#[derive(Clone, Copy, Debug, PartialEq, Eq, Structural)]
pub enum BundleUpdate {
    /// The installed bundle's version (trimmed) is not a semantic version: stop.
    CurrentUnreadable,
    /// The published version is not a semantic version (the check fails hard).
    PublishedUnreadable,
    /// The published bundle is newer: download and install it.
    Download,
    /// The installed bundle is current.
    Keep,
}

/// What the check for a new script bundle decides, from the published version and the
/// installed one.
pub open spec fn bundle_update(published: Seq<char>, installed: Seq<char>) -> BundleUpdate {
    if !semver_valid(trim(installed)) {
        BundleUpdate::CurrentUnreadable
    } else if !semver_valid(published) {
        BundleUpdate::PublishedUnreadable
    } else if semver_newer(published, trim(installed)) {
        BundleUpdate::Download
    } else {
        BundleUpdate::Keep
    }
}

/// What the check for a new script bundle decides.
pub fn check_bundle_update(published: &str, installed: &str) -> (r: BundleUpdate)
    ensures
        r == bundle_update(published@, installed@),
        published@ == trim(installed@) ==> r != BundleUpdate::Download,
{
    let t = trim_exec(chars_of(installed).as_slice());
    let t = string_of(t.as_slice());
    let current = match ParsedVersion::from_text(t.as_str()) {
        Some(v) => v,
        None => return BundleUpdate::CurrentUnreadable,
    };
    let newest = match ParsedVersion::from_text(published) {
        Some(v) => v,
        None => return BundleUpdate::PublishedUnreadable,
    };
    if newest.is_newer_than(&current) {
        BundleUpdate::Download
    } else {
        BundleUpdate::Keep
    }
}

/// A member of a JSON object, `Null` when the value is not an object or has no such member
/// (what indexing a `serde_json::Value` by a string gives).
pub open spec fn member(v: Json, key: Seq<char>) -> Json {
    match v {
        Json::Object(fields) => match crate::window::field(fields@, key) {
            Some(x) => x,
            None => Json::Null,
        },
        _ => Json::Null,
    }
}

/// The first element of a JSON array, `Null` when there is none.
pub open spec fn first_item(v: Json) -> Json {
    match v {
        Json::Array(items) => if items.len() > 0 {
            items@[0]
        } else {
            Json::Null
        },
        _ => Json::Null,
    }
}

/// The characters of a JSON string.
pub open spec fn str_of(v: Json) -> Option<Seq<char>> {
    match v {
        Json::Str(s) => Some(s@),
        _ => None,
    }
}

/// What the check for a new client release decides.
pub enum ReleaseUpdate {
    /// The release has no tag name.
    NoTag,
    /// The tag is not a semantic version (the check fails hard).
    TagUnreadable,
    /// The running version is not a semantic version (the check fails hard).
    CurrentUnreadable,
    /// The release is not newer than the running client.
    UpToDate,
    /// The release has no first asset with a download URL.
    NoAsset,
    /// Download `url` into `file_name` and offer to install version `version`.
    Download { version: String, url: String, file_name: String },
}

/// The tag name of a release description.
pub open spec fn release_tag(release: Json) -> Option<Seq<char>> {
    str_of(member(release, "tag_name"@))
}

/// The download URL of a release's first asset.
pub open spec fn release_asset_url(release: Json) -> Option<Seq<char>> {
    str_of(member(first_item(member(release, "assets"@)), "browser_download_url"@))
}

/// The value of the first member named `key`, by reference.
fn member_exec<'a>(v: &'a Json, key: &str) -> (r: Option<&'a Json>)
    ensures
        r matches Some(x) ==> member(*v, key@) == *x,
        r is None ==> member(*v, key@) == Json::Null,
{
    match v {
        Json::Object(fields) => {
            let k = chars_of(key);
            let mut i: usize = 0;
            assert(fields@.skip(0) =~= fields@);
            while i < fields.len()
                invariant
                    i <= fields.len(),
                    k@ == key@,
                    *v == Json::Object(*fields),
                    crate::window::field(fields@, key@) == crate::window::field(fields@.skip(i as int), key@),
                decreases fields.len() - i,
            {
                let name = chars_of(fields[i].0.as_str());
                if same_chars(name.as_slice(), k.as_slice()) {
                    assert(fields@.skip(i as int)[0] == fields@[i as int]);
                    assert(crate::window::field(fields@, key@) == Some(fields@[i as int].1));
                    return Some(&fields[i].1);
                }
                assert(fields@.skip(i as int).drop_first() =~= fields@.skip(i + 1));
                i = i + 1;
            }
            None
        },
        _ => None,
    }
}

/// The string of a JSON member chain, copied out.
fn string_at(v: Option<&Json>) -> (r: Option<String>)
    ensures
        r matches Some(s) ==> v matches Some(x) && str_of(*x) == Some(s@),
        r is None ==> v is None || str_of(*v.unwrap()) is None,
{
    match v {
        Some(Json::Str(s)) => Some(s.clone()),
        _ => None,
    }
}

/// `r` is what the check for a new client release decides from the release description,
/// the running version and the installer's file extension: no tag, an unreadable tag or
/// running version, up to date, no asset, or the download of the first asset's URL into
/// `version.<tag><extension>`.
pub open spec fn release_plan(release: Json, current: Seq<char>, extension: Seq<char>, r: ReleaseUpdate) -> bool {
    match release_tag(release) {
        None => r is NoTag,
        Some(tag) => if !semver_valid(tag) {
            r is TagUnreadable
        } else if !semver_valid(current) {
            r is CurrentUnreadable
        } else if !semver_newer(tag, current) {
            r is UpToDate
        } else if release_asset_url(release) is None {
            r is NoAsset
        } else {
            r matches ReleaseUpdate::Download { version, url, file_name } && version@ == tag && Some(url@)
                == release_asset_url(release) && file_name@ == "version."@ + tag + extension
        },
    }
}

/// What the check for a new client release decides, from the release description, the
/// running version and the installer's file extension (with its dot).
pub fn plan_release_update(release: &Json, current_version: &str, extension: &str) -> (r: ReleaseUpdate)
    ensures
        release_plan(*release, current_version@, extension@, r),
        release_tag(*release) == Some(current_version@) ==> !(r is Download),
{
    let tag = match string_at(member_exec(release, "tag_name")) {
        Some(t) => t,
        None => return ReleaseUpdate::NoTag,
    };
    let newest = match ParsedVersion::from_text(tag.as_str()) {
        Some(v) => v,
        None => return ReleaseUpdate::TagUnreadable,
    };
    let current = match ParsedVersion::from_text(current_version) {
        Some(v) => v,
        None => return ReleaseUpdate::CurrentUnreadable,
    };
    if !newest.is_newer_than(&current) {
        return ReleaseUpdate::UpToDate;
    }
    let assets = member_exec(release, "assets");
    let first: Option<&Json> = match assets {
        Some(Json::Array(items)) => if items.len() > 0 {
            Some(&items[0])
        } else {
            None
        },
        _ => None,
    };
    let url_json = match first {
        Some(f) => member_exec(f, "browser_download_url"),
        None => None,
    };
    let url = match string_at(url_json) {
        Some(u) => u,
        None => return ReleaseUpdate::NoAsset,
    };
    let mut name = chars_of("version.");
    let t = chars_of(tag.as_str());
    extend_chars(&mut name, t.as_slice());
    let e = chars_of(extension);
    extend_chars(&mut name, e.as_slice());
    ReleaseUpdate::Download { version: tag, url, file_name: string_of(name.as_slice()) }
}

/// What the check for a new client release decides from the text of the release
/// description; `None` when the text is not JSON.
pub fn plan_release_update_from_text(response: &str, current_version: &str, extension: &str) -> (r: Option<
    ReleaseUpdate,
>)
    ensures
        json_value(response@) is None ==> r is None,
        json_value(response@) matches Some(release) ==> (r matches Some(u) && release_plan(
            release,
            current_version@,
            extension@,
            u,
        )),
{
    match parse_json(response) {
        Some(release) => Some(plan_release_update(&release, current_version, extension)),
        None => None,
    }
}

} // verus!
