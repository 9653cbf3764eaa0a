//! What the library has from proto's plugin kit and from serde_json.
//!
//! Everything in this file is trusted: the contracts below are believed, not
//! proved, and each states what the outside source shows.
use crate::platform::HostOs;
use crate::text::has_suffix;
use proto_pdk::HostOS as Os;
use proto_pdk::{LoadVersionsOutput, SpecError, UnresolvedVersionSpec, Version};
use serde_json::Value;
use vstd::prelude::*;

verus! {

// ---------------------------------------------------------------------------
// Outside types, carried through the library unopened
// ---------------------------------------------------------------------------

/// proto's unresolved version specification (a version, requirement, range,
/// alias or canary).
#[verifier::external_type_specification]
#[verifier::external_body]
pub struct ExUnresolvedVersionSpec(proto_pdk::UnresolvedVersionSpec);

/// The error of proto's version parsers.
#[verifier::external_type_specification]
#[verifier::external_body]
pub struct ExSpecError(proto_pdk::SpecError);

/// proto's version type (semantic or calendar).
#[verifier::external_type_specification]
#[verifier::external_body]
pub struct ExVersion(proto_pdk::Version);

/// The answer of a plugin's `load_versions` function.
#[verifier::external_type_specification]
#[verifier::external_body]
pub struct ExLoadVersionsOutput(proto_pdk::LoadVersionsOutput);

/// A JSON document as serde_json holds it.
#[verifier::external_type_specification]
#[verifier::external_body]
pub struct ExJsonValue(serde_json::Value);

// ---------------------------------------------------------------------------
// proto's version parsers
// ---------------------------------------------------------------------------

/// Whether `UnresolvedVersionSpec::parse` accepts `text`.
pub uninterp spec fn unresolved_spec_accepts(text: Seq<char>) -> bool;

/// Whether `VersionSpec::parse` accepts `text`.
pub uninterp spec fn resolved_spec_accepts(text: Seq<char>) -> bool;

/// Whether `Version::parse` accepts `text`.
pub uninterp spec fn version_accepts(text: Seq<char>) -> bool;

/// The specification that `UnresolvedVersionSpec::parse` gives for `text`,
/// when it accepts it.
pub uninterp spec fn unresolved_spec_of(text: Seq<char>) -> UnresolvedVersionSpec;

/// The answer that `LoadVersionsOutput::from` gives for `values`, when every
/// value parses.
pub uninterp spec fn versions_output_of(values: Seq<Seq<char>>) -> LoadVersionsOutput;

/// The version that `Version::parse` gives for `text`, when it accepts it.
pub uninterp spec fn version_of(text: Seq<char>) -> Version;

/// Calls `UnresolvedVersionSpec::parse`. The contract says, by name, on
/// which texts it succeeds and which specification it gives: a function of
/// the text alone.
#[verifier::external_body]
pub(crate) fn parse_unresolved_spec(text: &str) -> (r: Result<UnresolvedVersionSpec, SpecError>)
    ensures
        r is Ok <==> unresolved_spec_accepts(text@),
        r matches Ok(spec) ==> spec == unresolved_spec_of(text@),
{
    UnresolvedVersionSpec::parse(text)
}

/// Calls `LoadVersionsOutput::from`, which parses each value with
/// `VersionSpec::parse` and fails on the first value that does not parse.
/// The contract says that it succeeds exactly when every value parses, and
/// names the answer as a function of the values; what the answer holds (the
/// parsed versions, the latest one, the "latest" alias) stays unopened.
#[verifier::external_body]
pub(crate) fn versions_output_from(values: Vec<String>) -> (r: Result<LoadVersionsOutput, SpecError>)
    ensures
        r is Ok <==> forall|i: int|
            0 <= i < values@.len() ==> #[trigger] resolved_spec_accepts(values@[i]@),
        r matches Ok(output) ==> output == versions_output_of(values@.map_values(|v: String| v@)),
{
    LoadVersionsOutput::from(values)
}

/// Calls `Version::parse` and keeps the version when it succeeds. The
/// contract says, by name, when the result is present and which version it
/// is: a function of the text alone.
#[verifier::external_body]
pub(crate) fn parse_version(text: &str) -> (r: Option<Version>)
    ensures
        r is Some <==> version_accepts(text@),
        r matches Some(v) ==> v == version_of(text@),
{
    Version::parse(text).ok()
}

// ---------------------------------------------------------------------------
// proto's host operating system
// ---------------------------------------------------------------------------

/// Calls `HostOS::get_exe_name`: on Windows the name gets an ".exe"
/// extension unless it already ends with "exe"; elsewhere it is unchanged.
#[verifier::external_body]
pub(crate) fn exe_name(os: HostOs, name: &str) -> (r: String)
    ensures
        r@ == (if os == HostOs::Windows && !has_suffix(name@, "exe"@) {
            name@ + ".exe"@
        } else {
            name@
        }),
{
    let os = match os {
        HostOs::Android => Os::Android,
        HostOs::Dragonfly => Os::Dragonfly,
        HostOs::FreeBSD => Os::FreeBSD,
        HostOs::IOS => Os::IOS,
        HostOs::Linux => Os::Linux,
        HostOs::MacOS => Os::MacOS,
        HostOs::NetBSD => Os::NetBSD,
        HostOs::OpenBSD => Os::OpenBSD,
        HostOs::Solaris => Os::Solaris,
        HostOs::Windows => Os::Windows,
    };
    os.get_exe_name(name)
}

// ---------------------------------------------------------------------------
// serde_json
// ---------------------------------------------------------------------------

/// The strings that a JSON value holds, each under the path of object keys
/// that leads to it from the value: a string value holds itself under the
/// empty path; an object holds what each member holds, under the member's
/// key followed by the path within the member; other values hold no string
/// under a path of object keys.
pub uninterp spec fn json_strings(v: Value) -> Map<Seq<Seq<char>>, Seq<char>>;

/// The strings of the JSON document `text` (as `json_strings` gives them),
/// or `None` when serde_json does not accept `text` as JSON.
pub uninterp spec fn json_document_strings(text: Seq<char>) -> Option<Map<Seq<Seq<char>>, Seq<char>>>;

/// The strings held under `key`: the paths that start with `key`, with `key`
/// taken off.
pub open spec fn strings_under(m: Map<Seq<Seq<char>>, Seq<char>>, key: Seq<char>) -> Map<
    Seq<Seq<char>>,
    Seq<char>,
> {
    Map::new(|p: Seq<Seq<char>>| m.contains_key(seq![key] + p), |p: Seq<Seq<char>>| m[seq![key] + p])
}

/// Calls `serde_json::from_str::<Value>` and keeps the document when it
/// parses. The contract ties the document to the text through
/// `json_document_strings`.
#[verifier::external_body]
pub(crate) fn json_from_str(text: &str) -> (r: Option<Value>)
    ensures
        r is Some <==> json_document_strings(text@) is Some,
        r matches Some(v) ==> json_document_strings(text@) == Some(json_strings(v)),
{
    serde_json::from_str::<Value>(text).ok()
}

/// Calls `Value::get` with a string key: the member of an object under
/// `key`, or `None` when `v` is not an object or has no such member.
#[verifier::external_body]
pub(crate) fn json_get<'a>(v: &'a Value, key: &str) -> (r: Option<&'a Value>)
    ensures
        r matches Some(w) ==> json_strings(*w) == strings_under(json_strings(*v), key@),
        r is None ==> strings_under(json_strings(*v), key@).is_empty(),
{
    v.get(key)
}

/// Calls `Value::as_str`: the string when `v` is a JSON string.
#[verifier::external_body]
pub(crate) fn json_as_str(v: &Value) -> (r: Option<&str>)
    ensures
        r is Some <==> json_strings(*v).contains_key(Seq::empty()),
        r matches Some(s) ==> s@ == json_strings(*v)[Seq::empty()],
{
    v.as_str()
}

} // verus!
