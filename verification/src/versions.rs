//! The PHP releases that can be installed, and the aliases that resolve to
//! the newest one.
use crate::outside::{
    parse_unresolved_spec, resolved_spec_accepts, unresolved_spec_accepts, unresolved_spec_of,
    versions_output_from, versions_output_of,
};
use crate::text::{
    chars_of, contains_ignoring_ascii_case, has_infix_ignoring_ascii_case, has_prefix, same_text,
    strip_prefix, views,
};
use proto_pdk::{LoadVersionsOutput, SpecError, UnresolvedVersionSpec};
use vstd::prelude::*;

verus! {

/// The prefix of PHP's release tags in the php-src repository.
pub open spec fn tag_prefix() -> Seq<char> {
    "php-"@
}

/// A pre-release version: it mentions "rc", "alpha" or "beta", in any case.
/// Matching ASCII letters without regard to case finds these words exactly
/// where the lower-cased version holds them: no other character lower-cases
/// to one of their letters.
pub open spec fn is_prerelease(v: Seq<char>) -> bool {
    ||| has_infix_ignoring_ascii_case(v, "rc"@)
    ||| has_infix_ignoring_ascii_case(v, "alpha"@)
    ||| has_infix_ignoring_ascii_case(v, "beta"@)
}

/// An ASCII decimal digit.
pub open spec fn is_ascii_digit(c: char) -> bool {
    '0' <= c && c <= '9'
}

/// The number of decimal digits that `s` starts with.
pub open spec fn leading_digit_count(s: Seq<char>) -> nat
    decreases s.len(),
{
    if s.len() > 0 && is_ascii_digit(s[0]) {
        1 + leading_digit_count(s.drop_first())
    } else {
        0
    }
}

/// The number that a sequence of decimal digits writes.
pub open spec fn decimal_value(d: Seq<char>) -> nat
    decreases d.len(),
{
    if d.len() == 0 {
        0
    } else {
        decimal_value(d.drop_last()) * 10 + ((d.last() as int) - ('0' as int)) as nat
    }
}

/// The major version: the number written by the digits that a version
/// starts with (those before its first '.').
pub open spec fn major_version(v: Seq<char>) -> nat {
    decimal_value(v.take(leading_digit_count(v) as int))
}

/// The version that a php-src tag names, when it is a release that the
/// plugin offers: the tag is "php-" followed by a version whose major
/// version is 7 or more (PHP 7.0 and later, PHP 10 and later included) and
/// that is not a pre-release.
pub open spec fn release_of_tag(tag: Seq<char>) -> Option<Seq<char>> {
    if has_prefix(tag, tag_prefix()) {
        let v = tag.skip(tag_prefix().len() as int);
        if leading_digit_count(v) > 0 && major_version(v) >= 7 && !is_prerelease(v) {
            Some(v)
        } else {
            None
        }
    } else {
        None
    }
}

/// The releases that a list of tags names, in the order of the tags.
pub open spec fn releases_of_tags(tags: Seq<Seq<char>>) -> Seq<Seq<char>>
    decreases tags.len(),
{
    if tags.len() == 0 {
        seq![]
    } else {
        let rest = releases_of_tags(tags.drop_last());
        match release_of_tag(tags.last()) {
            Some(v) => rest.push(v),
            None => rest,
        }
    }
}

/// An alias that the plugin resolves to the newest release.
pub open spec fn is_stable_alias(alias: Option<&str>) -> bool {
    match alias {
        Some(a) => a@ == "lts"@ || a@ == "stable"@,
        None => false,
    }
}

/// `s` starts with exactly `i` decimal digits when its first `i` characters
/// are digits and the next one, if any, is not.
pub proof fn lemma_leading_digit_count(s: Seq<char>, i: int)
    requires
        0 <= i <= s.len(),
        forall|k: int| 0 <= k < i ==> is_ascii_digit(#[trigger] s[k]),
        i == s.len() || !is_ascii_digit(s[i]),
    ensures
        leading_digit_count(s) == i,
    decreases i,
{
    if i > 0 {
        lemma_leading_digit_count(s.drop_first(), i - 1);
    }
}

/// Whether the major version of `v` is 7 or more (see `major_version`).
fn major_at_least_seven(v: &str) -> (r: bool)
    ensures
        r == (leading_digit_count(v@) > 0 && major_version(v@) >= 7),
{
    let x = chars_of(v);
    let mut i: usize = 0;
    let mut acc: u64 = 0;
    while i < x.len() && '0' <= x[i] && x[i] <= '9'
        invariant
            x@ == v@,
            i <= x.len(),
            forall|k: int| 0 <= k < i ==> is_ascii_digit(#[trigger] v@[k]),
            acc < 80,
            acc < 7 ==> acc == decimal_value(v@.take(i as int)),
            acc >= 7 <==> decimal_value(v@.take(i as int)) >= 7,
        decreases x.len() - i,
    {
        let d: u64 = ((x[i] as u32) - ('0' as u32)) as u64;
        assert(v@.take(i + 1).drop_last() =~= v@.take(i as int));
        assert(v@.take(i + 1).last() == v@[i as int]);
        if acc < 7 {
            acc = acc * 10 + d;
        }
        i = i + 1;
    }
    proof {
        lemma_leading_digit_count(v@, i as int);
    }
    i > 0 && acc >= 7
}

/// The version that a php-src tag names, when it is a release the plugin
/// offers (see `release_of_tag`).
pub fn release_from_tag(tag: &str) -> (r: Option<String>)
    ensures
        r is Some <==> release_of_tag(tag@) is Some,
        r matches Some(v) ==> release_of_tag(tag@) == Some(v@),
{
    let stripped = match strip_prefix(tag, "php-") {
        Some(s) => s,
        None => return None,
    };
    if !major_at_least_seven(stripped) {
        return None;
    }
    if contains_ignoring_ascii_case(stripped, "rc") || contains_ignoring_ascii_case(stripped, "alpha")
        || contains_ignoring_ascii_case(stripped, "beta") {
        return None;
    }
    Some(String::from_str(stripped))
}

/// The releases that a list of php-src tags names, in the order of the tags.
pub fn releases_from_tags(tags: &Vec<String>) -> (r: Vec<String>)
    ensures
        views(r@) == releases_of_tags(views(tags@)),
{
    let ghost all = views(tags@);
    let mut out: Vec<String> = Vec::new();
    let mut i: usize = 0;
    while i < tags.len()
        invariant
            all == views(tags@),
            i <= tags.len(),
            views(out@) == releases_of_tags(all.take(i as int)),
        decreases tags.len() - i,
    {
        assert(all.take(i + 1).drop_last() =~= all.take(i as int));
        assert(all.take(i + 1).last() == tags@[i as int]@);
        match release_from_tag(tags[i].as_str()) {
            Some(v) => {
                out.push(v);
                assert(views(out@) =~= releases_of_tags(all.take(i as int)).push(v@));
            },
            None => {},
        }
        i = i + 1;
    }
    assert(all.take(tags.len() as int) =~= all);
    out
}

/// The versions to offer, from the tags of the php-src repository: the
/// releases that the tags name (see `releases_of_tags`), handed to proto's
/// `LoadVersionsOutput::from`. It fails exactly when one of them is not a
/// version that proto parses.
pub fn load_versions(tags: Vec<String>) -> (r: Result<LoadVersionsOutput, SpecError>)
    ensures
        r is Ok <==> forall|i: int|
            0 <= i < releases_of_tags(views(tags@)).len() ==> #[trigger] resolved_spec_accepts(
                releases_of_tags(views(tags@))[i],
            ),
        r matches Ok(output) ==> output == versions_output_of(releases_of_tags(views(tags@))),
{
    let releases = releases_from_tags(&tags);
    let ghost rel = releases_of_tags(views(tags@));
    let ghost rv = releases@;
    proof {
        assert(views(rv).len() == rv.len());
        assert forall|i: int| 0 <= i < rel.len() implies rv[i]@ == rel[i] by {
            assert(views(rv)[i] == rv[i]@);
        }
    }
    let r = versions_output_from(releases);
    proof {
        assert(rv.map_values(|v: String| v@) =~= rel);
        if r is Ok {
            assert forall|i: int| 0 <= i < rel.len() implies #[trigger] resolved_spec_accepts(
                rel[i],
            ) by {
                assert(resolved_spec_accepts(rv[i]@));
            }
        } else {
            let i = choose|i: int| 0 <= i < rv.len() && !#[trigger] resolved_spec_accepts(rv[i]@);
            assert(!resolved_spec_accepts(rel[i]));
        }
    }
    r
}

/// Resolves the aliases "lts" and "stable" to the "latest" alias; other
/// requests get no candidate from the plugin.
pub fn resolve_version(alias: Option<&str>) -> (r: Result<Option<UnresolvedVersionSpec>, SpecError>)
    ensures
        !is_stable_alias(alias) ==> r matches Ok(None),
        is_stable_alias(alias) ==> (r is Ok <==> unresolved_spec_accepts("latest"@)),
        is_stable_alias(alias) ==> (r matches Ok(c) ==> c == Some(unresolved_spec_of("latest"@))),
{
    let stable = match alias {
        Some(a) => same_text(a, "lts") || same_text(a, "stable"),
        None => false,
    };
    if stable {
        match parse_unresolved_spec("latest") {
            Ok(spec) => Ok(Some(spec)),
            Err(e) => Err(e),
        }
    } else {
        Ok(None)
    }
}

/// The releases named by two lists of tags, one after the other, are those
/// named by each list, one after the other.
pub proof fn lemma_releases_of_concatenated_tags(a: Seq<Seq<char>>, b: Seq<Seq<char>>)
    ensures
        releases_of_tags(a + b) == releases_of_tags(a) + releases_of_tags(b),
    decreases b.len(),
{
    if b.len() == 0 {
        assert(a + b =~= a);
        assert(releases_of_tags(a) + releases_of_tags(b) =~= releases_of_tags(a));
    } else {
        assert((a + b).drop_last() =~= a + b.drop_last());
        assert((a + b).last() == b.last());
        lemma_releases_of_concatenated_tags(a, b.drop_last());
        match release_of_tag(b.last()) {
            Some(v) => {
                assert(releases_of_tags(a) + releases_of_tags(b.drop_last()).push(v) =~= (
                releases_of_tags(a) + releases_of_tags(b.drop_last())).push(v));
            },
            None => {},
        }
    }
}

/// Every release offered is named by one of the tags, and is not a
/// pre-release and not older than PHP 7.
pub proof fn lemma_releases_come_from_tags(tags: Seq<Seq<char>>)
    ensures
        forall|k: int|
            0 <= k < releases_of_tags(tags).len() ==> exists|j: int|
                0 <= j < tags.len() && release_of_tag(tags[j]) == Some(
                    #[trigger] releases_of_tags(tags)[k],
                ),
        forall|k: int|
            0 <= k < releases_of_tags(tags).len() ==> !is_prerelease(
                #[trigger] releases_of_tags(tags)[k],
            ) && major_version(releases_of_tags(tags)[k]) >= 7,
    decreases tags.len(),
{
    if tags.len() > 0 {
        let rest = tags.drop_last();
        lemma_releases_come_from_tags(rest);
        assert forall|k: int| 0 <= k < releases_of_tags(tags).len() implies exists|j: int|
            0 <= j < tags.len() && release_of_tag(tags[j]) == Some(
                #[trigger] releases_of_tags(tags)[k],
            ) by {
            if k < releases_of_tags(rest).len() {
                let j = choose|j: int|
                    0 <= j < rest.len() && release_of_tag(rest[j]) == Some(
                        #[trigger] releases_of_tags(rest)[k],
                    );
                assert(tags[j] == rest[j]);
            } else {
                assert(release_of_tag(tags[tags.len() - 1]) == Some(releases_of_tags(tags)[k]));
            }
        }
    }
}

} // verus!
