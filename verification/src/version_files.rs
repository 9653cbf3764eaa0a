//! Which files pin a PHP version, and how the version is read from them.
use crate::outside::{
    json_as_str, json_document_strings, json_from_str, json_get, json_strings, parse_unresolved_spec,
    strings_under, unresolved_spec_accepts, unresolved_spec_of,
};
use crate::text::{
    all_white_space, lemma_trim_idempotent, lemma_trim_ignores_surrounding_white_space, same_text,
    trim, trim_text, views,
};
use proto_pdk::{SpecError, UnresolvedVersionSpec};
use vstd::prelude::*;

verus! {

/// The files that proto looks for, and the directories it skips.
pub struct VersionFiles {
    pub files: Vec<String>,
    pub ignore: Vec<String>,
}

/// The path of keys under which composer.json states the PHP requirement.
pub open spec fn require_php_path() -> Seq<Seq<char>> {
    seq!["require"@, "php"@]
}

/// The string at `require.php` of a composer.json document, or `None` when
/// the document is not JSON or holds no string there.
pub open spec fn composer_php_requirement(content: Seq<char>) -> Option<Seq<char>> {
    match json_document_strings(content) {
        Some(m) => if m.contains_key(require_php_path()) {
            Some(m[require_php_path()])
        } else {
            None
        },
        None => None,
    }
}

/// composer.json pins a version: its `require.php` string is a version
/// specification.
pub open spec fn composer_pins(content: Seq<char>) -> bool {
    match composer_php_requirement(content) {
        Some(c) => unresolved_spec_accepts(c),
        None => false,
    }
}

/// The version files: `.php-version` and `composer.json`; `vendor` is
/// ignored.
pub fn detect_version_files() -> (r: VersionFiles)
    ensures
        views(r.files@) == seq![".php-version"@, "composer.json"@],
        views(r.ignore@) == seq!["vendor"@],
{
    let files = vec![String::from_str(".php-version"), String::from_str("composer.json")];
    let ignore = vec![String::from_str("vendor")];
    let r = VersionFiles { files, ignore };
    assert(views(r.files@) =~= seq![".php-version"@, "composer.json"@]);
    assert(views(r.ignore@) =~= seq!["vendor"@]);
    r
}

/// The `require.php` string of a composer.json document.
pub fn composer_php_constraint(content: &str) -> (r: Option<String>)
    ensures
        r is Some <==> composer_php_requirement(content@) is Some,
        r matches Some(c) ==> composer_php_requirement(content@) == Some(c@),
{
    let ghost path = require_php_path();
    let doc = match json_from_str(content) {
        Some(doc) => doc,
        None => return None,
    };
    let ghost m = json_strings(doc);
    assert(seq!["require"@] + seq!["php"@] =~= path);
    let require = match json_get(&doc, "require") {
        Some(w) => w,
        None => {
            assert(!m.contains_key(path)) by {
                if m.contains_key(path) {
                    assert(strings_under(m, "require"@).contains_key(seq!["php"@]));
                }
            }
            return None;
        },
    };
    let php = match json_get(require, "php") {
        Some(w) => w,
        None => {
            assert(!m.contains_key(path)) by {
                if m.contains_key(path) {
                    assert(strings_under(m, "require"@).contains_key(seq!["php"@]));
                    assert(seq!["php"@] + Seq::<Seq<char>>::empty() =~= seq!["php"@]);
                    assert(strings_under(strings_under(m, "require"@), "php"@).contains_key(
                        Seq::empty(),
                    ));
                }
            }
            return None;
        },
    };
    assert(seq!["php"@] + Seq::<Seq<char>>::empty() =~= seq!["php"@]);
    let text = match json_as_str(php) {
        Some(s) => s,
        None => {
            assert(!m.contains_key(path)) by {
                if m.contains_key(path) {
                    assert(strings_under(m, "require"@).contains_key(seq!["php"@]));
                    assert(strings_under(strings_under(m, "require"@), "php"@).contains_key(
                        Seq::empty(),
                    ));
                }
            }
            return None;
        },
    };
    Some(String::from_str(text))
}

/// Reads the PHP version that a version file pins.
///
/// `.php-version` holds a version string, read without surrounding white
/// space; an empty file pins nothing, and a string that is not a version
/// specification is an error. `composer.json` pins the requirement at
/// `require.php`, when it is a version specification; a document that is not
/// JSON, or has no such string, or one that is not a version specification,
/// pins nothing. Other files pin nothing.
pub fn parse_version_file(file: &str, content: &str) -> (r: Result<Option<UnresolvedVersionSpec>, SpecError>)
    ensures
        file@ == ".php-version"@ && trim(content@).len() == 0 ==> r matches Ok(None),
        file@ == ".php-version"@ && trim(content@).len() > 0 ==> (r is Ok <==> unresolved_spec_accepts(
            trim(content@),
        )) && (r matches Ok(v) ==> v is Some),
        file@ == ".php-version"@ ==> (r matches Ok(Some(v)) ==> v == unresolved_spec_of(
            trim(content@),
        )),
        file@ == "composer.json"@ ==> (r matches Ok(v) && (v is Some <==> composer_pins(content@))),
        file@ == "composer.json"@ ==> (r matches Ok(Some(v)) ==> composer_php_requirement(
            content@,
        ) matches Some(c) && v == unresolved_spec_of(c)),
        file@ != ".php-version"@ && file@ != "composer.json"@ ==> r matches Ok(None),
{
    proof {
        reveal_strlit(".php-version");
        reveal_strlit("composer.json");
        assert(".php-version"@ != "composer.json"@) by {
            assert(".php-version"@[0] != "composer.json"@[0]);
        }
    }
    if same_text(file, ".php-version") {
        let trimmed = trim_text(content);
        if trimmed.unicode_len() == 0 {
            Ok(None)
        } else {
            match parse_unresolved_spec(trimmed) {
                Ok(spec) => Ok(Some(spec)),
                Err(e) => Err(e),
            }
        }
    } else if same_text(file, "composer.json") {
        match composer_php_constraint(content) {
            Some(constraint) => match parse_unresolved_spec(constraint.as_str()) {
                Ok(spec) => Ok(Some(spec)),
                Err(_) => Ok(None),
            },
            None => Ok(None),
        }
    } else {
        Ok(None)
    }
}

/// A `.php-version` file is read without the white space around its
/// version: white space added around the content changes nothing, and
/// reading what was read gives it back.
pub proof fn law_php_version_ignores_surrounding_white_space(
    before: Seq<char>,
    content: Seq<char>,
    after: Seq<char>,
)
    requires
        all_white_space(before),
        all_white_space(after),
    ensures
        trim(before + content + after) == trim(content),
        trim(trim(content)) == trim(content),
{
    lemma_trim_ignores_surrounding_white_space(before, content, after);
    lemma_trim_idempotent(content);
}

} // verus!
