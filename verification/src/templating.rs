//! Template-file handling: `{{key}}` placeholder substitution, verified
//! end to end, and extraction of the `content` entry from a TOML template
//! file through the `toml` crate.

use vstd::prelude::*;
use vstd::string::StrSliceExecFns;
use vstd::string::StringExecFns;

use crate::strutil;

verus! {

// ---------------------------------------------------------------------------
// Placeholder substitution
// ---------------------------------------------------------------------------

/// `s` with every occurrence of `pat` replaced by `val`, scanning left to
/// right without rescanning replaced text.
pub open spec fn spec_replace(s: Seq<char>, pat: Seq<char>, val: Seq<char>) -> Seq<char>
    decreases s.len(),
    when pat.len() >= 1
{
    if s.len() < pat.len() {
        s
    } else if strutil::spec_starts_with(s, pat) {
        val + spec_replace(s.skip(pat.len() as int), pat, val)
    } else {
        seq![s[0]] + spec_replace(s.skip(1), pat, val)
    }
}

proof fn lemma_replace_no_occurrence(s: Seq<char>, pat: Seq<char>, val: Seq<char>)
    requires
        pat.len() >= 1,
        !strutil::spec_contains(s, pat),
    ensures
        spec_replace(s, pat, val) == s,
    decreases s.len(),
{
    strutil::lemma_find_sub_props(s, pat);
    if s.len() < pat.len() {
    } else if strutil::spec_starts_with(s, pat) {
        assert(strutil::occurs_at(s, pat, 0));
    } else {
        let t = s.skip(1);
        assert(t =~= s.subrange(1, s.len() as int));
        assert(!strutil::spec_contains(t, pat)) by {
            strutil::lemma_find_sub_props(t, pat);
            if strutil::spec_contains(t, pat) {
                let j = strutil::spec_find_sub(t, pat);
                strutil::lemma_occurs_shift(s, pat, j + 1);
            }
        }
        lemma_replace_no_occurrence(t, pat, val);
        assert(seq![s[0]] + t =~= s);
    }
}

proof fn lemma_replace_first(s: Seq<char>, pat: Seq<char>, val: Seq<char>, i: int)
    requires
        pat.len() >= 1,
        strutil::occurs_at(s, pat, i),
        forall|j: int| 0 <= j < i ==> !strutil::occurs_at(s, pat, j),
    ensures
        spec_replace(s, pat, val) == s.take(i) + val + spec_replace(
            s.skip(i + pat.len()),
            pat,
            val,
        ),
    decreases s.len(),
{
    if i == 0 {
        assert(strutil::spec_starts_with(s, pat));
        assert(s.take(0) + val + spec_replace(s.skip(pat.len() as int), pat, val) =~= val
            + spec_replace(s.skip(pat.len() as int), pat, val));
    } else {
        assert(!strutil::spec_starts_with(s, pat)) by {
            if strutil::spec_starts_with(s, pat) {
                assert(strutil::occurs_at(s, pat, 0));
            }
        }
        assert(s.len() >= pat.len());
        let t = s.skip(1);
        assert(t =~= s.subrange(1, s.len() as int));
        assert(strutil::occurs_at(t, pat, i - 1)) by {
            strutil::lemma_occurs_shift(s, pat, i);
        }
        assert forall|j: int| 0 <= j < i - 1 implies !strutil::occurs_at(t, pat, j) by {
            strutil::lemma_occurs_shift(s, pat, j + 1);
        }
        lemma_replace_first(t, pat, val, i - 1);
        assert(t.skip(i - 1 + pat.len()) =~= s.skip(i + pat.len()));
        assert(seq![s[0]] + (t.take(i - 1) + val + spec_replace(s.skip(i + pat.len()), pat, val))
            =~= s.take(i) + val + spec_replace(s.skip(i + pat.len()), pat, val));
    }
}

/// Replace every occurrence of `pat` in `text` by `val`.
fn replace_all(text: &str, pat: &str, val: &str) -> (r: String)
    requires
        pat@.len() >= 1,
    ensures
        r@ == spec_replace(text@, pat@, val@),
{
    let mut out = String::new();
    let mut rest: &str = text;
    loop
        invariant
            pat@.len() >= 1,
            spec_replace(text@, pat@, val@) == out@ + spec_replace(rest@, pat@, val@),
        decreases rest@.len(),
    {
        let n = rest.unicode_len();
        let pl = pat.unicode_len();
        let i = strutil::find_sub(rest, pat);
        proof {
            strutil::lemma_find_sub_props(rest@, pat@);
        }
        if n - i < pl {
            out.append(rest);
            proof {
                lemma_replace_no_occurrence(rest@, pat@, val@);
            }
            return out;
        }
        out.append(rest.substring_char(0, i));
        out.append(val);
        let next = rest.substring_char(i + pl, n);
        proof {
            lemma_replace_first(rest@, pat@, val@, i as int);
        }
        rest = next;
    }
}

/// A key wrapped in its placeholder braces.
pub open spec fn spec_wrap_key(key: Seq<char>) -> Seq<char> {
    "{{"@ + key + "}}"@
}

/// `template` with each `(key, value)` pair applied in order: every
/// occurrence of `{{key}}` becomes `value`.
pub open spec fn spec_apply_replacements(
    template: Seq<char>,
    pairs: Seq<(Seq<char>, Seq<char>)>,
) -> Seq<char>
    decreases pairs.len(),
{
    if pairs.len() == 0 {
        template
    } else {
        spec_replace(
            spec_apply_replacements(template, pairs.drop_last()),
            spec_wrap_key(pairs.last().0),
            pairs.last().1,
        )
    }
}

/// Substitute every `{{key}}` placeholder of the template, pair by pair.
pub fn replace_placeholders(template: &str, replacements: &Vec<(String, String)>) -> (r: String)
    ensures
        r@ == spec_apply_replacements(template@, replacements.deep_view()),
{
    let ghost dv = replacements.deep_view();
    let mut content = template.to_owned();
    let n = replacements.len();
    let mut i: usize = 0;
    proof {
        assert(content@ == spec_apply_replacements(template@, dv.take(0)));
    }
    while i < n
        invariant
            n == replacements.len(),
            replacements.deep_view() == dv,
            0 <= i <= n,
            content@ == spec_apply_replacements(template@, dv.take(i as int)),
        decreases n - i,
    {
        let mut pat = String::from_str("{{");
        pat.append(replacements[i].0.as_str());
        pat.append("}}");
        proof {
            reveal_strlit("{{");
            assert(pat@ == spec_wrap_key(dv[i as int].0));
        }
        content = replace_all(content.as_str(), pat.as_str(), replacements[i].1.as_str());
        proof {
            assert(dv.take(i + 1).drop_last() =~= dv.take(i as int));
            assert(dv.take(i + 1).last() == dv[i as int]);
        }
        i = i + 1;
    }
    proof {
        assert(dv.take(n as int) =~= dv);
    }
    content
}

// ---------------------------------------------------------------------------
// Loading a TOML template file
// ---------------------------------------------------------------------------

#[verifier::external_type_specification]
#[verifier::external_body]
pub struct ExTomlValue(toml::Value);

#[verifier::external_type_specification]
#[verifier::external_body]
pub struct ExTomlError(toml::de::Error);

/// Whether a text is a well-formed TOML document, as `toml::from_str`
/// decides it.
pub uninterp spec fn toml_parses(s: Seq<char>) -> bool;

/// Relies on toml::from_str::<toml::Value>: parses a TOML document, and
/// succeeds exactly on well-formed input; that success predicate is named
/// `toml_parses` here.
#[verifier::external_body]
fn toml_parse(text: &str) -> (r: Result<toml::Value, toml::de::Error>)
    ensures
        r is Ok <==> toml_parses(text@),
{
    toml::from_str::<toml::Value>(text)
}

/// Relies on toml::Value::get: looks a key up in a TOML table, `None` when
/// the value is no table or the key is absent.
#[verifier::external_body]
fn toml_get<'a>(value: &'a toml::Value, key: &str) -> (r: Option<&'a toml::Value>) {
    value.get(key)
}

/// Relies on toml::Value::as_str: the borrowed string if the value is a
/// TOML string, else `None`.
#[verifier::external_body]
fn toml_as_str<'a>(value: &'a toml::Value) -> (r: Option<&'a str>) {
    value.as_str()
}

/// Relies on toml::de::Error::message: the human-readable parse error text.
#[verifier::external_body]
fn toml_error_message(e: &toml::de::Error) -> (r: String) {
    e.message().to_owned()
}

/// Extract the `content` entry of a TOML template file whose text is given.
/// `path` only labels error messages.
pub fn load_template(text: &str, path: &str) -> (r: Result<String, crate::errors::NebulaError>)
    ensures
        r is Ok ==> toml_parses(text@),
        !toml_parses(text@) ==> r is Err && (r->Err_0)@ is TomlParse,
{
    match toml_parse(text) {
        Err(e) => {
            let mut msg = String::from_str("Invalid TOML structure in '");
            msg.append(path);
            msg.append("': ");
            let detail = toml_error_message(&e);
            msg.append(detail.as_str());
            Err(crate::errors::NebulaError::TomlParse(msg))
        },
        Ok(value) => {
            let content = match toml_get(&value, "content") {
                Some(cv) => toml_as_str(cv),
                None => None,
            };
            match content {
                Some(s) => Ok(s.to_owned()),
                None => {
                    let mut msg = String::from_str("Missing 'content' key in '");
                    msg.append(path);
                    msg.append("'");
                    Err(crate::errors::NebulaError::InvalidOptions(msg))
                },
            }
        },
    }
}

} // verus!
