//! The validator compiler: raw rule tokens (`required`, `min_length=3`)
//! become a structured rule set, and the rule set renders into validation
//! attribute lines in one fixed canonical order.
//!
//! Convention committed to here: the validator segment of a field fragment
//! is split on `|` into tokens, and each token is split on its first `=`
//! into a rule name and an optional value.  Rule names are matched exactly,
//! without trimming.  Unrecognized rule names are kept verbatim as opaque
//! custom rules and rendered last; they are never silently dropped.

use vstd::prelude::*;
use vstd::string::StrSliceExecFns;
use vstd::string::StringExecFns;

use crate::errors::NebulaError;
use crate::errors::ErrorSpec;
use crate::strutil;

verus! {

/// Model of [`FieldRules`].
#[verifier::ext_equal]
pub ghost struct RulesSpec {
    pub required: bool,
    pub unique: bool,
    pub email: bool,
    pub url: bool,
    pub min_length: Option<int>,
    pub max_length: Option<int>,
    pub min: Option<Seq<char>>,
    pub max: Option<Seq<char>>,
    pub pattern: Option<Seq<char>>,
}

/// Model of [`FieldValidator`].
#[verifier::ext_equal]
pub ghost struct ValidatorSpec {
    pub rules: RulesSpec,
    pub custom: Seq<Seq<char>>,
}

/// The structured set of recognized validation rules of one field.
#[derive(Debug, Clone)]
pub struct FieldRules {
    pub required: bool,
    pub unique: bool,
    pub email: bool,
    pub url: bool,
    pub min_length: Option<usize>,
    pub max_length: Option<usize>,
    pub min: Option<String>,
    pub max: Option<String>,
    pub pattern: Option<String>,
}

/// The full compiled validator set of one field: recognized rules plus
/// unrecognized tokens kept verbatim.
#[derive(Debug, Clone)]
pub struct FieldValidator {
    pub rules: FieldRules,
    pub custom_rules: Vec<String>,
}

impl View for FieldRules {
    type V = RulesSpec;

    open spec fn view(&self) -> RulesSpec {
        RulesSpec {
            required: self.required,
            unique: self.unique,
            email: self.email,
            url: self.url,
            min_length: match self.min_length {
                Some(v) => Some(v as int),
                None => None,
            },
            max_length: match self.max_length {
                Some(v) => Some(v as int),
                None => None,
            },
            min: match self.min {
                Some(ref s) => Some(s@),
                None => None,
            },
            max: match self.max {
                Some(ref s) => Some(s@),
                None => None,
            },
            pattern: match self.pattern {
                Some(ref s) => Some(s@),
                None => None,
            },
        }
    }
}

impl View for FieldValidator {
    type V = ValidatorSpec;

    open spec fn view(&self) -> ValidatorSpec {
        ValidatorSpec { rules: self.rules@, custom: self.custom_rules.deep_view() }
    }
}

impl DeepView for FieldValidator {
    type V = ValidatorSpec;

    open spec fn deep_view(&self) -> ValidatorSpec {
        self@
    }
}

/// The rule set with nothing required: every flag off, every bound absent.
pub open spec fn spec_rules_init() -> RulesSpec {
    RulesSpec {
        required: false,
        unique: false,
        email: false,
        url: false,
        min_length: None,
        max_length: None,
        min: None,
        max: None,
        pattern: None,
    }
}

/// The empty validator set.
pub open spec fn spec_validator_init() -> ValidatorSpec {
    ValidatorSpec { rules: spec_rules_init(), custom: Seq::empty() }
}

impl Default for FieldRules {
    fn default() -> (r: Self)
        ensures
            r@ == spec_rules_init(),
    {
        FieldRules {
            required: false,
            unique: false,
            email: false,
            url: false,
            min_length: None,
            max_length: None,
            min: None,
            max: None,
            pattern: None,
        }
    }
}

impl Default for FieldValidator {
    fn default() -> (r: Self)
        ensures
            r@ == spec_validator_init(),
    {
        let r = FieldValidator { rules: FieldRules::default(), custom_rules: Vec::new() };
        proof {
            assert(r@.custom =~= Seq::<Seq<char>>::empty());
        }
        r
    }
}

// ---------------------------------------------------------------------------
// Compiling rule tokens
// ---------------------------------------------------------------------------

/// A digit string whose value fits the machine's word size.
pub open spec fn spec_is_valid_count(val: Seq<char>) -> bool {
    val.len() > 0 && strutil::all_digits(val) && strutil::spec_digits_val(val) <= usize::MAX
}

/// One token applied to the rule set built so far.
pub open spec fn spec_apply_rule(v: ValidatorSpec, token: Seq<char>) -> Result<
    ValidatorSpec,
    ErrorSpec,
> {
    let eq = strutil::spec_find(token, '=');
    let name = token.subrange(0, eq);
    let has_val = eq < token.len();
    let val = token.subrange(eq + 1, token.len() as int);
    if name == "required"@ {
        Ok(ValidatorSpec { rules: RulesSpec { required: true, ..v.rules }, ..v })
    } else if name == "unique"@ {
        Ok(ValidatorSpec { rules: RulesSpec { unique: true, ..v.rules }, ..v })
    } else if name == "email"@ {
        Ok(ValidatorSpec { rules: RulesSpec { email: true, ..v.rules }, ..v })
    } else if name == "url"@ {
        Ok(ValidatorSpec { rules: RulesSpec { url: true, ..v.rules }, ..v })
    } else if name == "minLength"@ || name == "min_length"@ {
        if !has_val {
            Err(ErrorSpec::MissingRuleValue(name))
        } else if !spec_is_valid_count(val) {
            Err(ErrorSpec::InvalidNumericValue(val))
        } else {
            Ok(
                ValidatorSpec {
                    rules: RulesSpec { min_length: Some(strutil::spec_digits_val(val)), ..v.rules },
                    ..v
                },
            )
        }
    } else if name == "maxLength"@ || name == "max_length"@ {
        if !has_val {
            Err(ErrorSpec::MissingRuleValue(name))
        } else if !spec_is_valid_count(val) {
            Err(ErrorSpec::InvalidNumericValue(val))
        } else {
            Ok(
                ValidatorSpec {
                    rules: RulesSpec { max_length: Some(strutil::spec_digits_val(val)), ..v.rules },
                    ..v
                },
            )
        }
    } else if name == "min"@ {
        if !has_val {
            Err(ErrorSpec::MissingRuleValue(name))
        } else {
            Ok(ValidatorSpec { rules: RulesSpec { min: Some(val), ..v.rules }, ..v })
        }
    } else if name == "max"@ {
        if !has_val {
            Err(ErrorSpec::MissingRuleValue(name))
        } else {
            Ok(ValidatorSpec { rules: RulesSpec { max: Some(val), ..v.rules }, ..v })
        }
    } else if name == "pattern"@ {
        if !has_val {
            Err(ErrorSpec::MissingRuleValue(name))
        } else {
            Ok(ValidatorSpec { rules: RulesSpec { pattern: Some(val), ..v.rules }, ..v })
        }
    } else {
        Ok(ValidatorSpec { custom: v.custom.push(token), ..v })
    }
}

/// The tokens folded in order onto the empty set; the first failing token
/// decides the error.
pub open spec fn spec_compile_rules(tokens: Seq<Seq<char>>) -> Result<ValidatorSpec, ErrorSpec>
    decreases tokens.len(),
{
    if tokens.len() == 0 {
        Ok(spec_validator_init())
    } else {
        match spec_compile_rules(tokens.drop_last()) {
            Ok(v) => spec_apply_rule(v, tokens.last()),
            Err(e) => Err(e),
        }
    }
}

pub proof fn lemma_compile_rules_step(tokens: Seq<Seq<char>>, i: int)
    requires
        0 <= i < tokens.len(),
    ensures
        spec_compile_rules(tokens.take(i + 1)) == (match spec_compile_rules(tokens.take(i)) {
            Ok(v) => spec_apply_rule(v, tokens[i]),
            Err(e) => Err(e),
        }),
{
    let t = tokens.take(i + 1);
    assert(t.drop_last() =~= tokens.take(i));
    assert(t.last() == tokens[i]);
}

pub proof fn lemma_compile_rules_err_stable(tokens: Seq<Seq<char>>, i: int)
    requires
        0 <= i <= tokens.len(),
        spec_compile_rules(tokens.take(i)) is Err,
    ensures
        spec_compile_rules(tokens) == spec_compile_rules(tokens.take(i)),
    decreases tokens.len() - i,
{
    if i == tokens.len() {
        assert(tokens.take(i) =~= tokens);
    } else {
        lemma_compile_rules_step(tokens, i);
        lemma_compile_rules_err_stable(tokens, i + 1);
    }
}

/// One raw token applied to the set built so far.
fn apply_rule(v: FieldValidator, token: &str) -> (r: Result<FieldValidator, NebulaError>)
    ensures
        match r {
            Ok(v2) => spec_apply_rule(v@, token@) == Ok::<ValidatorSpec, ErrorSpec>(v2@),
            Err(e) => spec_apply_rule(v@, token@) == Err::<ValidatorSpec, ErrorSpec>(e@),
        },
{
    let n = token.unicode_len();
    let eq = strutil::find_char(token, '=');
    let name = token.substring_char(0, eq);
    let has_val = eq < n;
    let val = if has_val {
        token.substring_char(eq + 1, n)
    } else {
        token.substring_char(n, n)
    };
    let mut v = v;
    if strutil::str_eq(name, "required") {
        v.rules.required = true;
        Ok(v)
    } else if strutil::str_eq(name, "unique") {
        v.rules.unique = true;
        Ok(v)
    } else if strutil::str_eq(name, "email") {
        v.rules.email = true;
        Ok(v)
    } else if strutil::str_eq(name, "url") {
        v.rules.url = true;
        Ok(v)
    } else if strutil::str_eq(name, "minLength") || strutil::str_eq(name, "min_length") {
        if !has_val {
            return Err(NebulaError::MissingRuleValue(name.to_owned()));
        }
        match strutil::parse_usize(val) {
            Some(count) => {
                v.rules.min_length = Some(count);
                Ok(v)
            },
            None => Err(NebulaError::InvalidNumericValue(val.to_owned())),
        }
    } else if strutil::str_eq(name, "maxLength") || strutil::str_eq(name, "max_length") {
        if !has_val {
            return Err(NebulaError::MissingRuleValue(name.to_owned()));
        }
        match strutil::parse_usize(val) {
            Some(count) => {
                v.rules.max_length = Some(count);
                Ok(v)
            },
            None => Err(NebulaError::InvalidNumericValue(val.to_owned())),
        }
    } else if strutil::str_eq(name, "min") {
        if !has_val {
            return Err(NebulaError::MissingRuleValue(name.to_owned()));
        }
        v.rules.min = Some(val.to_owned());
        Ok(v)
    } else if strutil::str_eq(name, "max") {
        if !has_val {
            return Err(NebulaError::MissingRuleValue(name.to_owned()));
        }
        v.rules.max = Some(val.to_owned());
        Ok(v)
    } else if strutil::str_eq(name, "pattern") {
        if !has_val {
            return Err(NebulaError::MissingRuleValue(name.to_owned()));
        }
        v.rules.pattern = Some(val.to_owned());
        Ok(v)
    } else {
        let ghost prev = v@.custom;
        v.custom_rules.push(token.to_owned());
        proof {
            assert(v@.custom =~= prev.push(token@));
        }
        Ok(v)
    }
}

impl FieldValidator {
    /// Compile raw rule tokens, in order, into a validator set.
    pub fn compile(tokens: &Vec<String>) -> (r: Result<FieldValidator, NebulaError>)
        ensures
            match r {
                Ok(v) => spec_compile_rules(tokens.deep_view()) == Ok::<ValidatorSpec, ErrorSpec>(
                    v@,
                ),
                Err(e) => spec_compile_rules(tokens.deep_view()) == Err::<
                    ValidatorSpec,
                    ErrorSpec,
                >(e@),
            },
    {
        let ghost dv = tokens.deep_view();
        let mut v = FieldValidator::default();
        let n = tokens.len();
        let mut i: usize = 0;
        proof {
            assert(dv.take(0) =~= Seq::<Seq<char>>::empty());
        }
        while i < n
            invariant
                n == tokens.len(),
                0 <= i <= n,
                spec_compile_rules(dv.take(i as int)) == Ok::<ValidatorSpec, ErrorSpec>(v@),
            decreases n - i,
        {
            proof {
                lemma_compile_rules_step(dv, i as int);
            }
            match apply_rule(v, tokens[i].as_str()) {
                Ok(v2) => {
                    v = v2;
                },
                Err(e) => {
                    proof {
                        lemma_compile_rules_err_stable(dv, i + 1);
                    }
                    return Err(e);
                },
            }
            i = i + 1;
        }
        proof {
            assert(dv.take(n as int) =~= dv);
        }
        Ok(v)
    }
}

// ---------------------------------------------------------------------------
// Rendering attributes in canonical order
// ---------------------------------------------------------------------------

/// Attribute lines of the boolean rules, in canonical order.
pub open spec fn spec_bool_attrs(r: RulesSpec) -> Seq<Seq<char>> {
    (if r.required {
        seq!["#[validate(required)]"@]
    } else {
        Seq::empty()
    }) + (if r.unique {
        seq!["#[validate(custom = \"validate_unique\")]"@]
    } else {
        Seq::empty()
    }) + (if r.email {
        seq!["#[validate(email)]"@]
    } else {
        Seq::empty()
    }) + (if r.url {
        seq!["#[validate(url)]"@]
    } else {
        Seq::empty()
    })
}

/// Attribute lines of the `min`/`max` range bounds.
pub open spec fn spec_range_attrs(r: RulesSpec) -> Seq<Seq<char>> {
    (match r.min {
        Some(m) => seq!["#[validate(range(min = \""@ + m + "\"))]"@],
        None => Seq::empty(),
    }) + (match r.max {
        Some(m) => seq!["#[validate(range(max = \""@ + m + "\"))]"@],
        None => Seq::empty(),
    })
}

/// Attribute lines of the `min_length`/`max_length` bounds.
pub open spec fn spec_length_attrs(r: RulesSpec) -> Seq<Seq<char>> {
    (match r.min_length {
        Some(n) => seq!["#[validate(length(min = "@ + strutil::spec_dec(n) + "))]"@],
        None => Seq::empty(),
    }) + (match r.max_length {
        Some(n) => seq!["#[validate(length(max = "@ + strutil::spec_dec(n) + "))]"@],
        None => Seq::empty(),
    })
}

/// Attribute line of the regex pattern, if any.
pub open spec fn spec_pattern_attrs(r: RulesSpec) -> Seq<Seq<char>> {
    match r.pattern {
        Some(p) => seq!["#[validate(regex(path = \""@ + p + "\"))]"@],
        None => Seq::empty(),
    }
}

/// All attribute lines of the recognized rules, in the canonical order:
/// required, unique, email, url, range min, range max, length min,
/// length max, pattern.
pub open spec fn spec_rule_attrs(r: RulesSpec) -> Seq<Seq<char>> {
    spec_bool_attrs(r) + spec_range_attrs(r) + spec_length_attrs(r) + spec_pattern_attrs(r)
}

/// Attribute lines of the custom rules, kept verbatim, in input order.
pub open spec fn spec_custom_attrs(custom: Seq<Seq<char>>) -> Seq<Seq<char>> {
    Seq::new(custom.len(), |i: int| "#[validate("@ + custom[i] + ")]"@)
}

/// All attribute lines of a compiled validator set: the recognized rules in
/// canonical order, then the custom rules in input order.
pub open spec fn spec_attrs(v: ValidatorSpec) -> Seq<Seq<char>> {
    spec_rule_attrs(v.rules) + spec_custom_attrs(v.custom)
}

impl FieldRules {
    /// Append the range attribute lines to `attrs`.
    pub fn add_range_validations(&self, attrs: &mut Vec<String>)
        ensures
            final(attrs).deep_view() == old(attrs).deep_view() + spec_range_attrs(self@),
    {
        let ghost prev = attrs.deep_view();
        if let Some(m) = &self.min {
            let mut a = String::new();
            a.append("#[validate(range(min = \"");
            a.append(m.as_str());
            a.append("\"))]");
            attrs.push(a);
        }
        if let Some(m) = &self.max {
            let mut a = String::new();
            a.append("#[validate(range(max = \"");
            a.append(m.as_str());
            a.append("\"))]");
            attrs.push(a);
        }
        proof {
            assert(attrs.deep_view() =~~= prev + spec_range_attrs(self@));
        }
    }

    /// Append the length attribute lines to `attrs`.
    pub fn add_length_validations(&self, attrs: &mut Vec<String>)
        ensures
            final(attrs).deep_view() == old(attrs).deep_view() + spec_length_attrs(self@),
    {
        let ghost prev = attrs.deep_view();
        if let Some(n) = self.min_length {
            let mut a = String::new();
            a.append("#[validate(length(min = ");
            let num = strutil::usize_to_string(n);
            a.append(num.as_str());
            a.append("))]");
            attrs.push(a);
        }
        if let Some(n) = self.max_length {
            let mut a = String::new();
            a.append("#[validate(length(max = ");
            let num = strutil::usize_to_string(n);
            a.append(num.as_str());
            a.append("))]");
            attrs.push(a);
        }
        proof {
            assert(attrs.deep_view() =~~= prev + spec_length_attrs(self@));
        }
    }

    /// Render the recognized rules as attribute lines in canonical order.
    pub fn to_validation_attributes(&self) -> (r: Vec<String>)
        ensures
            r.deep_view() == spec_rule_attrs(self@),
    {
        let mut attrs: Vec<String> = Vec::new();
        if self.required {
            attrs.push(String::from_str("#[validate(required)]"));
        }
        if self.unique {
            attrs.push(String::from_str("#[validate(custom = \"validate_unique\")]"));
        }
        if self.email {
            attrs.push(String::from_str("#[validate(email)]"));
        }
        if self.url {
            attrs.push(String::from_str("#[validate(url)]"));
        }
        proof {
            assert(attrs.deep_view() =~~= spec_bool_attrs(self@));
        }
        self.add_range_validations(&mut attrs);
        self.add_length_validations(&mut attrs);
        if let Some(p) = &self.pattern {
            let mut a = String::new();
            a.append("#[validate(regex(path = \"");
            a.append(p.as_str());
            a.append("\"))]");
            attrs.push(a);
        }
        proof {
            assert(attrs.deep_view() =~~= spec_rule_attrs(self@));
        }
        attrs
    }
}

impl FieldValidator {
    /// Render all attribute lines: recognized rules first, in canonical
    /// order, then the custom rules verbatim.
    pub fn to_validation_attributes(&self) -> (r: Vec<String>)
        ensures
            r.deep_view() == spec_attrs(self@),
    {
        let mut attrs = self.rules.to_validation_attributes();
        let ghost base = attrs.deep_view();
        let n = self.custom_rules.len();
        let mut i: usize = 0;
        proof {
            assert(attrs.deep_view() =~~= base + spec_custom_attrs(
                self.custom_rules.deep_view().take(0),
            ));
        }
        while i < n
            invariant
                n == self.custom_rules.len(),
                0 <= i <= n,
                attrs.deep_view() == base + spec_custom_attrs(
                    self.custom_rules.deep_view().take(i as int),
                ),
            decreases n - i,
        {
            let mut a = String::new();
            a.append("#[validate(");
            a.append(self.custom_rules[i].as_str());
            a.append(")]");
            let ghost prev = attrs.deep_view();
            let ghost av = a@;
            attrs.push(a);
            proof {
                let cdv = self.custom_rules.deep_view();
                assert(av =~= "#[validate("@ + cdv[i as int] + ")]"@);
                assert(attrs.deep_view() =~= prev.push(av));
                assert(spec_custom_attrs(cdv.take(i + 1)) =~= spec_custom_attrs(
                    cdv.take(i as int),
                ).push("#[validate("@ + cdv[i as int] + ")]"@));
                assert(attrs.deep_view() =~= base + spec_custom_attrs(cdv.take(i + 1)));
            }
            i = i + 1;
        }
        proof {
            assert(self.custom_rules.deep_view().take(n as int) =~~= self@.custom);
            assert(attrs.deep_view() =~~= spec_attrs(self@));
        }
        attrs
    }
}

} // verus!
