//! The field and relation grammar: one comma-delimited fragment becomes a
//! typed [`EntityField`], with its declared type checked against an
//! allow-list of supported scalar types, and either relation syntax
//! (`alias->belongsTo:Target` shorthand or a `belongs_to:Target` type slot)
//! normalized to the same internal [`Relation`].

use vstd::prelude::*;
use vstd::string::StrSliceExecFns;
use vstd::string::StringExecFns;

use crate::errors::NebulaError;
use crate::errors::ErrorSpec;
use crate::rules::FieldValidator;
use crate::rules::ValidatorSpec;
use crate::rules::spec_attrs;
use crate::rules::spec_compile_rules;
use crate::rules::spec_validator_init;
use crate::strutil;

verus! {

/// The supported scalar types, as shown to the user when a declared type is
/// rejected.
pub const ALLOWED_TYPES_TEXT: &'static str =
    "String, i32, i64, u32, u64, f32, f64, bool, DateTime<Utc>, Vec<String>, Option<String>";

/// Model of [`Relation`].
#[verifier::ext_equal]
pub ghost enum RelationSpec {
    HasOne(Seq<char>),
    HasMany(Seq<char>),
    BelongsTo(Seq<char>),
}

/// A structural link from a field to another entity.
#[derive(Debug, Clone)]
pub enum Relation {
    /// At most one target value; rendered as an optional reference.
    HasOne(String),
    /// Many target values; rendered as an ordered collection.
    HasMany(String),
    /// A reference to the owning target, with a companion foreign-key field.
    BelongsTo(String),
}

impl View for Relation {
    type V = RelationSpec;

    open spec fn view(&self) -> RelationSpec {
        match self {
            Relation::HasOne(t) => RelationSpec::HasOne(t@),
            Relation::HasMany(t) => RelationSpec::HasMany(t@),
            Relation::BelongsTo(t) => RelationSpec::BelongsTo(t@),
        }
    }
}

/// The target entity of a relation.
pub open spec fn spec_rel_target(r: RelationSpec) -> Seq<char> {
    match r {
        RelationSpec::HasOne(t) => t,
        RelationSpec::HasMany(t) => t,
        RelationSpec::BelongsTo(t) => t,
    }
}

/// Model of [`EntityField`].
#[verifier::ext_equal]
pub ghost struct FieldSpec {
    pub name: Seq<char>,
    pub field_type: Seq<char>,
    pub validators: ValidatorSpec,
    pub relation: Option<RelationSpec>,
}

/// One parsed field: its name, declared type, compiled validators, and the
/// relation it stands for if its type slot held relation syntax.
#[derive(Debug, Clone)]
pub struct EntityField {
    pub name: String,
    pub field_type: String,
    pub validators: FieldValidator,
    pub relation: Option<Relation>,
}

impl View for EntityField {
    type V = FieldSpec;

    open spec fn view(&self) -> FieldSpec {
        FieldSpec {
            name: self.name@,
            field_type: self.field_type@,
            validators: self.validators@,
            relation: match self.relation {
                Some(ref r) => Some(r@),
                None => None,
            },
        }
    }
}

impl DeepView for EntityField {
    type V = FieldSpec;

    open spec fn deep_view(&self) -> FieldSpec {
        self@
    }
}

// ---------------------------------------------------------------------------
// The type allow-list
// ---------------------------------------------------------------------------

/// Is `t` one of the supported scalar types?
pub open spec fn spec_is_allowed_type(t: Seq<char>) -> bool {
    ||| t == "String"@
    ||| t == "i32"@
    ||| t == "i64"@
    ||| t == "u32"@
    ||| t == "u64"@
    ||| t == "f32"@
    ||| t == "f64"@
    ||| t == "bool"@
    ||| t == "DateTime<Utc>"@
    ||| t == "Vec<String>"@
    ||| t == "Option<String>"@
}

/// Check a declared scalar type against the allow-list.
pub fn is_allowed_type(t: &str) -> (r: bool)
    ensures
        r == spec_is_allowed_type(t@),
{
    strutil::str_eq(t, "String") || strutil::str_eq(t, "i32") || strutil::str_eq(t, "i64")
        || strutil::str_eq(t, "u32") || strutil::str_eq(t, "u64") || strutil::str_eq(t, "f32")
        || strutil::str_eq(t, "f64") || strutil::str_eq(t, "bool") || strutil::str_eq(
        t,
        "DateTime<Utc>",
    ) || strutil::str_eq(t, "Vec<String>") || strutil::str_eq(t, "Option<String>")
}

// ---------------------------------------------------------------------------
// The field grammar
// ---------------------------------------------------------------------------

/// The relation named by a type slot beginning with a relation prefix.
pub open spec fn spec_relation_of_type(ty: Seq<char>) -> Option<RelationSpec> {
    if strutil::spec_starts_with(ty, "has_one:"@) {
        Some(RelationSpec::HasOne(ty.subrange("has_one:"@.len() as int, ty.len() as int)))
    } else if strutil::spec_starts_with(ty, "has_many:"@) {
        Some(RelationSpec::HasMany(ty.subrange("has_many:"@.len() as int, ty.len() as int)))
    } else if strutil::spec_starts_with(ty, "belongs_to:"@) {
        Some(RelationSpec::BelongsTo(ty.subrange("belongs_to:"@.len() as int, ty.len() as int)))
    } else {
        None
    }
}

/// One field fragment parsed: split on the first `|` into a `name:type` head
/// and rule tokens, the head split on the first `:`, the type slot checked
/// for relation prefixes and against the allow-list, the tokens compiled.
pub open spec fn spec_parse_field(s: Seq<char>) -> Result<FieldSpec, ErrorSpec> {
    let bar = strutil::spec_find(s, '|');
    let head = s.subrange(0, bar);
    let tokens = if bar == s.len() {
        Seq::<Seq<char>>::empty()
    } else {
        strutil::spec_split(s.subrange(bar + 1, s.len() as int), '|')
    };
    let colon = strutil::spec_find(head, ':');
    if colon == head.len() {
        Err(ErrorSpec::InvalidFieldFormat(head))
    } else {
        let name = strutil::spec_trim(head.subrange(0, colon));
        let ty = strutil::spec_trim(head.subrange(colon + 1, head.len() as int));
        let rel = spec_relation_of_type(ty);
        if rel is Some && spec_rel_target(rel->0).len() == 0 {
            Err(ErrorSpec::InvalidRelationFormat(s))
        } else if rel is None && !spec_is_allowed_type(ty) {
            Err(ErrorSpec::InvalidScalarType(ty))
        } else {
            match spec_compile_rules(tokens) {
                Ok(v) => Ok(
                    FieldSpec { name, field_type: ty, validators: v, relation: rel },
                ),
                Err(e) => Err(e),
            }
        }
    }
}

/// One relation fragment parsed: the `alias->keyword:Target` shorthand if the
/// fragment holds `->`, otherwise the field grammar with its embedded
/// relation prefixes.  Both forms normalize to the same [`RelationSpec`].
pub open spec fn spec_parse_relation(s: Seq<char>) -> Result<FieldSpec, ErrorSpec> {
    if strutil::spec_contains(s, "->"@) {
        let i = strutil::spec_find_sub(s, "->"@);
        let alias = strutil::spec_trim(s.subrange(0, i));
        let rest = s.subrange(i + "->"@.len(), s.len() as int);
        if strutil::spec_contains(rest, "->"@) {
            Err(ErrorSpec::InvalidRelationFormat(s))
        } else {
            let colon = strutil::spec_find(rest, ':');
            if colon == rest.len() {
                Err(ErrorSpec::InvalidRelationFormat(s))
            } else {
                let kw = strutil::spec_trim(rest.subrange(0, colon));
                let target = strutil::spec_trim(rest.subrange(colon + 1, rest.len() as int));
                if target.len() == 0 {
                    Err(ErrorSpec::InvalidRelationFormat(s))
                } else if kw == "hasOne"@ {
                    Ok(
                        FieldSpec {
                            name: alias,
                            field_type: rest,
                            validators: spec_validator_init(),
                            relation: Some(RelationSpec::HasOne(target)),
                        },
                    )
                } else if kw == "hasMany"@ {
                    Ok(
                        FieldSpec {
                            name: alias,
                            field_type: rest,
                            validators: spec_validator_init(),
                            relation: Some(RelationSpec::HasMany(target)),
                        },
                    )
                } else if kw == "belongsTo"@ {
                    Ok(
                        FieldSpec {
                            name: alias,
                            field_type: rest,
                            validators: spec_validator_init(),
                            relation: Some(RelationSpec::BelongsTo(target)),
                        },
                    )
                } else {
                    Err(ErrorSpec::InvalidRelationType(kw))
                }
            }
        }
    } else {
        spec_parse_field(s)
    }
}

impl EntityField {
    /// Compile the raw validator tokens of one field.
    pub fn parse_validators(tokens: &Vec<String>) -> (r: Result<FieldValidator, NebulaError>)
        ensures
            match r {
                Ok(v) => spec_compile_rules(tokens.deep_view()) == Ok::<ValidatorSpec, ErrorSpec>(
                    v@,
                ),
                Err(e) => spec_compile_rules(tokens.deep_view()) == Err::<
                    ValidatorSpec,
                    ErrorSpec,
                >(e@),
            },
    {
        FieldValidator::compile(tokens)
    }

    /// Parse one field fragment (`name:Type|rule1|rule2=value`).
    pub fn new(raw_field: &str) -> (r: Result<EntityField, NebulaError>)
        ensures
            match r {
                Ok(f) => spec_parse_field(raw_field@) == Ok::<FieldSpec, ErrorSpec>(f@),
                Err(e) => spec_parse_field(raw_field@) == Err::<FieldSpec, ErrorSpec>(e@),
            },
    {
        let n = raw_field.unicode_len();
        let bar = strutil::find_char(raw_field, '|');
        let head = raw_field.substring_char(0, bar);
        let tokens: Vec<String> = if bar < n {
            strutil::split_char(raw_field.substring_char(bar + 1, n), '|')
        } else {
            Vec::new()
        };
        proof {
            if bar == n {
                assert(tokens.deep_view() =~= Seq::<Seq<char>>::empty());
            }
        }
        let head_len = head.unicode_len();
        let colon = strutil::find_char(head, ':');
        if colon == head_len {
            return Err(NebulaError::InvalidFieldFormat(head.to_owned()));
        }
        let name = strutil::trim(head.substring_char(0, colon));
        let ty = strutil::trim(head.substring_char(colon + 1, head_len));
        let ty_len = ty.unicode_len();

        let relation: Option<Relation> = if strutil::starts_with(ty, "has_one:") {
            proof {
                reveal_strlit("has_one:");
            }
            let target = ty.substring_char(8, ty_len);
            if target.unicode_len() == 0 {
                return Err(NebulaError::InvalidRelationFormat(raw_field.to_owned()));
            }
            Some(Relation::HasOne(target.to_owned()))
        } else if strutil::starts_with(ty, "has_many:") {
            proof {
                reveal_strlit("has_many:");
            }
            let target = ty.substring_char(9, ty_len);
            if target.unicode_len() == 0 {
                return Err(NebulaError::InvalidRelationFormat(raw_field.to_owned()));
            }
            Some(Relation::HasMany(target.to_owned()))
        } else if strutil::starts_with(ty, "belongs_to:") {
            proof {
                reveal_strlit("belongs_to:");
            }
            let target = ty.substring_char(11, ty_len);
            if target.unicode_len() == 0 {
                return Err(NebulaError::InvalidRelationFormat(raw_field.to_owned()));
            }
            Some(Relation::BelongsTo(target.to_owned()))
        } else {
            if !is_allowed_type(ty) {
                return Err(NebulaError::InvalidScalarType(ty.to_owned()));
            }
            None
        };

        let validators = match FieldValidator::compile(&tokens) {
            Ok(v) => v,
            Err(e) => {
                return Err(e);
            },
        };
        Ok(
            EntityField {
                name: name.to_owned(),
                field_type: ty.to_owned(),
                validators,
                relation,
            },
        )
    }

    /// Parse one relation fragment, in either accepted form.
    pub fn parse_relation(raw: &str) -> (r: Result<EntityField, NebulaError>)
        ensures
            match r {
                Ok(f) => spec_parse_relation(raw@) == Ok::<FieldSpec, ErrorSpec>(f@),
                Err(e) => spec_parse_relation(raw@) == Err::<FieldSpec, ErrorSpec>(e@),
            },
    {
        let n = raw.unicode_len();
        proof {
            reveal_strlit("->");
        }
        let i = strutil::find_sub(raw, "->");
        if n - i < 2 {
            // no arrow: the embedded form
            return EntityField::new(raw);
        }
        let alias = strutil::trim(raw.substring_char(0, i));
        let rest = raw.substring_char(i + 2, n);
        if strutil::contains_sub(rest, "->") {
            return Err(NebulaError::InvalidRelationFormat(raw.to_owned()));
        }
        let rest_len = rest.unicode_len();
        let colon = strutil::find_char(rest, ':');
        if colon == rest_len {
            return Err(NebulaError::InvalidRelationFormat(raw.to_owned()));
        }
        let kw = strutil::trim(rest.substring_char(0, colon));
        let target = strutil::trim(rest.substring_char(colon + 1, rest_len));
        if target.unicode_len() == 0 {
            return Err(NebulaError::InvalidRelationFormat(raw.to_owned()));
        }
        if strutil::str_eq(kw, "hasOne") {
            Ok(
                EntityField {
                    name: alias.to_owned(),
                    field_type: rest.to_owned(),
                    validators: FieldValidator::default(),
                    relation: Some(Relation::HasOne(target.to_owned())),
                },
            )
        } else if strutil::str_eq(kw, "hasMany") {
            Ok(
                EntityField {
                    name: alias.to_owned(),
                    field_type: rest.to_owned(),
                    validators: FieldValidator::default(),
                    relation: Some(Relation::HasMany(target.to_owned())),
                },
            )
        } else if strutil::str_eq(kw, "belongsTo") {
            Ok(
                EntityField {
                    name: alias.to_owned(),
                    field_type: rest.to_owned(),
                    validators: FieldValidator::default(),
                    relation: Some(Relation::BelongsTo(target.to_owned())),
                },
            )
        } else {
            Err(NebulaError::InvalidRelationType(kw.to_owned()))
        }
    }
}

// ---------------------------------------------------------------------------
// Rendering one field
// ---------------------------------------------------------------------------

/// Attribute lines shifted right by one indentation step.
pub open spec fn spec_indented(attrs: Seq<Seq<char>>) -> Seq<Seq<char>> {
    Seq::new(attrs.len(), |i: int| "    "@ + attrs[i])
}

/// The declaration lines of a field.  A has-one relation renders as an
/// optional reference, a has-many as a collection, and a belongs-to as a
/// target reference plus a companion foreign-key field.
pub open spec fn spec_decl_lines(f: FieldSpec) -> Seq<Seq<char>> {
    match f.relation {
        Some(RelationSpec::HasOne(t)) => seq!["    pub "@ + f.name + ": Option<"@ + t + ">,"@],
        Some(RelationSpec::HasMany(t)) => seq!["    pub "@ + f.name + ": Vec<"@ + t + ">,"@],
        Some(RelationSpec::BelongsTo(t)) => seq![
            "    pub "@ + f.name + ": "@ + t + ","@,
            "    pub "@ + f.name + "_id: i32,"@,
        ],
        None => seq!["    pub "@ + f.name + ": "@ + f.field_type + ","@],
    }
}

/// The full rendering of one field: its validation attribute lines, indented,
/// then its declaration lines, joined with newlines.
pub open spec fn spec_render_field(f: FieldSpec) -> Seq<char> {
    strutil::spec_join(spec_indented(spec_attrs(f.validators)) + spec_decl_lines(f), "\n"@)
}

impl EntityField {
    /// Render this field as annotated source lines.
    pub fn to_rust_code(&self) -> (r: String)
        ensures
            r@ == spec_render_field(self@),
    {
        let attrs = self.validators.to_validation_attributes();
        let mut lines: Vec<String> = Vec::new();
        let n = attrs.len();
        let mut i: usize = 0;
        proof {
            assert(lines.deep_view() =~= spec_indented(attrs.deep_view()).take(0));
        }
        while i < n
            invariant
                n == attrs.len(),
                0 <= i <= n,
                attrs.deep_view() == spec_attrs(self@.validators),
                lines.deep_view() == spec_indented(attrs.deep_view()).take(i as int),
            decreases n - i,
        {
            let mut line = String::new();
            line.append("    ");
            line.append(attrs[i].as_str());
            lines.push(line);
            proof {
                assert(lines.deep_view() =~= spec_indented(attrs.deep_view()).take(i + 1));
            }
            i = i + 1;
        }
        proof {
            assert(spec_indented(attrs.deep_view()).take(n as int) =~= spec_indented(
                attrs.deep_view(),
            ));
        }
        let ghost attr_lines = lines.deep_view();
        match &self.relation {
            Some(Relation::HasOne(t)) => {
                let mut d = String::new();
                d.append("    pub ");
                d.append(self.name.as_str());
                d.append(": Option<");
                d.append(t.as_str());
                d.append(">,");
                lines.push(d);
            },
            Some(Relation::HasMany(t)) => {
                let mut d = String::new();
                d.append("    pub ");
                d.append(self.name.as_str());
                d.append(": Vec<");
                d.append(t.as_str());
                d.append(">,");
                lines.push(d);
            },
            Some(Relation::BelongsTo(t)) => {
                let mut d = String::new();
                d.append("    pub ");
                d.append(self.name.as_str());
                d.append(": ");
                d.append(t.as_str());
                d.append(",");
                lines.push(d);
                let mut fk = String::new();
                fk.append("    pub ");
                fk.append(self.name.as_str());
                fk.append("_id: i32,");
                lines.push(fk);
            },
            None => {
                let mut d = String::new();
                d.append("    pub ");
                d.append(self.name.as_str());
                d.append(": ");
                d.append(self.field_type.as_str());
                d.append(",");
                lines.push(d);
            },
        }
        proof {
            assert(lines.deep_view() =~~= attr_lines + spec_decl_lines(self@));
        }
        strutil::join_strs(&lines, "\n")
    }
}

/// The one-line description of a field: its name and declared type, and the
/// custom rules in brackets when there are any.
pub open spec fn spec_display_field(f: FieldSpec) -> Seq<char> {
    f.name + ": "@ + f.field_type + (if f.validators.custom.len() > 0 {
        " ["@ + strutil::spec_join(f.validators.custom, ", "@) + "]"@
    } else {
        Seq::empty()
    })
}

impl EntityField {
    /// Describe this field in one line, for messages and listings.
    pub fn to_display_string(&self) -> (r: String)
        ensures
            r@ == spec_display_field(self@),
    {
        let mut out = String::new();
        out.append(self.name.as_str());
        out.append(": ");
        out.append(self.field_type.as_str());
        if self.validators.custom_rules.len() > 0 {
            out.append(" [");
            let joined = strutil::join_strs(&self.validators.custom_rules, ", ");
            out.append(joined.as_str());
            out.append("]");
        }
        proof {
            assert(out@ =~= spec_display_field(self@));
        }
        out
    }
}

// ---------------------------------------------------------------------------
// The two relation syntaxes agree
// ---------------------------------------------------------------------------

/// Characters that can make up a plain alias or entity name.
pub open spec fn all_alnum(s: Seq<char>) -> bool {
    forall|j: int| 0 <= j < s.len() ==> strutil::is_ascii_alnum(s[j])
}

/// The shorthand `alias->belongsTo:Target` and the embedded
/// `alias:belongs_to:Target` forms of a belongs-to relation parse to the
/// same alias and the same internal relation, and render identically.
pub proof fn lemma_relation_forms_agree(alias: Seq<char>, target: Seq<char>)
    requires
        alias.len() > 0,
        target.len() > 0,
        all_alnum(alias),
        all_alnum(target),
    ensures
        ({
            let shorthand = spec_parse_relation(alias + "->"@ + "belongsTo:"@ + target);
            let embedded = spec_parse_relation(alias + ":"@ + "belongs_to:"@ + target);
            &&& shorthand is Ok
            &&& embedded is Ok
            &&& shorthand->Ok_0.name == alias
            &&& embedded->Ok_0.name == alias
            &&& shorthand->Ok_0.relation == Some(RelationSpec::BelongsTo(target))
            &&& embedded->Ok_0.relation == Some(RelationSpec::BelongsTo(target))
            &&& spec_render_field(shorthand->Ok_0) == spec_render_field(embedded->Ok_0)
        }),
{
    reveal_strlit("->");
    reveal_strlit(":");
    reveal_strlit("|");
    reveal_strlit("belongsTo:");
    reveal_strlit("belongsTo");
    reveal_strlit("belongs_to:");
    reveal_strlit("hasOne");
    reveal_strlit("hasMany");
    reveal_strlit("has_one:");
    reveal_strlit("has_many:");
    let a = alias.len() as int;
    let arrow = "->"@;

    // -------------------- the shorthand form --------------------
    let s1 = alias + arrow + "belongsTo:"@ + target;
    assert(s1.subrange(a, a + 2) =~= arrow);
    assert(strutil::occurs_at(s1, arrow, a));
    assert forall|j: int| 0 <= j < a implies !strutil::occurs_at(s1, arrow, j) by {
        if strutil::occurs_at(s1, arrow, j) {
            assert(s1.subrange(j, j + 2)[0] == s1[j]);
            assert(s1[j] == alias[j]);
            assert(strutil::is_ascii_alnum(alias[j]));
        }
    }
    strutil::lemma_find_sub_is(s1, arrow, a);
    assert(strutil::spec_contains(s1, arrow));
    assert(strutil::spec_trim(s1.subrange(0, a)) == alias) by {
        assert(s1.subrange(0, a) =~= alias);
        lemma_trim_alnum(alias);
    }
    let rest = s1.subrange(a + arrow.len(), s1.len() as int);
    assert(rest =~= "belongsTo:"@ + target);
    assert(!strutil::spec_contains(rest, arrow)) by {
        assert forall|j: int| !strutil::occurs_at(rest, arrow, j) by {
            if strutil::occurs_at(rest, arrow, j) {
                assert(rest.subrange(j, j + 2)[0] == rest[j]);
                assert(rest[j] == '-');
                if j < 10 {
                    assert(rest[j] == "belongsTo:"@[j]);
                } else {
                    assert(rest[j] == target[j - 10]);
                    assert(strutil::is_ascii_alnum(target[j - 10]));
                }
            }
        }
        strutil::lemma_find_sub_props(rest, arrow);
        if strutil::spec_contains(rest, arrow) {
            assert(strutil::occurs_at(rest, arrow, strutil::spec_find_sub(rest, arrow)));
        }
    }
    assert(strutil::spec_find(rest, ':') == 9) by {
        assert forall|j: int| 0 <= j < 9 implies rest[j] != ':' by {
            assert(rest[j] == "belongsTo:"@[j]);
        }
        assert(rest[9] == ':');
        strutil::lemma_find_is(rest, ':', 9);
    }
    let kw = strutil::spec_trim(rest.subrange(0, 9));
    assert(kw == "belongsTo"@) by {
        assert(rest.subrange(0, 9) =~= "belongsTo"@);
        lemma_trim_edges("belongsTo"@);
    }
    let tgt1 = strutil::spec_trim(rest.subrange(10, rest.len() as int));
    assert(tgt1 == target) by {
        assert(rest.subrange(10, rest.len() as int) =~= target);
        lemma_trim_alnum(target);
    }
    assert(kw != "hasOne"@ && kw != "hasMany"@) by {
        assert("belongsTo"@.len() == 9);
        assert("hasOne"@.len() == 6);
        assert("hasMany"@.len() == 7);
    }
    let shorthand = spec_parse_relation(s1);
    assert(shorthand == Ok::<FieldSpec, ErrorSpec>(
        FieldSpec {
            name: alias,
            field_type: rest,
            validators: spec_validator_init(),
            relation: Some(RelationSpec::BelongsTo(target)),
        },
    ));

    // -------------------- the embedded form --------------------
    let s2 = alias + ":"@ + "belongs_to:"@ + target;
    assert(!strutil::spec_contains(s2, arrow)) by {
        assert forall|j: int| !strutil::occurs_at(s2, arrow, j) by {
            if strutil::occurs_at(s2, arrow, j) {
                assert(s2.subrange(j, j + 2)[0] == s2[j]);
                assert(s2[j] == '-');
                if j < a {
                    assert(s2[j] == alias[j]);
                } else if j == a {
                    assert(s2[j] == ':');
                } else if j < a + 1 + 11 {
                    assert(s2[j] == "belongs_to:"@[j - a - 1]);
                } else {
                    assert(s2[j] == target[j - a - 12]);
                }
            }
        }
        strutil::lemma_find_sub_props(s2, arrow);
        if strutil::spec_contains(s2, arrow) {
            assert(strutil::occurs_at(s2, arrow, strutil::spec_find_sub(s2, arrow)));
        }
    }
    assert(strutil::spec_find(s2, '|') == s2.len()) by {
        assert forall|j: int| 0 <= j < s2.len() implies s2[j] != '|' by {
            if j < a {
                assert(s2[j] == alias[j]);
            } else if j == a {
                assert(s2[j] == ':');
            } else if j < a + 1 + 11 {
                assert(s2[j] == "belongs_to:"@[j - a - 1]);
            } else {
                assert(s2[j] == target[j - a - 12]);
            }
        }
        strutil::lemma_find_is(s2, '|', s2.len() as int);
    }
    let head = s2.subrange(0, s2.len() as int);
    assert(head =~= s2);
    assert(strutil::spec_find(head, ':') == a) by {
        assert forall|j: int| 0 <= j < a implies head[j] != ':' by {
            assert(head[j] == alias[j]);
        }
        assert(head[a] == ':');
        strutil::lemma_find_is(head, ':', a);
    }
    assert(strutil::spec_trim(head.subrange(0, a)) == alias) by {
        assert(head.subrange(0, a) =~= alias);
        lemma_trim_alnum(alias);
    }
    let ty = strutil::spec_trim(head.subrange(a + 1, head.len() as int));
    assert(ty == "belongs_to:"@ + target) by {
        assert(head.subrange(a + 1, head.len() as int) =~= "belongs_to:"@ + target);
        lemma_trim_edges("belongs_to:"@ + target);
    }
    assert(!strutil::spec_starts_with(ty, "has_one:"@)) by {
        if strutil::spec_starts_with(ty, "has_one:"@) {
            assert(ty.subrange(0, 8)[0] == ty[0]);
            assert(ty[0] == "belongs_to:"@[0]);
        }
    }
    assert(!strutil::spec_starts_with(ty, "has_many:"@)) by {
        if strutil::spec_starts_with(ty, "has_many:"@) {
            assert(ty.subrange(0, 9)[0] == ty[0]);
            assert(ty[0] == "belongs_to:"@[0]);
        }
    }
    assert(strutil::spec_starts_with(ty, "belongs_to:"@)) by {
        assert(ty.subrange(0, 11) =~= "belongs_to:"@);
    }
    assert(ty.subrange(11, ty.len() as int) =~= target);
    assert(spec_relation_of_type(ty) == Some(RelationSpec::BelongsTo(target)));
    assert(spec_compile_rules(Seq::<Seq<char>>::empty()) == Ok::<ValidatorSpec, ErrorSpec>(
        spec_validator_init(),
    ));
    let embedded = spec_parse_relation(s2);
    assert(embedded == spec_parse_field(s2));
    assert(embedded == Ok::<FieldSpec, ErrorSpec>(
        FieldSpec {
            name: alias,
            field_type: ty,
            validators: spec_validator_init(),
            relation: Some(RelationSpec::BelongsTo(target)),
        },
    ));

    // -------------------- the renderings agree --------------------
    let f1 = shorthand->Ok_0;
    let f2 = embedded->Ok_0;
    assert(spec_decl_lines(f1) == spec_decl_lines(f2));
    assert(spec_render_field(f1) == spec_render_field(f2));
}

/// Trimming a non-empty all-alphanumeric text changes nothing.
proof fn lemma_trim_alnum(s: Seq<char>)
    requires
        s.len() > 0,
        all_alnum(s),
    ensures
        strutil::spec_trim(s) == s,
{
    assert(strutil::is_ascii_alnum(s[0]));
    assert(strutil::is_ascii_alnum(s[s.len() - 1]));
    lemma_trim_edges(s);
}

/// Trimming changes nothing when neither end is whitespace.
proof fn lemma_trim_edges(s: Seq<char>)
    requires
        s.len() == 0 || (!strutil::is_space(s[0]) && !strutil::is_space(s[s.len() - 1])),
    ensures
        strutil::spec_trim(s) == s,
{
    assert(strutil::spec_trim_start(s) == s);
    assert(strutil::spec_trim_end(s) == s);
}

} // verus!
