//! The entity model assembler and code renderer: an entity name and the raw
//! field and relation lists become the generated entity source unit, the
//! per-entity module file, and an idempotent module-index update.

use vstd::prelude::*;
use vstd::string::StrSliceExecFns;
use vstd::string::StringExecFns;

use crate::errors::NebulaError;
use crate::errors::ErrorSpec;
use crate::field::EntityField;
use crate::field::FieldSpec;
use crate::field::spec_parse_field;
use crate::field::spec_parse_relation;
use crate::field::spec_render_field;
use crate::strutil;
use crate::template;
use crate::types::ProjectType;

verus! {

/// Model of [`EntityGenerator`].
#[verifier::ext_equal]
pub ghost struct GeneratorSpec {
    pub name: Seq<char>,
    pub fields: Option<Seq<char>>,
    pub relations: Option<Seq<char>>,
}

/// The inputs of one entity generation: the entity name and the raw
/// comma-separated field and relation lists.
#[derive(Debug, Clone)]
pub struct EntityGenerator {
    pub name: String,
    pub fields: Option<String>,
    pub relations: Option<String>,
}

impl View for EntityGenerator {
    type V = GeneratorSpec;

    open spec fn view(&self) -> GeneratorSpec {
        GeneratorSpec {
            name: self.name@,
            fields: match self.fields {
                Some(ref s) => Some(s@),
                None => None,
            },
            relations: match self.relations {
                Some(ref s) => Some(s@),
                None => None,
            },
        }
    }
}

// ---------------------------------------------------------------------------
// Entity-level validation
// ---------------------------------------------------------------------------

pub const ENTITY_NAME_MSG: &'static str = "Entity name must be non-empty and alphanumeric";

pub const EMPTY_FIELD_MSG: &'static str = "Field definitions cannot be empty";

pub const EMPTY_RELATION_MSG: &'static str = "Relation definitions cannot be empty";

/// A valid entity name: non-empty and ASCII-alphanumeric throughout.
pub open spec fn spec_entity_name_ok(name: Seq<char>) -> bool {
    name.len() > 0 && forall|j: int| 0 <= j < name.len() ==> strutil::is_ascii_alnum(name[j])
}

/// Does the comma-separated list hold a fragment that trims to nothing?
pub open spec fn spec_has_blank_fragment(s: Seq<char>) -> bool {
    exists|i: int|
        0 <= i < strutil::spec_split(s, ',').len() && strutil::spec_trim(
            strutil::spec_split(s, ',')[i],
        ).len() == 0
}

/// An optional raw list that is absent or empty contributes nothing.
pub open spec fn spec_list_present(o: Option<Seq<char>>) -> bool {
    o is Some && o->0.len() > 0
}

/// Entity-level validation: the name first, then a check that neither list
/// holds a blank fragment.  An absent or empty list is acceptable.
pub open spec fn spec_validate(g: GeneratorSpec) -> Result<(), ErrorSpec> {
    if !spec_entity_name_ok(g.name) {
        Err(ErrorSpec::ValidationError(ENTITY_NAME_MSG@))
    } else if spec_list_present(g.fields) && spec_has_blank_fragment(g.fields->0) {
        Err(ErrorSpec::ValidationError(EMPTY_FIELD_MSG@))
    } else if spec_list_present(g.relations) && spec_has_blank_fragment(g.relations->0) {
        Err(ErrorSpec::ValidationError(EMPTY_RELATION_MSG@))
    } else {
        Ok(())
    }
}

/// ASCII letter-or-digit test.
fn is_alnum_exec(c: char) -> (r: bool)
    ensures
        r == strutil::is_ascii_alnum(c),
{
    (c >= 'a' && c <= 'z') || (c >= 'A' && c <= 'Z') || (c >= '0' && c <= '9')
}

/// Is `name` non-empty and ASCII-alphanumeric throughout?
fn entity_name_ok(name: &str) -> (r: bool)
    ensures
        r == spec_entity_name_ok(name@),
{
    let n = name.unicode_len();
    if n == 0 {
        return false;
    }
    let mut i: usize = 0;
    while i < n
        invariant
            n == name@.len(),
            0 <= i <= n,
            forall|j: int| 0 <= j < i ==> strutil::is_ascii_alnum(name@[j]),
        decreases n - i,
    {
        if !is_alnum_exec(name.get_char(i)) {
            return false;
        }
        i = i + 1;
    }
    true
}

/// Does the comma-separated list hold a fragment that trims to nothing?
fn has_blank_fragment(s: &str) -> (r: bool)
    ensures
        r == spec_has_blank_fragment(s@),
{
    let pieces = strutil::split_char(s, ',');
    let n = pieces.len();
    let mut i: usize = 0;
    while i < n
        invariant
            n == pieces.len(),
            pieces.deep_view() == strutil::spec_split(s@, ','),
            0 <= i <= n,
            forall|j: int|
                0 <= j < i ==> strutil::spec_trim(strutil::spec_split(s@, ',')[j]).len() != 0,
        decreases n - i,
    {
        let t = strutil::trim(pieces[i].as_str());
        if t.unicode_len() == 0 {
            proof {
                let sp = strutil::spec_split(s@, ',');
                assert(pieces.deep_view()[i as int] == sp[i as int]);
                assert(strutil::spec_trim(sp[i as int]).len() == 0);
            }
            return true;
        }
        i = i + 1;
    }
    false
}

// ---------------------------------------------------------------------------
// Parsing the lists
// ---------------------------------------------------------------------------

/// The fragments parsed in order by `p`; the first failing fragment decides
/// the error.
pub open spec fn spec_parse_list(
    frags: Seq<Seq<char>>,
    p: spec_fn(Seq<char>) -> Result<FieldSpec, ErrorSpec>,
) -> Result<Seq<FieldSpec>, ErrorSpec>
    decreases frags.len(),
{
    if frags.len() == 0 {
        Ok(Seq::empty())
    } else {
        match spec_parse_list(frags.drop_last(), p) {
            Ok(fs) => match p(frags.last()) {
                Ok(f) => Ok(fs.push(f)),
                Err(e) => Err(e),
            },
            Err(e) => Err(e),
        }
    }
}

pub proof fn lemma_parse_list_step(
    frags: Seq<Seq<char>>,
    p: spec_fn(Seq<char>) -> Result<FieldSpec, ErrorSpec>,
    i: int,
)
    requires
        0 <= i < frags.len(),
    ensures
        spec_parse_list(frags.take(i + 1), p) == (match spec_parse_list(frags.take(i), p) {
            Ok(fs) => match p(frags[i]) {
                Ok(f) => Ok(fs.push(f)),
                Err(e) => Err(e),
            },
            Err(e) => Err(e),
        }),
{
    let t = frags.take(i + 1);
    assert(t.drop_last() =~= frags.take(i));
    assert(t.last() == frags[i]);
}

pub proof fn lemma_parse_list_err_stable(
    frags: Seq<Seq<char>>,
    p: spec_fn(Seq<char>) -> Result<FieldSpec, ErrorSpec>,
    i: int,
)
    requires
        0 <= i <= frags.len(),
        spec_parse_list(frags.take(i), p) is Err,
    ensures
        spec_parse_list(frags, p) == spec_parse_list(frags.take(i), p),
    decreases frags.len() - i,
{
    if i == frags.len() {
        assert(frags.take(i) =~= frags);
    } else {
        lemma_parse_list_step(frags, p, i);
        lemma_parse_list_err_stable(frags, p, i + 1);
    }
}

/// The parsed field list: absent or empty input contributes no fields.
pub open spec fn spec_parse_fields(fields: Option<Seq<char>>) -> Result<Seq<FieldSpec>, ErrorSpec> {
    if !spec_list_present(fields) {
        Ok(Seq::empty())
    } else {
        spec_parse_list(strutil::spec_split(fields->0, ','), |f: Seq<char>| spec_parse_field(f))
    }
}

/// The parsed relation list: absent or empty input contributes no relations.
pub open spec fn spec_parse_relations(relations: Option<Seq<char>>) -> Result<
    Seq<FieldSpec>,
    ErrorSpec,
> {
    if !spec_list_present(relations) {
        Ok(Seq::empty())
    } else {
        spec_parse_list(
            strutil::spec_split(relations->0, ','),
            |f: Seq<char>| spec_parse_relation(f),
        )
    }
}

/// Parse each fragment of `raw` with the field grammar.
fn parse_fragment_list(raw: &str, relations: bool) -> (r: Result<Vec<EntityField>, NebulaError>)
    ensures
        ({
            let p = if relations {
                |f: Seq<char>| spec_parse_relation(f)
            } else {
                |f: Seq<char>| spec_parse_field(f)
            };
            match r {
                Ok(v) => spec_parse_list(strutil::spec_split(raw@, ','), p) == Ok::<
                    Seq<FieldSpec>,
                    ErrorSpec,
                >(v.deep_view()),
                Err(e) => spec_parse_list(strutil::spec_split(raw@, ','), p) == Err::<
                    Seq<FieldSpec>,
                    ErrorSpec,
                >(e@),
            }
        }),
{
    let ghost p = if relations {
        |f: Seq<char>| spec_parse_relation(f)
    } else {
        |f: Seq<char>| spec_parse_field(f)
    };
    let frags = strutil::split_char(raw, ',');
    let ghost fv = frags.deep_view();
    let mut out: Vec<EntityField> = Vec::new();
    let n = frags.len();
    let mut i: usize = 0;
    proof {
        assert(fv.take(0) =~= Seq::<Seq<char>>::empty());
        assert(out.deep_view() =~= Seq::<FieldSpec>::empty());
    }
    while i < n
        invariant
            n == frags.len(),
            frags.deep_view() == fv,
            0 <= i <= n,
            p == (if relations {
                |f: Seq<char>| spec_parse_relation(f)
            } else {
                |f: Seq<char>| spec_parse_field(f)
            }),
            spec_parse_list(fv.take(i as int), p) == Ok::<Seq<FieldSpec>, ErrorSpec>(
                out.deep_view(),
            ),
        decreases n - i,
    {
        proof {
            lemma_parse_list_step(fv, p, i as int);
        }
        let parsed = if relations {
            EntityField::parse_relation(frags[i].as_str())
        } else {
            EntityField::new(frags[i].as_str())
        };
        match parsed {
            Ok(f) => {
                let ghost prev = out.deep_view();
                out.push(f);
                proof {
                    assert(out.deep_view() =~= prev.push(f@));
                }
            },
            Err(e) => {
                proof {
                    lemma_parse_list_err_stable(fv, p, i + 1);
                }
                return Err(e);
            },
        }
        i = i + 1;
    }
    proof {
        assert(fv.take(n as int) =~= fv);
    }
    Ok(out)
}

// ---------------------------------------------------------------------------
// Rendering the content block
// ---------------------------------------------------------------------------

pub const PLACEHOLDER_FIELDS: &'static str = "// Add your fields here";

/// The rendered field block: every field, then every relation, in input
/// order, one rendering per line group; or a placeholder comment when there
/// is nothing to render.
pub open spec fn spec_fields_block(fields: Seq<FieldSpec>, relations: Seq<FieldSpec>) -> Seq<
    char,
> {
    if fields.len() == 0 && relations.len() == 0 {
        PLACEHOLDER_FIELDS@
    } else {
        strutil::spec_join(
            (fields + relations).map_values(|f: FieldSpec| spec_render_field(f)),
            "\n"@,
        )
    }
}

/// The full generated entity source unit.
pub open spec fn spec_entity_source(
    name: Seq<char>,
    fields: Seq<FieldSpec>,
    relations: Seq<FieldSpec>,
) -> Seq<char> {
    template::spec_entity_template(name, spec_fields_block(fields, relations))
}

// ---------------------------------------------------------------------------
// The module index
// ---------------------------------------------------------------------------

/// The canonical line registered in the module index for a module name.
pub open spec fn spec_mod_line(module: Seq<char>) -> Seq<char> {
    "pub mod "@ + module + ";"@
}

/// The module index after registering `module`: unchanged if its line is
/// already present, otherwise the line appended after a separator.
pub open spec fn spec_update_index(content: Seq<char>, module: Seq<char>) -> Seq<char> {
    if strutil::spec_contains(content, spec_mod_line(module)) {
        content
    } else {
        content + "\n"@ + spec_mod_line(module)
    }
}

/// Registering a module twice changes nothing after the first time, and the
/// registration line is always present afterwards.
pub proof fn lemma_update_index_idempotent(content: Seq<char>, module: Seq<char>)
    ensures
        strutil::spec_contains(spec_update_index(content, module), spec_mod_line(module)),
        spec_update_index(spec_update_index(content, module), module) == spec_update_index(
            content,
            module,
        ),
{
    let line = spec_mod_line(module);
    reveal_strlit("pub mod ");
    reveal_strlit(";");
    reveal_strlit("\n");
    if !strutil::spec_contains(content, line) {
        let c2 = content + "\n"@ + line;
        let at = content.len() + 1;
        assert(c2.subrange(at as int, at + line.len() as int) =~= line);
        assert(strutil::occurs_at(c2, line, at as int));
        strutil::lemma_find_sub_props(c2, line);
        if !strutil::spec_contains(c2, line) {
            assert(!strutil::occurs_at(c2, line, at as int));
        }
    }
}

// ---------------------------------------------------------------------------
// The generator
// ---------------------------------------------------------------------------

pub const MODULE_SOURCE: &'static str = "mod entity;\npub use entity::*;\n";

/// Model of [`GeneratedEntity`].
#[verifier::ext_equal]
pub ghost struct GeneratedSpec {
    pub module_name: Seq<char>,
    pub entity_source: Seq<char>,
    pub module_source: Seq<char>,
    pub updated_index: Seq<char>,
    pub index_changed: bool,
}

/// Everything one entity generation produces: the text of the entity source
/// unit, the per-entity module file, the lowercased module name, and the
/// module index after registration.
#[derive(Debug, Clone)]
pub struct GeneratedEntity {
    pub module_name: String,
    pub entity_source: String,
    pub module_source: String,
    pub updated_index: String,
    pub index_changed: bool,
}

impl View for GeneratedEntity {
    type V = GeneratedSpec;

    open spec fn view(&self) -> GeneratedSpec {
        GeneratedSpec {
            module_name: self.module_name@,
            entity_source: self.entity_source@,
            module_source: self.module_source@,
            updated_index: self.updated_index@,
            index_changed: self.index_changed,
        }
    }
}

/// The whole compilation, start to finish: validation, both parses, and
/// rendering, against the module index as it stood.
pub open spec fn spec_generate(g: GeneratorSpec, index: Seq<char>) -> Result<
    GeneratedSpec,
    ErrorSpec,
> {
    match spec_validate(g) {
        Err(e) => Err(e),
        Ok(_) => match spec_parse_fields(g.fields) {
            Err(e) => Err(e),
            Ok(fields) => match spec_parse_relations(g.relations) {
                Err(e) => Err(e),
                Ok(relations) => {
                    let module = strutil::spec_lower(g.name);
                    Ok(
                        GeneratedSpec {
                            module_name: module,
                            entity_source: spec_entity_source(g.name, fields, relations),
                            module_source: MODULE_SOURCE@,
                            updated_index: spec_update_index(index, module),
                            index_changed: !strutil::spec_contains(index, spec_mod_line(module)),
                        },
                    )
                },
            },
        },
    }
}

impl EntityGenerator {
    /// Bundle the raw inputs of one entity generation.
    pub fn new(name: String, fields: Option<String>, relations: Option<String>) -> (r: Self)
        ensures
            r@.name == name@,
            r@.fields == (match fields {
                Some(ref s) => Some(s@),
                None => None::<Seq<char>>,
            }),
            r@.relations == (match relations {
                Some(ref s) => Some(s@),
                None => None::<Seq<char>>,
            }),
    {
        EntityGenerator { name, fields, relations }
    }

    /// Check the entity name and reject blank fragments in either list.
    pub fn validate(&self) -> (r: Result<(), NebulaError>)
        ensures
            match r {
                Ok(_) => spec_validate(self@) == Ok::<(), ErrorSpec>(()),
                Err(e) => spec_validate(self@) == Err::<(), ErrorSpec>(e@),
            },
    {
        if !entity_name_ok(self.name.as_str()) {
            return Err(NebulaError::ValidationError(String::from_str(ENTITY_NAME_MSG)));
        }
        if let Some(fields) = &self.fields {
            if !fields.as_str().is_empty() && has_blank_fragment(fields.as_str()) {
                return Err(NebulaError::ValidationError(String::from_str(EMPTY_FIELD_MSG)));
            }
        }
        if let Some(relations) = &self.relations {
            if !relations.as_str().is_empty() && has_blank_fragment(relations.as_str()) {
                return Err(NebulaError::ValidationError(String::from_str(EMPTY_RELATION_MSG)));
            }
        }
        Ok(())
    }

    /// Parse the raw field list into ordered fields.
    pub fn parse_fields(&self) -> (r: Result<Vec<EntityField>, NebulaError>)
        ensures
            match r {
                Ok(v) => spec_parse_fields(self@.fields) == Ok::<Seq<FieldSpec>, ErrorSpec>(
                    v.deep_view(),
                ),
                Err(e) => spec_parse_fields(self@.fields) == Err::<Seq<FieldSpec>, ErrorSpec>(e@),
            },
    {
        match &self.fields {
            Some(fields) => {
                if fields.as_str().is_empty() {
                    let r: Vec<EntityField> = Vec::new();
                    proof {
                        assert(r.deep_view() =~= Seq::<FieldSpec>::empty());
                    }
                    Ok(r)
                } else {
                    parse_fragment_list(fields.as_str(), false)
                }
            },
            None => {
                let r: Vec<EntityField> = Vec::new();
                proof {
                    assert(r.deep_view() =~= Seq::<FieldSpec>::empty());
                }
                Ok(r)
            },
        }
    }

    /// Parse the raw relation list into ordered relation fields.
    pub fn parse_relations(&self) -> (r: Result<Vec<EntityField>, NebulaError>)
        ensures
            match r {
                Ok(v) => spec_parse_relations(self@.relations) == Ok::<Seq<FieldSpec>, ErrorSpec>(
                    v.deep_view(),
                ),
                Err(e) => spec_parse_relations(self@.relations) == Err::<
                    Seq<FieldSpec>,
                    ErrorSpec,
                >(e@),
            },
    {
        match &self.relations {
            Some(relations) => {
                if relations.as_str().is_empty() {
                    let r: Vec<EntityField> = Vec::new();
                    proof {
                        assert(r.deep_view() =~= Seq::<FieldSpec>::empty());
                    }
                    Ok(r)
                } else {
                    parse_fragment_list(relations.as_str(), true)
                }
            },
            None => {
                let r: Vec<EntityField> = Vec::new();
                proof {
                    assert(r.deep_view() =~= Seq::<FieldSpec>::empty());
                }
                Ok(r)
            },
        }
    }

    /// Render the parsed fields and relations into the entity source unit.
    pub fn generate_content(&self, fields: &Vec<EntityField>, relations: &Vec<EntityField>) -> (r:
        Result<String, NebulaError>)
        ensures
            r is Ok,
            (r->Ok_0)@ == spec_entity_source(self@.name, fields.deep_view(), relations.deep_view()),
    {
        let block: String = if fields.len() == 0 && relations.len() == 0 {
            String::from_str(PLACEHOLDER_FIELDS)
        } else {
            let mut lines: Vec<String> = Vec::new();
            let ghost all = fields.deep_view() + relations.deep_view();
            let n = fields.len();
            let mut i: usize = 0;
            proof {
                assert(lines.deep_view() =~= all.map_values(
                    |f: FieldSpec| spec_render_field(f),
                ).take(0));
            }
            while i < n
                invariant
                    n == fields.len(),
                    all == fields.deep_view() + relations.deep_view(),
                    0 <= i <= n,
                    lines.deep_view() == all.map_values(|f: FieldSpec| spec_render_field(f)).take(
                        i as int,
                    ),
                decreases n - i,
            {
                lines.push(fields[i].to_rust_code());
                proof {
                    assert(all[i as int] == fields.deep_view()[i as int]);
                    assert(lines.deep_view() =~= all.map_values(
                        |f: FieldSpec| spec_render_field(f),
                    ).take(i + 1));
                }
                i = i + 1;
            }
            let m = relations.len();
            let mut k: usize = 0;
            while k < m
                invariant
                    n == fields.len(),
                    m == relations.len(),
                    all == fields.deep_view() + relations.deep_view(),
                    0 <= k <= m,
                    lines.deep_view() == all.map_values(|f: FieldSpec| spec_render_field(f)).take(
                        n + k,
                    ),
                decreases m - k,
            {
                lines.push(relations[k].to_rust_code());
                proof {
                    assert(all[n + k] == relations.deep_view()[k as int]);
                    assert(lines.deep_view() =~= all.map_values(
                        |f: FieldSpec| spec_render_field(f),
                    ).take(n + k + 1));
                }
                k = k + 1;
            }
            proof {
                assert(all.map_values(|f: FieldSpec| spec_render_field(f)).take(n + m)
                    =~= all.map_values(|f: FieldSpec| spec_render_field(f)));
            }
            strutil::join_strs(&lines, "\n")
        };
        Ok(template::get_entity_template(self.name.as_str(), block.as_str()))
    }

    /// The source directory that entities of this project type live in.
    pub fn get_base_path(&self, project_type: ProjectType) -> (r: Result<String, NebulaError>)
        ensures
            match r {
                Ok(p) => (project_type == ProjectType::Api && p@ == "src/"@) || (project_type
                    == ProjectType::Full && p@ == "api/src/"@),
                Err(e) => project_type == ProjectType::Web && e@ == ErrorSpec::InvalidOptions(
                    "Invalid project type"@,
                ),
            },
    {
        match project_type {
            ProjectType::Api => Ok(String::from_str("src/")),
            ProjectType::Full => Ok(String::from_str("api/src/")),
            ProjectType::Web => Err(NebulaError::InvalidOptions(String::from_str(
                "Invalid project type",
            ))),
        }
    }

    /// Register `module_name` in the module index text: append the
    /// registration line only if it is not already present.  The flag says
    /// whether the text changed.
    pub fn update_mod_file(existing: &str, module_name: &str) -> (r: (String, bool))
        ensures
            r.0@ == spec_update_index(existing@, module_name@),
            r.1 == !strutil::spec_contains(existing@, spec_mod_line(module_name@)),
    {
        let mut line = String::from_str("pub mod ");
        line.append(module_name);
        line.append(";");
        proof {
            reveal_strlit("pub mod ");
            assert(line@ =~= spec_mod_line(module_name@));
        }
        if strutil::contains_sub(existing, line.as_str()) {
            (existing.to_owned(), false)
        } else {
            let mut updated = existing.to_owned();
            updated.append("\n");
            updated.append(line.as_str());
            (updated, true)
        }
    }

    /// Run the whole compilation against the module index text as it stands:
    /// validate, parse both lists, render the entity source unit, and
    /// compute the updated index.
    pub fn generate(&self, existing_index: &str) -> (r: Result<GeneratedEntity, NebulaError>)
        ensures
            match r {
                Ok(g) => spec_generate(self@, existing_index@) == Ok::<GeneratedSpec, ErrorSpec>(
                    g@,
                ),
                Err(e) => spec_generate(self@, existing_index@) == Err::<
                    GeneratedSpec,
                    ErrorSpec,
                >(e@),
            },
    {
        if let Err(e) = self.validate() {
            return Err(e);
        }
        let fields = match self.parse_fields() {
            Ok(v) => v,
            Err(e) => {
                return Err(e);
            },
        };
        let relations = match self.parse_relations() {
            Ok(v) => v,
            Err(e) => {
                return Err(e);
            },
        };
        let content = match self.generate_content(&fields, &relations) {
            Ok(c) => c,
            Err(e) => {
                return Err(e);
            },
        };
        let module_name = strutil::to_lowercase_alnum(self.name.as_str());
        let (updated_index, index_changed) = EntityGenerator::update_mod_file(
            existing_index,
            module_name.as_str(),
        );
        Ok(
            GeneratedEntity {
                module_name,
                entity_source: content,
                module_source: String::from_str(MODULE_SOURCE),
                updated_index,
                index_changed,
            },
        )
    }
}

// ---------------------------------------------------------------------------
// Laws of the generator
// ---------------------------------------------------------------------------

/// Regenerating an entity against the index its first run produced yields
/// byte-identical generated source and leaves the index unchanged: the
/// whole generation is idempotent.
pub proof fn lemma_generate_idempotent(g: GeneratorSpec, index: Seq<char>)
    requires
        spec_generate(g, index) is Ok,
    ensures
        ({
            let first = spec_generate(g, index)->Ok_0;
            let again = spec_generate(g, first.updated_index);
            &&& again is Ok
            &&& again->Ok_0.entity_source == first.entity_source
            &&& again->Ok_0.module_source == first.module_source
            &&& again->Ok_0.module_name == first.module_name
            &&& again->Ok_0.updated_index == first.updated_index
            &&& !again->Ok_0.index_changed
        }),
{
    let module = strutil::spec_lower(g.name);
    lemma_update_index_idempotent(index, module);
}

/// An invalid entity name is rejected before any field or relation parsing:
/// the result is the name error whatever the two lists hold.
pub proof fn lemma_invalid_name_rejected(g: GeneratorSpec, index: Seq<char>)
    requires
        !spec_entity_name_ok(g.name),
    ensures
        spec_generate(g, index) == Err::<GeneratedSpec, ErrorSpec>(
            ErrorSpec::ValidationError(ENTITY_NAME_MSG@),
        ),
{
}

/// Absent or empty field and relation lists still generate a valid entity,
/// whose field block is the placeholder comment.
pub proof fn lemma_empty_lists_use_placeholder(g: GeneratorSpec, index: Seq<char>)
    requires
        spec_entity_name_ok(g.name),
        !spec_list_present(g.fields),
        !spec_list_present(g.relations),
    ensures
        spec_generate(g, index) is Ok,
        spec_generate(g, index)->Ok_0.entity_source == template::spec_entity_template(
            g.name,
            PLACEHOLDER_FIELDS@,
        ),
{
    assert(spec_fields_block(Seq::<FieldSpec>::empty(), Seq::<FieldSpec>::empty())
        == PLACEHOLDER_FIELDS@);
}

} // verus!
