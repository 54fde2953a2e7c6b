use nebula::errors::NebulaError;
use nebula::field::EntityField;
use nebula::generator::EntityGenerator;
use nebula::template::get_entity_template;

#[test]
fn round_trip_ordering_of_fields() {
    let g = EntityGenerator::new(
        "Post".to_string(),
        Some("a:String,b:i32,c:bool".to_string()),
        None,
    );
    let fields = g.parse_fields().unwrap();
    let relations = g.parse_relations().unwrap();
    let content = g.generate_content(&fields, &relations).unwrap();
    let expected_block = "    pub a: String,\n    pub b: i32,\n    pub c: bool,";
    assert_eq!(content, get_entity_template("Post", expected_block));
    let a = content.find("pub a: String,").unwrap();
    let b = content.find("pub b: i32,").unwrap();
    let c = content.find("pub c: bool,").unwrap();
    assert!(a < b && b < c);
}

#[test]
fn validator_composition_canonical_order() {
    let f = EntityField::new("email:String|required|email|unique").unwrap();
    let attrs = f.validators.to_validation_attributes();
    assert_eq!(
        attrs,
        vec![
            "#[validate(required)]".to_string(),
            "#[validate(custom = \"validate_unique\")]".to_string(),
            "#[validate(email)]".to_string(),
        ]
    );
}

#[test]
fn valued_rules_render_in_canonical_order() {
    let f = EntityField::new("age:i32|min=1|max=120|minLength=2|maxLength=5|pattern=^a$")
        .unwrap();
    let attrs = f.validators.to_validation_attributes();
    assert_eq!(
        attrs,
        vec![
            "#[validate(range(min = \"1\"))]".to_string(),
            "#[validate(range(max = \"120\"))]".to_string(),
            "#[validate(length(min = 2))]".to_string(),
            "#[validate(length(max = 5))]".to_string(),
            "#[validate(regex(path = \"^a$\"))]".to_string(),
        ]
    );
}

#[test]
fn unknown_rules_pass_through_as_custom() {
    let f = EntityField::new("x:String|frob=3|required").unwrap();
    let attrs = f.validators.to_validation_attributes();
    assert_eq!(
        attrs,
        vec!["#[validate(required)]".to_string(), "#[validate(frob=3)]".to_string()]
    );
}

#[test]
fn underscore_rule_names_also_accepted() {
    let f = EntityField::new("n:String|min_length=3|max_length=9").unwrap();
    assert_eq!(f.validators.rules.min_length, Some(3));
    assert_eq!(f.validators.rules.max_length, Some(9));
}

#[test]
fn numeric_rule_rejects_non_number() {
    match EntityField::new("age:i32|minLength=abc") {
        Err(NebulaError::InvalidNumericValue(v)) => assert_eq!(v, "abc"),
        other => panic!("expected invalid numeric value, got {:?}", other),
    }
}

#[test]
fn numeric_rule_rejects_overflow() {
    match EntityField::new("age:i32|minLength=99999999999999999999999999") {
        Err(NebulaError::InvalidNumericValue(_)) => {},
        other => panic!("expected invalid numeric value, got {:?}", other),
    }
}

#[test]
fn valued_rule_without_value_is_rejected() {
    match EntityField::new("age:i32|minLength") {
        Err(NebulaError::MissingRuleValue(name)) => assert_eq!(name, "minLength"),
        other => panic!("expected missing rule value, got {:?}", other),
    }
    match EntityField::new("n:String|pattern") {
        Err(NebulaError::MissingRuleValue(name)) => assert_eq!(name, "pattern"),
        other => panic!("expected missing rule value, got {:?}", other),
    }
}

#[test]
fn relation_normalization_both_forms() {
    let shorthand = EntityField::parse_relation("author->belongsTo:User").unwrap();
    let embedded = EntityField::parse_relation("author:belongs_to:User").unwrap();
    let expected = "    pub author: User,\n    pub author_id: i32,";
    assert_eq!(shorthand.to_rust_code(), expected);
    assert_eq!(embedded.to_rust_code(), expected);
    assert_eq!(shorthand.name, "author");
    assert_eq!(embedded.name, "author");
}

#[test]
fn has_one_and_has_many_render() {
    let one = EntityField::new("profile:has_one:Profile").unwrap();
    assert_eq!(one.to_rust_code(), "    pub profile: Option<Profile>,");
    let many = EntityField::new("posts:has_many:Post").unwrap();
    assert_eq!(many.to_rust_code(), "    pub posts: Vec<Post>,");
    let one_short = EntityField::parse_relation("profile->hasOne:Profile").unwrap();
    assert_eq!(one_short.to_rust_code(), "    pub profile: Option<Profile>,");
    let many_short = EntityField::parse_relation("posts->hasMany:Post").unwrap();
    assert_eq!(many_short.to_rust_code(), "    pub posts: Vec<Post>,");
}

#[test]
fn relation_with_second_arrow_is_rejected() {
    match EntityField::parse_relation("a->belongsTo:User->More") {
        Err(NebulaError::InvalidRelationFormat(f)) => assert_eq!(f, "a->belongsTo:User->More"),
        other => panic!("expected invalid relation format, got {:?}", other),
    }
}

#[test]
fn relation_without_colon_is_rejected() {
    assert!(matches!(
        EntityField::parse_relation("a->belongsTo"),
        Err(NebulaError::InvalidRelationFormat(_))
    ));
}

#[test]
fn relation_with_blank_target_is_rejected() {
    assert!(matches!(
        EntityField::parse_relation("a->belongsTo: "),
        Err(NebulaError::InvalidRelationFormat(_))
    ));
    assert!(matches!(
        EntityField::new("a:has_one:"),
        Err(NebulaError::InvalidRelationFormat(_))
    ));
}

#[test]
fn unknown_relation_keyword_is_rejected() {
    match EntityField::parse_relation("a->owns:User") {
        Err(NebulaError::InvalidRelationType(kw)) => assert_eq!(kw, "owns"),
        other => panic!("expected invalid relation type, got {:?}", other),
    }
}

#[test]
fn field_without_separator_is_rejected() {
    match EntityField::new("noseparator") {
        Err(NebulaError::InvalidFieldFormat(f)) => assert_eq!(f, "noseparator"),
        other => panic!("expected invalid field format, got {:?}", other),
    }
}

#[test]
fn invalid_scalar_type_lists_the_allowed_set() {
    match EntityField::new("x:NotAType") {
        Err(e @ NebulaError::InvalidScalarType(_)) => {
            assert_eq!(
                e.message(),
                "Invalid scalar type: 'NotAType'. Valid types are: String, i32, i64, u32, \
                 u64, f32, f64, bool, DateTime<Utc>, Vec<String>, Option<String>"
            );
        },
        other => panic!("expected invalid scalar type, got {:?}", other),
    }
}

#[test]
fn field_names_and_types_are_trimmed() {
    let f = EntityField::new(" title : String ").unwrap();
    assert_eq!(f.name, "title");
    assert_eq!(f.field_type, "String");
    assert_eq!(f.to_rust_code(), "    pub title: String,");
}

#[test]
fn entity_name_validation_short_circuits() {
    let g = EntityGenerator::new(
        "My-Entity".to_string(),
        Some("x:NotAType".to_string()),
        None,
    );
    match g.generate("") {
        Err(NebulaError::ValidationError(m)) => {
            assert_eq!(m, "Entity name must be non-empty and alphanumeric");
        },
        other => panic!("expected a validation error, got {:?}", other),
    }
    let g2 = EntityGenerator::new("".to_string(), None, None);
    assert!(matches!(g2.generate(""), Err(NebulaError::ValidationError(_))));
}

#[test]
fn blank_fragments_are_rejected() {
    let g = EntityGenerator::new(
        "Post".to_string(),
        Some("a:String,,b:i32".to_string()),
        None,
    );
    match g.generate("") {
        Err(NebulaError::ValidationError(m)) => {
            assert_eq!(m, "Field definitions cannot be empty");
        },
        other => panic!("expected a validation error, got {:?}", other),
    }
    let g2 = EntityGenerator::new(
        "Post".to_string(),
        None,
        Some("a->belongsTo:User, ".to_string()),
    );
    match g2.generate("") {
        Err(NebulaError::ValidationError(m)) => {
            assert_eq!(m, "Relation definitions cannot be empty");
        },
        other => panic!("expected a validation error, got {:?}", other),
    }
}

#[test]
fn whitespace_only_field_list_is_rejected() {
    let g = EntityGenerator::new("Post".to_string(), Some(" ".to_string()), None);
    assert!(matches!(g.generate(""), Err(NebulaError::ValidationError(_))));
}

#[test]
fn empty_input_yields_placeholder_entity() {
    for (fields, relations) in [
        (None, None),
        (Some("".to_string()), None),
        (None, Some("".to_string())),
        (Some("".to_string()), Some("".to_string())),
    ] {
        let g = EntityGenerator::new("Post".to_string(), fields, relations);
        let r = g.generate("").unwrap();
        assert_eq!(r.entity_source, get_entity_template("Post", "// Add your fields here"));
    }
}

#[test]
fn generation_is_idempotent() {
    let g = EntityGenerator::new(
        "Post".to_string(),
        Some("title:String|required".to_string()),
        Some("author->belongsTo:User".to_string()),
    );
    let first = g.generate("").unwrap();
    assert!(first.index_changed);
    assert_eq!(first.module_name, "post");
    assert_eq!(first.updated_index, "\npub mod post;");
    assert_eq!(first.module_source, "mod entity;\npub use entity::*;\n");

    let again = g.generate(&first.updated_index).unwrap();
    assert!(!again.index_changed);
    assert_eq!(again.entity_source, first.entity_source);
    assert_eq!(again.updated_index, first.updated_index);
    assert_eq!(again.updated_index.matches("pub mod post;").count(), 1);
}

#[test]
fn module_index_registration_appends_only_when_absent() {
    let (updated, changed) = EntityGenerator::update_mod_file("pub mod user;", "post");
    assert!(changed);
    assert_eq!(updated, "pub mod user;\npub mod post;");
    let (same, changed2) = EntityGenerator::update_mod_file("pub mod user;\npub mod post;", "post");
    assert!(!changed2);
    assert_eq!(same, "pub mod user;\npub mod post;");
}

#[test]
fn fields_then_relations_in_one_block() {
    let g = EntityGenerator::new(
        "Book".to_string(),
        Some("title:String".to_string()),
        Some("author->belongsTo:User".to_string()),
    );
    let r = g.generate("").unwrap();
    let expected_block = "    pub title: String,\n    pub author: User,\n    pub author_id: i32,";
    assert_eq!(r.entity_source, get_entity_template("Book", expected_block));
}

#[test]
fn mixed_case_entity_name_lowercases_module() {
    let g = EntityGenerator::new("UserProfile2".to_string(), None, None);
    let r = g.generate("").unwrap();
    assert_eq!(r.module_name, "userprofile2");
    assert_eq!(r.updated_index, "\npub mod userprofile2;");
}

#[test]
fn display_string_lists_custom_rules() {
    let plain = EntityField::new("title:String").unwrap();
    assert_eq!(plain.to_display_string(), "title: String");
    let custom = EntityField::new("x:String|foo|bar=2").unwrap();
    assert_eq!(custom.to_display_string(), "x: String [foo, bar=2]");
}

#[test]
fn error_messages_name_the_offending_input() {
    let e = NebulaError::InvalidFieldFormat("x|y".to_string());
    assert_eq!(e.message(), "Invalid field format: 'x|y'");
    let e = NebulaError::MissingRuleValue("min".to_string());
    assert_eq!(e.message(), "Missing value for rule: 'min'");
    let e = NebulaError::NotNebulaProject;
    assert_eq!(e.message(), "Not a Nebula project directory");
}
