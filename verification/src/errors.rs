//! Typed errors for the entity definition compiler.
//!
//! Every parse or validation failure is reported as one of these variants,
//! carrying the offending input so the user can correct it.  The
//! mathematical model of an error is [`ErrorSpec`], which pairs the same
//! variant with the view of the carried text.

use vstd::prelude::*;
use vstd::string::StringExecFns;

verus! {

/// Model of [`NebulaError`]: the same variants over character sequences.
#[verifier::ext_equal]
pub ghost enum ErrorSpec {
    FileSystem(Seq<char>),
    InvalidOptions(Seq<char>),
    ValidationError(Seq<char>),
    InvalidFieldFormat(Seq<char>),
    InvalidRelationFormat(Seq<char>),
    InvalidRelationType(Seq<char>),
    MissingRuleValue(Seq<char>),
    InvalidNumericValue(Seq<char>),
    InvalidScalarType(Seq<char>),
    NotNebulaProject,
    InvalidProjectStructure,
    TomlParse(Seq<char>),
}

/// An input or environment problem reported to the caller.
#[derive(Debug, Clone)]
pub enum NebulaError {
    /// A read or write of the project tree failed; carries a description.
    FileSystem(String),
    /// A caller-supplied option was not usable; carries a description.
    InvalidOptions(String),
    /// The entity definition violated a structural rule; carries a description.
    ValidationError(String),
    /// A field fragment lacked its `name:type` separator; carries the fragment.
    InvalidFieldFormat(String),
    /// A relation fragment had the wrong shape; carries the fragment.
    InvalidRelationFormat(String),
    /// A relation keyword was not recognized; carries the keyword.
    InvalidRelationType(String),
    /// A valued validation rule came without `=value`; carries the rule name.
    MissingRuleValue(String),
    /// A length rule's value was not a non-negative integer; carries the value.
    InvalidNumericValue(String),
    /// A declared type is outside the allow-list; carries the type.
    InvalidScalarType(String),
    /// The working directory is not a nebula project.
    NotNebulaProject,
    /// The project directory layout matches no known project type.
    InvalidProjectStructure,
    /// A template file was not valid TOML; carries the parser's message.
    TomlParse(String),
}

impl View for NebulaError {
    type V = ErrorSpec;

    open spec fn view(&self) -> ErrorSpec {
        match self {
            NebulaError::FileSystem(s) => ErrorSpec::FileSystem(s@),
            NebulaError::InvalidOptions(s) => ErrorSpec::InvalidOptions(s@),
            NebulaError::ValidationError(s) => ErrorSpec::ValidationError(s@),
            NebulaError::InvalidFieldFormat(s) => ErrorSpec::InvalidFieldFormat(s@),
            NebulaError::InvalidRelationFormat(s) => ErrorSpec::InvalidRelationFormat(s@),
            NebulaError::InvalidRelationType(s) => ErrorSpec::InvalidRelationType(s@),
            NebulaError::MissingRuleValue(s) => ErrorSpec::MissingRuleValue(s@),
            NebulaError::InvalidNumericValue(s) => ErrorSpec::InvalidNumericValue(s@),
            NebulaError::InvalidScalarType(s) => ErrorSpec::InvalidScalarType(s@),
            NebulaError::NotNebulaProject => ErrorSpec::NotNebulaProject,
            NebulaError::InvalidProjectStructure => ErrorSpec::InvalidProjectStructure,
            NebulaError::TomlParse(s) => ErrorSpec::TomlParse(s@),
        }
    }
}

/// The user-facing text of an error.
pub open spec fn spec_message(e: ErrorSpec) -> Seq<char> {
    match e {
        ErrorSpec::FileSystem(d) => "File system error: "@ + d,
        ErrorSpec::InvalidOptions(d) => "Invalid option: "@ + d,
        ErrorSpec::ValidationError(d) => "Validation error: "@ + d,
        ErrorSpec::InvalidFieldFormat(d) => "Invalid field format: '"@ + d + "'"@,
        ErrorSpec::InvalidRelationFormat(d) => "Invalid relation format: '"@ + d + "'"@,
        ErrorSpec::InvalidRelationType(d) => "Invalid relation type: '"@ + d + "'"@,
        ErrorSpec::MissingRuleValue(d) => "Missing value for rule: '"@ + d + "'"@,
        ErrorSpec::InvalidNumericValue(d) => "Invalid numeric value: '"@ + d + "'"@,
        ErrorSpec::InvalidScalarType(d) => "Invalid scalar type: '"@ + d + "'. Valid types are: "@
            + crate::field::ALLOWED_TYPES_TEXT@,
        ErrorSpec::NotNebulaProject => "Not a Nebula project directory"@,
        ErrorSpec::InvalidProjectStructure => "Invalid project structure"@,
        ErrorSpec::TomlParse(d) => "TOML parsing error: "@ + d,
    }
}

impl NebulaError {
    /// Render the error as one user-facing line.
    pub fn message(&self) -> (r: String)
        ensures
            r@ == spec_message(self@),
    {
        let mut out = String::new();
        match self {
            NebulaError::FileSystem(d) => {
                out.append("File system error: ");
                out.append(d.as_str());
            },
            NebulaError::InvalidOptions(d) => {
                out.append("Invalid option: ");
                out.append(d.as_str());
            },
            NebulaError::ValidationError(d) => {
                out.append("Validation error: ");
                out.append(d.as_str());
            },
            NebulaError::InvalidFieldFormat(d) => {
                out.append("Invalid field format: '");
                out.append(d.as_str());
                out.append("'");
            },
            NebulaError::InvalidRelationFormat(d) => {
                out.append("Invalid relation format: '");
                out.append(d.as_str());
                out.append("'");
            },
            NebulaError::InvalidRelationType(d) => {
                out.append("Invalid relation type: '");
                out.append(d.as_str());
                out.append("'");
            },
            NebulaError::MissingRuleValue(d) => {
                out.append("Missing value for rule: '");
                out.append(d.as_str());
                out.append("'");
            },
            NebulaError::InvalidNumericValue(d) => {
                out.append("Invalid numeric value: '");
                out.append(d.as_str());
                out.append("'");
            },
            NebulaError::InvalidScalarType(d) => {
                out.append("Invalid scalar type: '");
                out.append(d.as_str());
                out.append("'. Valid types are: ");
                out.append(crate::field::ALLOWED_TYPES_TEXT);
            },
            NebulaError::NotNebulaProject => {
                out.append("Not a Nebula project directory");
            },
            NebulaError::InvalidProjectStructure => {
                out.append("Invalid project structure");
            },
            NebulaError::TomlParse(d) => {
                out.append("TOML parsing error: ");
                out.append(d.as_str());
            },
        }
        out
    }
}

} // verus!
