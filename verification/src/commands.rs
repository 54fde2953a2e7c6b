//! The command surface of the tool: the argument shapes the binary parses
//! into, and the dispatch of the generate command.

use vstd::prelude::*;

use crate::errors::NebulaError;
use crate::errors::ErrorSpec;
use crate::generator::EntityGenerator;
use crate::generator::GeneratedEntity;
use crate::generator::GeneratedSpec;
use crate::generator::GeneratorSpec;
use crate::generator::spec_generate;
use crate::types::ProjectType;

verus! {

/// Arguments of the new-project command.
#[derive(Debug, Clone)]
pub struct NewArgs {
    pub name: String,
    pub opt: Option<ProjectType>,
}

/// Arguments of the generate command.
#[derive(Debug, Clone)]
pub enum GenerateArgs {
    Entity { name: String, fields: Option<String>, relations: Option<String> },
    Handler { name: String },
}

/// The commands the tool accepts.
#[derive(Debug, Clone)]
pub enum Commands {
    New(NewArgs),
    Generate { opts: GenerateArgs },
}

/// The parsed command line.
#[derive(Debug, Clone)]
pub struct Cli {
    pub command: Commands,
}

/// The generator inputs an entity generate command stands for.
pub open spec fn spec_entity_args(args: GenerateArgs) -> GeneratorSpec
    recommends
        args is Entity,
{
    GeneratorSpec {
        name: args->Entity_name@,
        fields: match args->Entity_fields {
            Some(s) => Some(s@),
            None => None,
        },
        relations: match args->Entity_relations {
            Some(s) => Some(s@),
            None => None,
        },
    }
}

/// Dispatch of the generate command.
pub struct GenerateCommand;

impl GenerateCommand {
    /// Run the entity generation these arguments describe, against the
    /// module index text as it stands.  Handler generation does not exist
    /// yet, so those arguments are not accepted.
    pub fn run(args: GenerateArgs, existing_index: &str) -> (r: Result<GeneratedEntity, NebulaError>)
        requires
            args is Entity,
        ensures
            match r {
                Ok(g) => spec_generate(spec_entity_args(args), existing_index@) == Ok::<
                    GeneratedSpec,
                    ErrorSpec,
                >(g@),
                Err(e) => spec_generate(spec_entity_args(args), existing_index@) == Err::<
                    GeneratedSpec,
                    ErrorSpec,
                >(e@),
            },
    {
        match args {
            GenerateArgs::Entity { name, fields, relations } => EntityGenerator::new(
                name,
                fields,
                relations,
            ).generate(existing_index),
            GenerateArgs::Handler { name: _ } => Err(NebulaError::InvalidOptions(String::new())),
        }
    }
}

} // verus!
