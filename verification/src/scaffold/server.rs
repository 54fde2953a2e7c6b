//! Planners for the server side of a project: which template file fills
//! which target file, and the per-part generators that substitute
//! placeholders into loaded template text.

use vstd::prelude::*;
use vstd::string::StringExecFns;

use crate::errors::NebulaError;
use crate::templating;

verus! {

/// Plans the files of a new server project under one directory.
pub struct ServerGenerator {
    pub project_dir: String,
}

impl ServerGenerator {
    /// Remember the project directory the plan is for.
    pub fn new(project_dir: &str) -> (r: Self)
        ensures
            r.project_dir@ == project_dir@,
    {
        ServerGenerator { project_dir: project_dir.to_owned() }
    }

    /// The manifest file: which template fills which target.
    pub fn init_cargo(&self) -> (r: (String, String))
        ensures
            r.0@ == "server/cargo.toml"@,
            r.1@ == "cargo.toml"@,
    {
        (String::from_str("server/cargo.toml"), String::from_str("cargo.toml"))
    }

    /// The entry-point file: which template fills which target.
    pub fn init_main(&self) -> (r: (String, String))
        ensures
            r.0@ == "server/main.toml"@,
            r.1@ == "src/main.rs"@,
    {
        (String::from_str("server/main.toml"), String::from_str("src/main.rs"))
    }

    /// The server bootstrap file: which template fills which target.
    pub fn init_server(&self) -> (r: (String, String))
        ensures
            r.0@ == "server/server.toml"@,
            r.1@ == "src/server.rs"@,
    {
        (String::from_str("server/server.toml"), String::from_str("src/server.rs"))
    }

    /// The route table file: which template fills which target.
    pub fn init_route(&self) -> (r: (String, String))
        ensures
            r.0@ == "server/route.toml"@,
            r.1@ == "src/route.rs"@,
    {
        (String::from_str("server/route.toml"), String::from_str("src/route.rs"))
    }

    /// All files of a new server project, as `(template path, target path)`
    /// pairs, in the order they are created.
    pub fn generate(&self) -> (r: Vec<(String, String)>)
        ensures
            r.deep_view() =~= seq![
                ("server/cargo.toml"@, "cargo.toml"@),
                ("server/main.toml"@, "src/main.rs"@),
                ("server/server.toml"@, "src/server.rs"@),
                ("server/route.toml"@, "src/route.rs"@),
            ],
    {
        let mut out: Vec<(String, String)> = Vec::new();
        out.push(self.init_cargo());
        out.push(self.init_main());
        out.push(self.init_server());
        out.push(self.init_route());
        proof {
            assert(out.deep_view() =~~= seq![
                ("server/cargo.toml"@, "cargo.toml"@),
                ("server/main.toml"@, "src/main.rs"@),
                ("server/server.toml"@, "src/server.rs"@),
                ("server/route.toml"@, "src/route.rs"@),
            ]);
        }
        out
    }
}

/// Planner for a server-side entity file.  Nothing is generated for it yet.
pub struct EntityGenerator {
    pub name: String,
}

impl EntityGenerator {
    /// Remember the entity name.
    pub fn new(name: String) -> (r: Self)
        ensures
            r.name@ == name@,
    {
        EntityGenerator { name }
    }

    /// Generate nothing, successfully: the server-side entity file has no
    /// content of its own yet.
    pub fn generate(&self) -> (r: Result<(), NebulaError>)
        ensures
            r is Ok,
    {
        Ok(())
    }
}

/// Renders the handler file from its loaded template text.
pub struct HandlerGenerator;

impl HandlerGenerator {
    /// The handler file: its path under the server directory and its
    /// content, the template text with no substitutions.
    pub fn generate(server_dir: &str, template: &str) -> (r: (String, String))
        ensures
            r.0@ == server_dir@ + "/handler.rs"@,
            r.1@ == template@,
    {
        let mut path = server_dir.to_owned();
        path.append("/handler.rs");
        let none: Vec<(String, String)> = Vec::new();
        let content = templating::replace_placeholders(template, &none);
        proof {
            assert(none.deep_view() =~= Seq::<(Seq<char>, Seq<char>)>::empty());
        }
        (path, content)
    }
}

/// Renders the migration file from its loaded template text.
pub struct MigrationGenerator;

impl MigrationGenerator {
    /// The migration file: its path under the server directory and its
    /// content, the template text with the database name substituted.
    pub fn generate(server_dir: &str, template: &str, database: &str) -> (r: (String, String))
        ensures
            r.0@ == server_dir@ + "/migration.rs"@,
            r.1@ == templating::spec_apply_replacements(
                template@,
                seq![("database"@, database@)],
            ),
    {
        let mut path = server_dir.to_owned();
        path.append("/migration.rs");
        let mut pairs: Vec<(String, String)> = Vec::new();
        pairs.push((String::from_str("database"), database.to_owned()));
        let content = templating::replace_placeholders(template, &pairs);
        proof {
            assert(pairs.deep_view() =~~= seq![("database"@, database@)]);
        }
        (path, content)
    }
}

/// Renders the resolver file from its loaded template text.
pub struct ResolverGenerator;

impl ResolverGenerator {
    /// The resolver file: its path under the server directory and its
    /// content, the template text with no substitutions.
    pub fn generate(server_dir: &str, template: &str) -> (r: (String, String))
        ensures
            r.0@ == server_dir@ + "/resolver.rs"@,
            r.1@ == template@,
    {
        let mut path = server_dir.to_owned();
        path.append("/resolver.rs");
        let none: Vec<(String, String)> = Vec::new();
        let content = templating::replace_placeholders(template, &none);
        proof {
            assert(none.deep_view() =~= Seq::<(Seq<char>, Seq<char>)>::empty());
        }
        (path, content)
    }
}

/// Renders the route collection file from its loaded template text.
pub struct RoutesGenerator;

impl RoutesGenerator {
    /// The routes file: its path under the server directory and its
    /// content, the template text with no substitutions.
    pub fn generate(server_dir: &str, template: &str) -> (r: (String, String))
        ensures
            r.0@ == server_dir@ + "/routes.rs"@,
            r.1@ == template@,
    {
        let mut path = server_dir.to_owned();
        path.append("/routes.rs");
        let none: Vec<(String, String)> = Vec::new();
        let content = templating::replace_placeholders(template, &none);
        proof {
            assert(none.deep_view() =~= Seq::<(Seq<char>, Seq<char>)>::empty());
        }
        (path, content)
    }
}

} // verus!
