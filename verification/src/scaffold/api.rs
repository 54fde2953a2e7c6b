//! Planner for a fresh API project: the files it is made of and their
//! rendered contents.

use vstd::prelude::*;
use vstd::string::StringExecFns;

use crate::template;

verus! {

/// Plans the files of a new API project under one directory.
pub struct ApiGenerator {
    pub api_dir: String,
}

impl ApiGenerator {
    /// Remember the project directory the plan is for.
    pub fn new(api_dir: &str) -> (r: Self)
        ensures
            r.api_dir@ == api_dir@,
    {
        ApiGenerator { api_dir: api_dir.to_owned() }
    }

    /// The files of a new API project, as `(relative path, content)` pairs,
    /// in the order they are created.
    pub fn generate(&self, project_name: &str) -> (r: Vec<(String, String)>)
        ensures
            r.deep_view() =~= seq![
                ("Cargo.toml"@, template::spec_cargo_template(project_name@)),
                ("src/main.rs"@, template::spec_main_template()),
                ("src/server.rs"@, template::spec_server_template()),
                ("src/route.rs"@, template::spec_route_template()),
            ],
    {
        let mut out: Vec<(String, String)> = Vec::new();
        out.push((String::from_str("Cargo.toml"), template::get_cargo_template(project_name)));
        out.push((String::from_str("src/main.rs"), template::get_main_template()));
        out.push((String::from_str("src/server.rs"), template::get_server_template()));
        out.push((String::from_str("src/route.rs"), template::get_route_template()));
        proof {
            assert(out.deep_view() =~~= seq![
                ("Cargo.toml"@, template::spec_cargo_template(project_name@)),
                ("src/main.rs"@, template::spec_main_template()),
                ("src/server.rs"@, template::spec_server_template()),
                ("src/route.rs"@, template::spec_route_template()),
            ]);
        }
        out
    }
}

} // verus!
