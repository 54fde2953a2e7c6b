//! Planner for the web side of a project: one starter component file.

use vstd::prelude::*;
use vstd::string::StringExecFns;

verus! {

pub const WEB_COMPONENT: &'static str =
    "\n        fn main() {\n            println!(\"Hello, world!\");\n        }\n        ";

/// Plans the starter component of a web project.
pub struct WebGenerator;

impl WebGenerator {
    /// The starter component: the directory it goes in, its file name, and
    /// its content.
    pub fn generate(project_dir: &str) -> (r: (String, String, String))
        ensures
            r.0@ == project_dir@,
            r.1@ == "component.rs"@,
            r.2@ == WEB_COMPONENT@,
    {
        (project_dir.to_owned(), String::from_str("component.rs"), String::from_str(WEB_COMPONENT))
    }
}

} // verus!
