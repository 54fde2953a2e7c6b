//! Planner for the client side of a project: one starter component file
//! under a dedicated client directory.

use vstd::prelude::*;
use vstd::string::StringExecFns;

verus! {

pub const CLIENT_COMPONENT: &'static str =
    "\n        // Composant g\u{e9}n\u{e9}r\u{e9} par Nebula\n        fn main() {\n            println!(\"Hello, world!\");\n        }\n        ";

/// Plans the starter component of a client project.
pub struct ClientGenerator;

impl ClientGenerator {
    /// The starter component: the client directory it goes in, its file
    /// name, and its content.
    pub fn generate(project_dir: &str) -> (r: (String, String, String))
        ensures
            r.0@ == project_dir@ + "/client"@,
            r.1@ == "component.rs"@,
            r.2@ == CLIENT_COMPONENT@,
    {
        let mut dir = project_dir.to_owned();
        dir.append("/client");
        (dir, String::from_str("component.rs"), String::from_str(CLIENT_COMPONENT))
    }
}

} // verus!
