//! The fixed source-text templates of generated projects, and their
//! parameter substitution.  Each renderer's contract pins the produced text
//! exactly, so regeneration is deterministic.

use vstd::prelude::*;
use vstd::string::StringExecFns;

verus! {

pub const ENV_HEAD: &'static str =
    "# Database Configuration\nDB_HOST=127.0.0.1\nDB_PORT=5432\nDB_USER=postgres\nDB_PASSWORD=postgres\nDB_NAME=";

pub const ENV_TAIL: &'static str =
    "\n\n# Api Configuration\nSERVER_HOST=127.0.0.1\nSERVER_PORT=8080\nAPI_VERSION=v1\nLOG_LEVEL=debug\n\n# Web Configuration\nAPP_HOST=127.0.0.1\nAPP_PORT=3000\nNODE_ENV=development";

/// The environment file of a new project.
pub open spec fn spec_env_template(name: Seq<char>) -> Seq<char> {
    ENV_HEAD@ + name + ENV_TAIL@
}

/// Render the environment file for a project name.
pub fn get_env_template(name: &str) -> (r: String)
    ensures
        r@ == spec_env_template(name@),
{
    let mut out = String::from_str(ENV_HEAD);
    out.append(name);
    out.append(ENV_TAIL);
    out
}

pub const GITIGNORE: &'static str =
    "# Dependencies\n/node_modules\n/target\n/dist\n/build\n/.pnp\n.pnp.js\ncargo.lock\n\n# Testing\n/coverage\n\n# Production\n/build\n\n# Environment Variables\n.env\n.env.*\n!.env.example\n\n# IDE - VSCode\n.vscode/*\n!.vscode/settings.json\n!.vscode/tasks.json\n!.vscode/launch.json\n!.vscode/extensions.json\n\n# IDE - IntelliJ\n.idea/\n*.iml\n*.iws\n\n# IDE - Vim\n*.swp\n*.swo\n\n# Logs\nlogs\n*.log\nnpm-debug.log*\nyarn-debug.log*\nyarn-error.log*\n\n# OS\n.DS_Store\n.DS_Store?\n._*\n.Spotlight-V100\n.Trashes\nehthumbs.db\nThumbs.db\n\n# Database\n*.sqlite\n*.sqlite3\n*.db\n/database\n\n# Rust specific\ndebug/\ntarget/\n**/*.rs.bk\nCargo.lock\n\n# Generated documentation\n/doc";

/// The ignore file of a new project.
pub open spec fn spec_gitignore_template() -> Seq<char> {
    GITIGNORE@
}

/// Render the ignore file.
pub fn get_gitignore_template() -> (r: String)
    ensures
        r@ == spec_gitignore_template(),
{
    String::from_str(GITIGNORE)
}

pub const NEBULA_T0: &'static str = "[project]\nname = \"";

pub const NEBULA_T1: &'static str = "\"\ntype = \"";

pub const NEBULA_T2: &'static str = "\"  # web, api, full\ndatabase = \"";

pub const NEBULA_T3: &'static str = "\"  # mysql, postgresql, mariadb, mongodb\nserver_type = \"";

pub const NEBULA_T4: &'static str =
    "\"  # rest, graphql\n\n[paths]\nsrc = \"src\"\napi = \"src/api\"\nweb = \"src/web\"\nmigrations = \"migrations\"\ntemplates = \"templates\"\nstatic = \"static\"\ntests = \"tests\"\n\n[environment]\n# Database Configuration\nDB_HOST = \"127.0.0.1\"\nDB_PORT = \"5432\"\nDB_USER = \"postgres\"\nDB_PASSWORD = \"postgres\"\nDB_NAME = \"";

pub const NEBULA_T5: &'static str =
    "\"\n\n# Backend Configuration\nSERVER_HOST = \"127.0.0.1\"\nSERVER_PORT = \"8080\"\nAPI_VERSION = \"v1\"\nLOG_LEVEL = \"debug\"\n\n# Frontend Configuration\nAPP_HOST = \"127.0.0.1\"\nAPP_PORT = \"3000\"\nNODE_ENV = \"development\"\n\n[deployment]\nprovider = \"docker\"\ncontainer_name = \"";

pub const NEBULA_T6: &'static str =
    "\"\ndocker_image = \"rust:latest\"\ndocker_compose = true\n\n[security]\njwt_enabled = true\ncors_enabled = true\nrate_limit = true\nallowed_origins = [\"http://localhost:3000\"]";

/// The project configuration file.
pub open spec fn spec_nebula_template(
    name: Seq<char>,
    project_type: Seq<char>,
    database: Seq<char>,
    server_type: Seq<char>,
) -> Seq<char> {
    NEBULA_T0@ + name + NEBULA_T1@ + project_type + NEBULA_T2@ + database + NEBULA_T3@
        + server_type + NEBULA_T4@ + name + NEBULA_T5@ + name + NEBULA_T6@
}

/// Render the project configuration file.
pub fn get_nebula_template(
    name: &str,
    project_type: &str,
    database: &str,
    server_type: &str,
) -> (r: String)
    ensures
        r@ == spec_nebula_template(name@, project_type@, database@, server_type@),
{
    let mut out = String::from_str(NEBULA_T0);
    out.append(name);
    out.append(NEBULA_T1);
    out.append(project_type);
    out.append(NEBULA_T2);
    out.append(database);
    out.append(NEBULA_T3);
    out.append(server_type);
    out.append(NEBULA_T4);
    out.append(name);
    out.append(NEBULA_T5);
    out.append(name);
    out.append(NEBULA_T6);
    out
}

pub const README_T0: &'static str = "# ";

pub const README_T1: &'static str =
    "\n\n## Prerequisites\n- Rust (latest stable)\n- PostgreSQL\n- Node.js (if using frontend)\n\n## Quick Start\n\n### Installation\n```bash\n# Clone the repository\ngit clone <repository-url>\ncd ";

pub const README_T2: &'static str =
    "\n\n# Install dependencies\ncargo build\n\n# Set up environment variables\ncp .env.example .env\n\n# Run migrations\ncargo run -- db migrate\n\n# Start the server\ncargo run\n";

/// The project's top-level documentation file.
pub open spec fn spec_readme_template(name: Seq<char>) -> Seq<char> {
    README_T0@ + name + README_T1@ + name + README_T2@
}

/// Render the documentation file for a project name.
pub fn get_readme_template(name: &str) -> (r: String)
    ensures
        r@ == spec_readme_template(name@),
{
    let mut out = String::from_str(README_T0);
    out.append(name);
    out.append(README_T1);
    out.append(name);
    out.append(README_T2);
    out
}

pub const CARGO_T0: &'static str = "[package]\nname = \"";

pub const CARGO_T1: &'static str =
    "\"\nversion = \"0.1.0\"\nedition = \"2021\"\n\n[dependencies]\ntokio = { version = \"1.0\", features = [\"full\"] }\naxum = { version = \"0.8.0\", features = [\"macros\"] }\nserde = { version = \"1.0\", features = [\"derive\"] }\nserde_json = \"1.0\"\ntower = \"0.5.2\"\ntower-http = { version = \"0.6.2\", features = [\"cors\"] }\ndotenvy = \"0.15\"\ntracing = \"0.1\"\ntracing-subscriber = { version = \"0.3\", features = [\"env-filter\"] }\nthiserror = \"2.0.10\"\nchrono = { version = \"0.4\", features = [\"serde\"] }\nvalidator = { version = \"0.20.0\", features = [\"derive\"] }\nasync-graphql = { version = \"5.0.7\", features = [\"chrono\"] }";

/// The manifest of a generated project.
pub open spec fn spec_cargo_template(name: Seq<char>) -> Seq<char> {
    CARGO_T0@ + name + CARGO_T1@
}

/// Render the manifest for a project name.
pub fn get_cargo_template(name: &str) -> (r: String)
    ensures
        r@ == spec_cargo_template(name@),
{
    let mut out = String::from_str(CARGO_T0);
    out.append(name);
    out.append(CARGO_T1);
    out
}

pub const ENTITY_T0: &'static str =
    "use serde::{Deserialize, Serialize};\nuse async_graphql::{SimpleObject, InputObject};\nuse validator::Validate;\nuse chrono::{DateTime, Utc};\n\n#[derive(Debug, Clone, Serialize, Deserialize, SimpleObject, Validate)]\npub struct ";

pub const ENTITY_T1: &'static str = " {\n    #[serde(default)]\n    pub id: i32,\n    ";

pub const ENTITY_T2: &'static str =
    ",\n    pub created_at: Option<DateTime<Utc>>,\n    pub updated_at: Option<DateTime<Utc>>\n}\n\n#[derive(InputObject, Validate)]\npub struct ";

pub const ENTITY_T3: &'static str = "Input {\n    ";

pub const ENTITY_T4: &'static str = "\n}\n\n#[derive(InputObject)]\npub struct Update";

pub const ENTITY_T5: &'static str = "Input {\n    ";

pub const ENTITY_T6: &'static str = "\n}";

/// The generated entity source unit: the entity type and its input and
/// update variants, with the rendered field block substituted in.
pub open spec fn spec_entity_template(name: Seq<char>, fields: Seq<char>) -> Seq<char> {
    ENTITY_T0@ + name + ENTITY_T1@ + fields + ENTITY_T2@ + name + ENTITY_T3@ + fields + ENTITY_T4@
        + name + ENTITY_T5@ + fields + ENTITY_T6@
}

/// Render the entity source unit for an entity name and field block.
pub fn get_entity_template(name: &str, fields: &str) -> (r: String)
    ensures
        r@ == spec_entity_template(name@, fields@),
{
    let mut out = String::from_str(ENTITY_T0);
    out.append(name);
    out.append(ENTITY_T1);
    out.append(fields);
    out.append(ENTITY_T2);
    out.append(name);
    out.append(ENTITY_T3);
    out.append(fields);
    out.append(ENTITY_T4);
    out.append(name);
    out.append(ENTITY_T5);
    out.append(fields);
    out.append(ENTITY_T6);
    out
}

pub const MAIN_TEMPLATE: &'static str =
    "mod server;\nmod route;\nmod middleware;\n\nuse dotenv::dotenv;\n\n#[tokio::main]\nasync fn main() -> Result<(), Box<dyn std::error::Error>> {\n    // Initialize logging\n    tracing_subscriber::fmt::init();\n    \n    // Load environment variables\n    dotenv().ok();\n\n    // Start server\n    server::Server::run().await?;\n    \n    Ok(())\n}\n";

/// The entry point of a generated server.
pub open spec fn spec_main_template() -> Seq<char> {
    MAIN_TEMPLATE@
}

/// Render the entry-point file.
pub fn get_main_template() -> (r: String)
    ensures
        r@ == spec_main_template(),
{
    String::from_str(MAIN_TEMPLATE)
}

pub const SERVER_TEMPLATE: &'static str =
    "use std::env;\nuse std::net::SocketAddr;\nuse axum::{routing::get, Router};\nuse tokio::net::TcpListener;\nuse crate::route;\nuse crate::middleware;\n\n#[derive(Debug)]\npub struct Server;\n\nimpl Server {\n    pub async fn run() -> Result<(), Box<dyn std::error::Error>> {\n        // Load environment variables\n        let host = env::var(\"SERVER_HOST\").unwrap_or_else(|_| \"127.0.0.1\".to_string());\n        let port: u16 = env::var(\"SERVER_PORT\")\n            .unwrap_or_else(|_| \"3000\".to_string())\n            .parse()\n            .expect(\"SERVER_PORT must be a valid integer\");\n\n        // Configure server address\n        let addr: SocketAddr = format!(\"{}:{}\", host, port)\n            .parse()\n            .expect(\"Failed to parse socket address\");\n\n        // Setup routes and middleware\n        let app = Router::new()\n            .merge(route::configure())\n            .layer(middleware::cors());\n\n        // Create and bind TCP listener\n        let listener = TcpListener::bind(addr).await?;\n            \n        println!(\"\u{1F680} Server started on http://{}\", addr);\n        \n        // Start server\n        axum::serve(listener, app).await?;\n        Ok(())\n    }\n}\n";

/// The server bootstrap file of a generated project.
pub open spec fn spec_server_template() -> Seq<char> {
    SERVER_TEMPLATE@
}

/// Render the server bootstrap file.
pub fn get_server_template() -> (r: String)
    ensures
        r@ == spec_server_template(),
{
    String::from_str(SERVER_TEMPLATE)
}

pub const ROUTE_TEMPLATE: &'static str =
    "use axum::{\n    routing::{get, post},\n    Router,\n    response::Json,\n};\nuse serde_json::json;\n\npub fn configure() -> Router {\n    Router::new()\n        .route(\"/\", get(health_check))\n        .route(\"/api/v1/hello\", get(hello_world))\n}\n\nasync fn health_check() -> Json<serde_json::Value> {\n    Json(json!({\n        \"status\": \"ok\",\n        \"version\": env!(\"CARGO_PKG_VERSION\"),\n        \"name\": env!(\"CARGO_PKG_NAME\")\n    }))\n}\n\nasync fn hello_world() -> Json<serde_json::Value> {\n    Json(json!({\n        \"message\": \"Hello, World!\"\n    }))\n}\n";

/// The route table of a generated project.
pub open spec fn spec_route_template() -> Seq<char> {
    ROUTE_TEMPLATE@
}

/// Render the route table file.
pub fn get_route_template() -> (r: String)
    ensures
        r@ == spec_route_template(),
{
    String::from_str(ROUTE_TEMPLATE)
}

} // verus!
