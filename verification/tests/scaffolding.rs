use nebula::commands::GenerateArgs;
use nebula::commands::GenerateCommand;
use nebula::errors::NebulaError;
use nebula::generator::EntityGenerator;
use nebula::scaffold::api::ApiGenerator;
use nebula::scaffold::client::ClientGenerator;
use nebula::scaffold::server::HandlerGenerator;
use nebula::scaffold::server::MigrationGenerator;
use nebula::scaffold::server::ResolverGenerator;
use nebula::scaffold::server::RoutesGenerator;
use nebula::scaffold::server::ServerGenerator;
use nebula::scaffold::web::WebGenerator;
use nebula::template;
use nebula::templating::load_template;
use nebula::templating::replace_placeholders;
use nebula::tools::check_is_nebula_project;
use nebula::tools::get_project_config;
use nebula::types::FileType;
use nebula::types::ProjectType;

#[test]
fn generate_command_runs_the_entity_generator() {
    let args = GenerateArgs::Entity {
        name: "Note".to_string(),
        fields: Some("body:String|required".to_string()),
        relations: None,
    };
    let by_command = GenerateCommand::run(args, "").unwrap();
    let direct = EntityGenerator::new(
        "Note".to_string(),
        Some("body:String|required".to_string()),
        None,
    )
    .generate("")
    .unwrap();
    assert_eq!(by_command.entity_source, direct.entity_source);
    assert_eq!(by_command.updated_index, direct.updated_index);
}

#[test]
fn base_path_follows_project_type() {
    let g = EntityGenerator::new("Post".to_string(), None, None);
    assert_eq!(g.get_base_path(ProjectType::Api).unwrap(), "src/");
    assert_eq!(g.get_base_path(ProjectType::Full).unwrap(), "api/src/");
    assert!(matches!(
        g.get_base_path(ProjectType::Web),
        Err(NebulaError::InvalidOptions(_))
    ));
}

#[test]
fn api_plan_lists_the_four_files() {
    let api = ApiGenerator::new("./demo");
    assert_eq!(api.api_dir, "./demo");
    let plan = api.generate("demo");
    let paths: Vec<&str> = plan.iter().map(|p| p.0.as_str()).collect();
    assert_eq!(paths, vec!["Cargo.toml", "src/main.rs", "src/server.rs", "src/route.rs"]);
    assert_eq!(plan[0].1, template::get_cargo_template("demo"));
    assert_eq!(plan[1].1, template::get_main_template());
}

#[test]
fn server_plan_maps_templates_to_targets() {
    let server = ServerGenerator::new("./demo");
    let plan = server.generate();
    assert_eq!(
        plan,
        vec![
            ("server/cargo.toml".to_string(), "cargo.toml".to_string()),
            ("server/main.toml".to_string(), "src/main.rs".to_string()),
            ("server/server.toml".to_string(), "src/server.rs".to_string()),
            ("server/route.toml".to_string(), "src/route.rs".to_string()),
        ]
    );
}

#[test]
fn server_entity_generator_is_a_no_op() {
    let g = nebula::scaffold::server::EntityGenerator::new("Post".to_string());
    assert_eq!(g.name, "Post");
    assert!(g.generate().is_ok());
}

#[test]
fn part_generators_build_paths_and_contents() {
    let (path, content) = HandlerGenerator::generate("srv", "fn handler() {}");
    assert_eq!(path, "srv/handler.rs");
    assert_eq!(content, "fn handler() {}");

    let (path, content) = MigrationGenerator::generate("srv", "-- db: {{database}} --", "Postgres");
    assert_eq!(path, "srv/migration.rs");
    assert_eq!(content, "-- db: Postgres --");

    let (path, _) = ResolverGenerator::generate("srv", "x");
    assert_eq!(path, "srv/resolver.rs");
    let (path, _) = RoutesGenerator::generate("srv", "x");
    assert_eq!(path, "srv/routes.rs");
}

#[test]
fn web_and_client_components() {
    let (dir, file, content) = WebGenerator::generate("./demo");
    assert_eq!(dir, "./demo");
    assert_eq!(file, "component.rs");
    assert!(content.contains("fn main()"));

    let (dir, file, _) = ClientGenerator::generate("./demo");
    assert_eq!(dir, "./demo/client");
    assert_eq!(file, "component.rs");
}

#[test]
fn placeholders_replace_every_occurrence_in_order() {
    let pairs = vec![
        ("name".to_string(), "World".to_string()),
        ("greet".to_string(), "Hello".to_string()),
    ];
    let out = replace_placeholders("{{greet}} {{name}}, {{name}}!", &pairs);
    assert_eq!(out, "Hello World, World!");
    let none: Vec<(String, String)> = Vec::new();
    assert_eq!(replace_placeholders("as is", &none), "as is");
}

#[test]
fn template_loading_extracts_the_content_entry() {
    let ok = load_template("content = \"fn main() {}\"\nother = 3\n", "a.toml");
    assert_eq!(ok.unwrap(), "fn main() {}");

    match load_template("not [valid toml", "b.toml") {
        Err(NebulaError::TomlParse(m)) => assert!(m.contains("b.toml")),
        other => panic!("expected a TOML parse error, got {:?}", other),
    }

    match load_template("other = 3\n", "c.toml") {
        Err(NebulaError::InvalidOptions(m)) => {
            assert_eq!(m, "Missing 'content' key in 'c.toml'");
        },
        other => panic!("expected a missing-content error, got {:?}", other),
    }
}

#[test]
fn project_environment_checks() {
    assert!(check_is_nebula_project(true).is_ok());
    assert!(matches!(
        check_is_nebula_project(false),
        Err(NebulaError::NotNebulaProject)
    ));

    assert_eq!(get_project_config(true, false, false).unwrap(), ProjectType::Api);
    assert_eq!(get_project_config(false, true, true).unwrap(), ProjectType::Full);
    assert_eq!(get_project_config(false, true, false).unwrap(), ProjectType::Web);
    assert!(matches!(
        get_project_config(true, true, true),
        Err(NebulaError::InvalidProjectStructure)
    ));
}

#[test]
fn project_and_file_type_names_parse() {
    assert_eq!(ProjectType::from_str("WEB").unwrap(), ProjectType::Web);
    assert_eq!(ProjectType::from_str("api").unwrap(), ProjectType::Api);
    assert_eq!(ProjectType::from_str("Full").unwrap(), ProjectType::Full);
    assert!(matches!(
        ProjectType::from_str("desktop"),
        Err(NebulaError::InvalidOptions(_))
    ));
    assert_eq!(ProjectType::Api.as_str(), "api");
    assert_eq!(ProjectType::Web.as_str(), "web");
    assert_eq!(ProjectType::Full.as_str(), "full");

    assert_eq!(FileType::from_str("Entity").unwrap(), FileType::Entity);
    assert_eq!(FileType::from_str("routes").unwrap(), FileType::Routes);
    assert!(matches!(FileType::from_str("view"), Err(NebulaError::InvalidOptions(_))));
}

#[test]
fn env_template_substitutes_the_project_name() {
    let out = template::get_env_template("myapp");
    assert_eq!(
        out,
        "# Database Configuration\nDB_HOST=127.0.0.1\nDB_PORT=5432\nDB_USER=postgres\n\
         DB_PASSWORD=postgres\nDB_NAME=myapp\n\n# Api Configuration\nSERVER_HOST=127.0.0.1\n\
         SERVER_PORT=8080\nAPI_VERSION=v1\nLOG_LEVEL=debug\n\n# Web Configuration\n\
         APP_HOST=127.0.0.1\nAPP_PORT=3000\nNODE_ENV=development"
    );
}

#[test]
fn readme_template_substitutes_the_project_name() {
    let out = template::get_readme_template("demo");
    assert!(out.starts_with("# demo\n\n## Prerequisites\n"));
    assert!(out.contains("cd demo\n"));
}

#[test]
fn cargo_template_substitutes_the_package_name() {
    let out = template::get_cargo_template("demo");
    assert!(out.starts_with("[package]\nname = \"demo\"\nversion = \"0.1.0\"\n"));
    assert!(out.contains("axum = { version = \"0.8.0\", features = [\"macros\"] }"));
}

#[test]
fn nebula_template_substitutes_all_slots() {
    let out = template::get_nebula_template("demo", "api", "postgresql", "rest");
    assert!(out.starts_with("[project]\nname = \"demo\"\ntype = \"api\""));
    assert!(out.contains("database = \"postgresql\""));
    assert!(out.contains("server_type = \"rest\""));
    assert!(out.contains("DB_NAME = \"demo\""));
    assert!(out.contains("container_name = \"demo\""));
}

#[test]
fn fixed_templates_have_their_known_shape() {
    assert!(template::get_gitignore_template().starts_with("# Dependencies\n/node_modules\n"));
    assert!(template::get_main_template().contains("#[tokio::main]"));
    assert!(template::get_server_template().contains("pub struct Server;"));
    assert!(template::get_route_template().contains("pub fn configure() -> Router {"));
}
