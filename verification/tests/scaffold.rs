use make_project::datetime::{current_timestamp, current_year, is_leap_year, year_from_timestamp};
use make_project::filesystem::basename;
use make_project::options::rust::{InitOptions, NewOptions, NewProjectKind, Options};
use make_project::rust::{
    MakeError, RustProjectMaker, CARGO_TOML_TEMPLATE, GIT_IGNORE, LIB_RS, MAIN_RS,
};
use make_project::template::{render, year_string, RenderError, TemplateContext};

fn fixed_context() -> TemplateContext {
    TemplateContext::with_year(
        "Alice".to_string(),
        "alice@example.com".to_string(),
        "demo".to_string(),
        "2021".to_string(),
        "A demo project".to_string(),
        2024,
    )
}

#[test]
pub fn test_current_year() {
    // the instant 2022-04-15T05:20:00Z falls in the calendar year 2022
    assert_eq!(2022, year_from_timestamp(1_650_000_000));
    // the system clock reads an instant after the year this tool was written
    assert!(current_year() >= 2022);
    assert!(current_timestamp() > 1_600_000_000);
}

#[test]
fn test_year_from_timestamp_edges() {
    assert_eq!(1970, year_from_timestamp(0));
    assert_eq!(1970, year_from_timestamp(365 * 24 * 60 * 60 - 1));
    assert_eq!(1971, year_from_timestamp(365 * 24 * 60 * 60));
    // 2000-01-01T00:00:00Z
    assert_eq!(2000, year_from_timestamp(946_684_800));
    // one second before 2000-01-01
    assert_eq!(1999, year_from_timestamp(946_684_799));
    // far future readings cap at the largest four-digit year
    assert_eq!(9999, year_from_timestamp(u64::MAX));
}

#[test]
fn test_is_leap_year() {
    assert!(is_leap_year(2000));
    assert!(!is_leap_year(1900));
    assert!(is_leap_year(2024));
    assert!(!is_leap_year(2023));
    assert!(!is_leap_year(2100));
}

#[test]
fn test_year_string() {
    assert_eq!("2022", year_string(2022));
    assert_eq!("1970", year_string(1970));
    assert_eq!("9999", year_string(9999));
    assert_eq!("0007", year_string(7));
}

#[test]
fn test_basename() {
    assert_eq!(Some("demo".to_string()), basename("./demo"));
    assert_eq!(Some("demo".to_string()), basename("demo/"));
    assert_eq!(Some("b".to_string()), basename("/a/b.txt"));
    assert_eq!(Some("foo.tar".to_string()), basename("foo.tar.gz"));
    assert_eq!(Some(".gitignore".to_string()), basename(".gitignore"));
    assert_eq!(None, basename(""));
    assert_eq!(None, basename("/"));
    assert_eq!(None, basename(".."));
    assert_eq!(None, basename("a/.."));
}

#[test]
fn test_kind_from_str() {
    assert!(matches!(NewProjectKind::from_str("bin"), Ok(NewProjectKind::Bin)));
    assert!(matches!(NewProjectKind::from_str("lib"), Ok(NewProjectKind::Lib)));
    let err = NewProjectKind::from_str("exe").unwrap_err();
    assert_eq!("exe", err.input);
}

#[test]
fn test_render_substitutes_every_field() {
    let ctx = fixed_context();
    let out = render("{username}|{email}|{name}|{edition}|{description}|{year}", &ctx).unwrap();
    assert_eq!("Alice|alice@example.com|demo|2021|A demo project|2024", out);
}

#[test]
fn test_render_literal_text_is_copied() {
    let ctx = fixed_context();
    let out = render("# demo readme, no placeholders", &ctx).unwrap();
    assert_eq!("# demo readme, no placeholders", out);
}

#[test]
fn test_render_is_deterministic() {
    let ctx = fixed_context();
    let first = render("Hello {name}, year {year}!", &ctx).unwrap();
    let second = render("Hello {name}, year {year}!", &ctx).unwrap();
    assert_eq!(first, second);
    assert_eq!("Hello demo, year 2024!", first);
}

#[test]
fn test_render_leaves_no_markers() {
    let ctx = fixed_context();
    let out = render(CARGO_TOML_TEMPLATE, &ctx).unwrap();
    assert!(!out.contains('{'));
    assert!(!out.contains('}'));
}

#[test]
fn test_render_unknown_field_fails() {
    let ctx = fixed_context();
    let err = render("before {bogus} after", &ctx).unwrap_err();
    match err {
        RenderError::UnknownField { name } => assert_eq!("bogus", name),
        RenderError::Unbalanced => panic!("expected an unknown-field failure"),
    }
}

#[test]
fn test_render_unbalanced_fails() {
    let ctx = fixed_context();
    assert!(matches!(render("open {name", &ctx), Err(RenderError::Unbalanced)));
    assert!(matches!(render("stray } here", &ctx), Err(RenderError::Unbalanced)));
}

#[test]
fn test_render_empty_identity_is_not_a_failure() {
    let ctx = TemplateContext::with_year(
        String::new(),
        String::new(),
        "demo".to_string(),
        "2021".to_string(),
        String::new(),
        2024,
    );
    let out = render("[{username}][{email}]", &ctx).unwrap();
    assert_eq!("[][]", out);
}

fn destinations(maker: RustProjectMaker, kind: NewProjectKind, ctx: &TemplateContext) -> Vec<String> {
    let files = maker.create_project_files(kind, ctx).unwrap();
    let mut names: Vec<String> = files.into_iter().map(|f| f.destination).collect();
    names.sort();
    names
}

#[test]
fn test_file_sets_differ_in_exactly_one_entry() {
    let ctx = fixed_context();
    let bin = destinations(RustProjectMaker::new(), NewProjectKind::Bin, &ctx);
    let lib = destinations(RustProjectMaker::new(), NewProjectKind::Lib, &ctx);
    assert_ne!(bin, lib);
    assert!(bin.contains(&"src/main.rs".to_string()));
    assert!(!bin.contains(&"src/lib.rs".to_string()));
    assert!(lib.contains(&"src/lib.rs".to_string()));
    assert!(!lib.contains(&"src/main.rs".to_string()));
    let bin_rest: Vec<&String> = bin.iter().filter(|d| d.as_str() != "src/main.rs").collect();
    let lib_rest: Vec<&String> = lib.iter().filter(|d| d.as_str() != "src/lib.rs").collect();
    assert_eq!(bin_rest, lib_rest);
    assert_eq!(10, bin.len());
    // no duplicate destinations
    for i in 1..bin.len() {
        assert_ne!(bin[i - 1], bin[i]);
    }
}

#[test]
fn test_materializing_twice_keeps_the_structure() {
    let ctx1 = fixed_context();
    let ctx2 = TemplateContext::with_year(
        "Bob".to_string(),
        "bob@example.com".to_string(),
        "other".to_string(),
        "2018".to_string(),
        "Another".to_string(),
        2025,
    );
    let first = destinations(RustProjectMaker::new(), NewProjectKind::Bin, &ctx1);
    let second = destinations(RustProjectMaker::new(), NewProjectKind::Bin, &ctx2);
    assert_eq!(first, second);
    // while the contents of an overwritten file reflect the second run's context
    let files = RustProjectMaker::new().create_project_files(NewProjectKind::Bin, &ctx2).unwrap();
    let cargo = files.iter().find(|f| f.destination == "Cargo.toml").unwrap();
    assert!(cargo.contents.contains("name = \"other\""));
    assert!(cargo.contents.contains("edition = \"2018\""));
}

#[test]
fn test_missing_identity_still_materializes() {
    let ctx = TemplateContext::with_year(
        String::new(),
        String::new(),
        "demo".to_string(),
        "2021".to_string(),
        String::new(),
        2024,
    );
    let files = RustProjectMaker::new().create_project_files(NewProjectKind::Bin, &ctx).unwrap();
    let cargo = files.iter().find(|f| f.destination == "Cargo.toml").unwrap();
    assert!(cargo.contents.contains("authors = [\" <>\"]"));
}

#[test]
fn test_new_demo_scenario() {
    // `new ./demo`, no name override, edition default, kind binary
    let name = basename("./demo").unwrap_or_default();
    assert_eq!("demo", name);
    let ctx = TemplateContext::with_year(
        String::new(),
        String::new(),
        name,
        "2021".to_string(),
        String::new(),
        2024,
    );
    let files = RustProjectMaker::new().create_project_files(NewProjectKind::Bin, &ctx).unwrap();
    let main = files.iter().find(|f| f.destination == "src/main.rs").unwrap();
    assert_eq!(MAIN_RS, main.contents);
    let ignore = files.iter().find(|f| f.destination == ".gitignore").unwrap();
    assert_eq!(GIT_IGNORE, ignore.contents);
    let cargo = files.iter().find(|f| f.destination == "Cargo.toml").unwrap();
    assert_eq!(
        "[package]\nname = \"demo\"\nversion = \"0.1.0\"\nauthors = [\" <>\"]\nedition = \"2021\"\ndescription = \"\"\n\n[dependencies]\n",
        cargo.contents
    );
}

#[test]
fn test_render_failure_names_the_destination() {
    // a table with a template that names an undeclared field
    let maker = RustProjectMaker {
        bin_file: ("src/main.rs".to_string(), MAIN_RS),
        lib_file: ("src/lib.rs".to_string(), LIB_RS),
        common_plain_files: vec![("keep.txt".to_string(), "kept\n")],
        templates: vec![("broken.txt".to_string(), "{bogus}")],
    };
    let ctx = fixed_context();
    match maker.create_project_files(NewProjectKind::Bin, &ctx) {
        Err(MakeError::RenderFailed { destination }) => assert_eq!("broken.txt", destination),
        Err(MakeError::RepositoryInitFailed { .. }) => panic!("unexpected repository failure"),
        Ok(_) => panic!("a template naming an undeclared field must not render"),
    }
}

#[test]
fn test_plan_lists_directories_parents_first() {
    let ctx = fixed_context();
    let plan = RustProjectMaker::new().plan(NewProjectKind::Bin, ctx).unwrap();
    assert_eq!(vec![".github", ".github/workflows", "src"], plan.directories);
    assert_eq!(10, plan.files.len());
}

#[test]
fn test_execute_new_lib_scenario() {
    // `new` with --kind=lib --name=foo: the plan holds the library stub, not
    // the binary one, and the manifest embeds `foo`, not the directory name
    let options = Options::New(NewOptions {
        path: "/tmp/make_project_scratch_lib".to_string(),
        kind: NewProjectKind::Lib,
        name: Some("foo".to_string()),
        edition: "2021".to_string(),
        description: String::new(),
    });
    let plan = RustProjectMaker::new()
        .execute(options, String::new())
        .expect("repository initialization in a fresh directory must succeed");
    assert!(plan.files.iter().any(|f| f.destination == "src/lib.rs"));
    assert!(!plan.files.iter().any(|f| f.destination == "src/main.rs"));
    let cargo = plan.files.iter().find(|f| f.destination == "Cargo.toml").unwrap();
    assert!(cargo.contents.contains("name = \"foo\""));

    // initializing the same directory again succeeds: repository
    // initialization is idempotent
    let options = Options::Init(InitOptions {
        kind: NewProjectKind::Lib,
        name: Some("foo".to_string()),
        edition: "2021".to_string(),
        description: String::new(),
    });
    let plan = RustProjectMaker::new()
        .execute(options, "/tmp/make_project_scratch_lib".to_string())
        .expect("reinitializing an existing repository must succeed");
    assert!(plan.files.iter().any(|f| f.destination == "src/lib.rs"));
}

#[test]
fn test_execute_init_derives_name_from_directory() {
    let options = Options::Init(InitOptions {
        kind: NewProjectKind::Bin,
        name: None,
        edition: "2021".to_string(),
        description: "demo tool".to_string(),
    });
    let plan = RustProjectMaker::new()
        .execute(options, "/tmp/make_project_scratch_named".to_string())
        .expect("repository initialization must succeed");
    let cargo = plan.files.iter().find(|f| f.destination == "Cargo.toml").unwrap();
    assert!(cargo.contents.contains("name = \"make_project_scratch_named\""));
    assert!(cargo.contents.contains("description = \"demo tool\""));
}

#[test]
fn test_execute_reports_repository_failure() {
    let options = Options::New(NewOptions {
        path: "/dev/null/not_a_directory".to_string(),
        kind: NewProjectKind::Bin,
        name: None,
        edition: "2021".to_string(),
        description: String::new(),
    });
    match RustProjectMaker::new().execute(options, String::new()) {
        Err(MakeError::RepositoryInitFailed { message }) => assert!(!message.is_empty()),
        Err(MakeError::RenderFailed { .. }) => panic!("unexpected render failure"),
        Ok(_) => panic!("initializing a repository under /dev/null must fail"),
    }
}
