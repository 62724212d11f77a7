use make_project::cli::haskell;
use make_project::cli::rust as cli_rust;
use make_project::cli::{Cli, SubCommands};
use make_project::haskell::ProjectMaker;
use make_project::options::rust::Options;

#[test]
fn test_cli_args_convert_to_options() {
    let args = cli_rust::Args::New(cli_rust::NewArgs {
        path: "./demo".to_string(),
        kind: cli_rust::NewProjectKind::Lib,
        name: Some("foo".to_string()),
        edition: "2018".to_string(),
        description: "d".to_string(),
    });
    match args.into_options() {
        Options::New(o) => {
            assert_eq!("./demo", o.path);
            assert!(matches!(o.kind, make_project::options::rust::NewProjectKind::Lib));
            assert_eq!(Some("foo".to_string()), o.name);
            assert_eq!("2018", o.edition);
            assert_eq!("d", o.description);
        },
        Options::Init(_) => panic!("a `new` argument set must convert to `new` options"),
    }

    let args = cli_rust::Args::Init(cli_rust::InitArgs {
        kind: cli_rust::NewProjectKind::Bin,
        name: None,
        edition: "2021".to_string(),
        description: String::new(),
    });
    match args.into_options() {
        Options::Init(o) => {
            assert!(matches!(o.kind, make_project::options::rust::NewProjectKind::Bin));
            assert_eq!(None, o.name);
            assert_eq!("2021", o.edition);
            assert_eq!("", o.description);
        },
        Options::New(_) => panic!("an `init` argument set must convert to `init` options"),
    }
}

#[test]
fn test_cli_carries_a_subcommand() {
    let cli = Cli {
        subcommand: SubCommands::Haskell(haskell::Args::Init(haskell::InitArgs { name: None })),
    };
    assert!(matches!(cli.subcommand, SubCommands::Haskell(haskell::Args::Init(_))));
    let _maker = ProjectMaker::new();
}
