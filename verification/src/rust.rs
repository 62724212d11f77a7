use vstd::prelude::*;

use crate::filesystem::{basename, spec_basename};
use crate::git::{error_message, init_repository, RepositoryExt};
use crate::options::rust::{InitOptions, NewOptions, NewProjectKind, Options};
use crate::template::{render, spec_render, CtxView, TemplateContext};

verus! {

pub const LICENSE_TEMPLATE: &'static str = "// Copyright {year} {username} <{email}>\n// Licensed under either of the Apache License 2.0 or the MIT license,\n// at your option. This file may not be copied, modified, or distributed\n// except according to those terms.\n";

pub const GIT_IGNORE: &'static str = "/target\n**/*.rs.bk\n";

pub const MAIN_RS: &'static str = "fn main() {\n    println!(\"Hello, world!\");\n}\n";

pub const LIB_RS: &'static str = "pub fn add(left: u64, right: u64) -> u64 {\n    left + right\n}\n";

pub const RUSTFMT_TOML: &'static str = "max_width = 120\nuse_small_heuristics = \"Max\"\n";

pub const RUST_TOOLCHAIN: &'static str = "stable\n";

pub const LICENSE_APACHE: &'static str = "Apache License\nVersion 2.0, January 2004\nhttp://www.apache.org/licenses/\n\nLicensed under the Apache License, Version 2.0 (the \"License\");\nyou may not use this file except in compliance with the License.\nYou may obtain a copy of the License at\n\n    http://www.apache.org/licenses/LICENSE-2.0\n\nUnless required by applicable law or agreed to in writing, software\ndistributed under the License is distributed on an \"AS IS\" BASIS,\nWITHOUT WARRANTIES OR CONDITIONS OF ANY KIND, either express or implied.\nSee the License for the specific language governing permissions and\nlimitations under the License.\n";

pub const GITHUB_WORKFLOWS_CI_YML: &'static str = "name: ci\non: [push, pull_request]\njobs:\n  test:\n    runs-on: ubuntu-latest\n    steps:\n      - uses: actions/checkout@v4\n      - run: cargo build --verbose\n      - run: cargo test --verbose\n";

pub const CARGO_TOML_TEMPLATE: &'static str = "[package]\nname = \"{name}\"\nversion = \"0.1.0\"\nauthors = [\"{username} <{email}>\"]\nedition = \"{edition}\"\ndescription = \"{description}\"\n\n[dependencies]\n";

pub const README_TEMPLATE: &'static str = "# {name}\n\n{description}\n\n## License\n\nLicensed under either of the Apache License, Version 2.0 or the MIT\nlicense at your option.\n";

pub const LICENSE_MIT: &'static str = "MIT License\n\nCopyright (c) {year} {username} <{email}>\n\nPermission is hereby granted, free of charge, to any person obtaining a\ncopy of this software and associated documentation files (the\n\"Software\"), to deal in the Software without restriction, and to permit\npersons to whom the Software is furnished to do so, subject to the\nfollowing conditions: the above copyright notice and this permission\nnotice shall be included in all copies or substantial portions of the\nSoftware.\n\nTHE SOFTWARE IS PROVIDED \"AS IS\", WITHOUT WARRANTY OF ANY KIND.\n";

/// One file the materializer is to produce: where it goes and what it holds.
pub struct ProjectFile {
    pub destination: String,
    pub contents: String,
}

/// Everything a materialization run is to put on disk under the project
/// root: the directories to ensure, then the files to write, in order.
pub struct ProjectPlan {
    pub context: TemplateContext,
    pub directories: Vec<String>,
    pub files: Vec<ProjectFile>,
}

/// A failure while preparing a materialization. Failures of the steps that
/// touch the disk (directory creation, file writes) arise where the plan is
/// carried out and are reported there with the offending path.
#[derive(Debug)]
pub enum MakeError {
    RepositoryInitFailed { message: String },
    RenderFailed { destination: String },
}

/// The layout table: destinations mapped to literal content (copied
/// byte-for-byte) or template content (rendered under a context), with one
/// source stub chosen by the project kind.
pub struct RustProjectMaker {
    pub bin_file: (String, &'static str),
    pub lib_file: (String, &'static str),
    pub common_plain_files: Vec<(String, &'static str)>,
    pub templates: Vec<(String, &'static str)>,
}

pub open spec fn spec_opt_view(o: Option<String>) -> Option<Seq<char>> {
    match o {
        Some(s) => Some(s@),
        None => None,
    }
}

/// The source stub the kind selects: exactly one of the binary and the
/// library stub, never both.
pub open spec fn spec_stub(m: RustProjectMaker, kind: NewProjectKind) -> (String, &'static str) {
    if kind == NewProjectKind::Bin {
        m.bin_file
    } else {
        m.lib_file
    }
}

/// The files a successful materialization produces, in order: the literal
/// files byte-for-byte, then the templates rendered under `c`, then the
/// source stub the kind selects.
pub open spec fn spec_planned_files(
    m: RustProjectMaker,
    kind: NewProjectKind,
    c: CtxView,
) -> Seq<(Seq<char>, Seq<char>)> {
    m.common_plain_files@.map(|i: int, e: (String, &'static str)| (e.0@, e.1@))
        + m.templates@.map(|i: int, e: (String, &'static str)| (e.0@, spec_render(e.1@, c)->Ok_0))
        + seq![(spec_stub(m, kind).0@, spec_stub(m, kind).1@)]
}

/// Index of the first template that does not render under `c`, scanning
/// from `i`.
pub open spec fn spec_first_render_failure(
    ts: Seq<(String, &'static str)>,
    c: CtxView,
    i: int,
) -> Option<int>
    decreases ts.len() - i,
{
    if i >= ts.len() {
        None
    } else if spec_render(ts[i].1@, c) is Err {
        Some(i)
    } else {
        spec_first_render_failure(ts, c, i + 1)
    }
}

/// The directories every materialization ensures, parents first.
pub open spec fn spec_plan_dirs() -> Seq<Seq<char>> {
    seq![".github"@, ".github/workflows"@, "src"@]
}

/// The layout table the tool ships: field by field.
pub open spec fn spec_default_maker(m: RustProjectMaker) -> bool {
    &&& m.bin_file.0@ == "src/main.rs"@
    &&& m.bin_file.1@ == MAIN_RS@
    &&& m.lib_file.0@ == "src/lib.rs"@
    &&& m.lib_file.1@ == LIB_RS@
    &&& m.common_plain_files@.len() == 6
    &&& m.common_plain_files@[0].0@ == ".license.template"@
    &&& m.common_plain_files@[0].1@ == LICENSE_TEMPLATE@
    &&& m.common_plain_files@[1].0@ == ".gitignore"@
    &&& m.common_plain_files@[1].1@ == GIT_IGNORE@
    &&& m.common_plain_files@[2].0@ == "rustfmt.toml"@
    &&& m.common_plain_files@[2].1@ == RUSTFMT_TOML@
    &&& m.common_plain_files@[3].0@ == "rust-toolchain"@
    &&& m.common_plain_files@[3].1@ == RUST_TOOLCHAIN@
    &&& m.common_plain_files@[4].0@ == "LICENSE-APACHE"@
    &&& m.common_plain_files@[4].1@ == LICENSE_APACHE@
    &&& m.common_plain_files@[5].0@ == ".github/workflows/ci.yml"@
    &&& m.common_plain_files@[5].1@ == GITHUB_WORKFLOWS_CI_YML@
    &&& m.templates@.len() == 3
    &&& m.templates@[0].0@ == "Cargo.toml"@
    &&& m.templates@[0].1@ == CARGO_TOML_TEMPLATE@
    &&& m.templates@[1].0@ == "README.md"@
    &&& m.templates@[1].1@ == README_TEMPLATE@
    &&& m.templates@[2].0@ == "LICENSE-MIT"@
    &&& m.templates@[2].1@ == LICENSE_MIT@
}

impl RustProjectMaker {
    /// The layout table the tool ships.
    pub fn new() -> (r: RustProjectMaker)
        ensures
            spec_default_maker(r),
    {
        let bin_file = (String::from_str("src/main.rs"), MAIN_RS);
        let lib_file = (String::from_str("src/lib.rs"), LIB_RS);
        let common_plain_files: Vec<(String, &'static str)> = vec![
            (String::from_str(".license.template"), LICENSE_TEMPLATE),
            (String::from_str(".gitignore"), GIT_IGNORE),
            (String::from_str("rustfmt.toml"), RUSTFMT_TOML),
            (String::from_str("rust-toolchain"), RUST_TOOLCHAIN),
            (String::from_str("LICENSE-APACHE"), LICENSE_APACHE),
            (String::from_str(".github/workflows/ci.yml"), GITHUB_WORKFLOWS_CI_YML),
        ];
        let templates: Vec<(String, &'static str)> = vec![
            (String::from_str("Cargo.toml"), CARGO_TOML_TEMPLATE),
            (String::from_str("README.md"), README_TEMPLATE),
            (String::from_str("LICENSE-MIT"), LICENSE_MIT),
        ];
        RustProjectMaker { bin_file, lib_file, common_plain_files, templates }
    }

    /// Render and collect every file of the layout, in order: the literal
    /// files byte-for-byte, then the rendered templates, then the one source
    /// stub the kind selects. The first template that does not render stops
    /// the run and names its destination; no file of that run is produced.
    pub fn create_project_files(
        self,
        kind: NewProjectKind,
        context: &TemplateContext,
    ) -> (r: Result<Vec<ProjectFile>, MakeError>)
        requires
            context.wf(),
        ensures
            (match r {
                Ok(files) => spec_first_render_failure(self.templates@, context@, 0) is None
                    && files@.map(|i: int, f: ProjectFile| (f.destination@, f.contents@))
                    == spec_planned_files(self, kind, context@),
                Err(e) => (e matches MakeError::RenderFailed { destination } && (
                spec_first_render_failure(self.templates@, context@, 0) matches Some(k)
                    && destination@ == self.templates@[k].0@)),
            }),
    {
        let ghost m = self;
        let ghost c = context@;
        let RustProjectMaker { bin_file, lib_file, common_plain_files, templates } = self;
        let mut files: Vec<ProjectFile> = Vec::new();

        let n_plain = common_plain_files.len();
        let mut idx: usize = 0;
        while idx < n_plain
            invariant
                m == self,
                m.common_plain_files == common_plain_files,
                n_plain == common_plain_files@.len(),
                idx <= n_plain,
                files@.len() == idx,
                forall|j: int|
                    0 <= j < idx ==> files@[j].destination@ == common_plain_files@[j].0@
                        && files@[j].contents@ == common_plain_files@[j].1@,
            decreases n_plain - idx,
        {
            let destination = common_plain_files[idx].0.clone();
            let contents = common_plain_files[idx].1.to_owned();
            files.push(ProjectFile { destination, contents });
            idx = idx + 1;
        }

        let n_tpl = templates.len();
        let mut tdx: usize = 0;
        while tdx < n_tpl
            invariant
                m == self,
                m.common_plain_files == common_plain_files,
                m.templates == templates,
                context.wf(),
                c == context@,
                n_plain == common_plain_files@.len(),
                n_tpl == templates@.len(),
                tdx <= n_tpl,
                files@.len() == n_plain + tdx,
                forall|j: int|
                    0 <= j < n_plain ==> files@[j].destination@ == common_plain_files@[j].0@
                        && files@[j].contents@ == common_plain_files@[j].1@,
                forall|j: int|
                    0 <= j < tdx ==> spec_render(templates@[j].1@, c) is Ok && files@[n_plain
                        + j].destination@ == templates@[j].0@ && files@[n_plain + j].contents@
                        == spec_render(templates@[j].1@, c)->Ok_0,
                spec_first_render_failure(templates@, c, 0) == spec_first_render_failure(
                    templates@,
                    c,
                    tdx as int,
                ),
            decreases n_tpl - tdx,
        {
            match render(templates[tdx].1, context) {
                Ok(contents) => {
                    let destination = templates[tdx].0.clone();
                    files.push(ProjectFile { destination, contents });
                    assert(spec_first_render_failure(templates@, c, tdx as int)
                        == spec_first_render_failure(templates@, c, tdx as int + 1));
                    tdx = tdx + 1;
                },
                Err(_) => {
                    assert(spec_first_render_failure(templates@, c, tdx as int) == Some(
                        tdx as int,
                    ));
                    return Err(
                        MakeError::RenderFailed { destination: templates[tdx].0.clone() },
                    );
                },
            }
        }
        assert(spec_first_render_failure(templates@, c, n_tpl as int) is None);

        let stub = match kind {
            NewProjectKind::Bin => bin_file,
            NewProjectKind::Lib => lib_file,
        };
        let contents = stub.1.to_owned();
        files.push(ProjectFile { destination: stub.0, contents });

        proof {
            let lhs = files@.map(|i: int, f: ProjectFile| (f.destination@, f.contents@));
            let rhs = spec_planned_files(m, kind, c);
            assert(lhs.len() == rhs.len());
            assert forall|j: int| 0 <= j < rhs.len() implies lhs[j] == rhs[j] by {
                if j < n_plain {
                    assert(rhs[j] == (common_plain_files@[j].0@, common_plain_files@[j].1@));
                } else if j < n_plain + n_tpl {
                    assert(rhs[j] == (templates@[j - n_plain].0@, spec_render(
                        templates@[j - n_plain].1@,
                        c,
                    )->Ok_0));
                } else {
                    assert(rhs[j] == (spec_stub(m, kind).0@, spec_stub(m, kind).1@));
                }
            }
            assert(lhs =~= rhs);
        }
        Ok(files)
    }
}

/// The project name used for rendering: the explicit override verbatim when
/// one was supplied, else the stem of the target directory's final path
/// component, else the empty string.
pub open spec fn spec_resolved_name(explicit: Option<Seq<char>>, dir: Seq<char>) -> Seq<char> {
    match explicit {
        Some(n) => n,
        None => match spec_basename(dir) {
            Some(b) => b,
            None => Seq::empty(),
        },
    }
}

/// A plan that answers the request: the context holds the resolved name, the
/// edition and description verbatim and a calendar year, the directories are
/// the fixed set, and the files are exactly the layout rendered under that
/// context. The identity fields hold whatever the repository configuration
/// gave.
pub open spec fn spec_good_plan(
    m: RustProjectMaker,
    kind: NewProjectKind,
    explicit: Option<Seq<char>>,
    dir: Seq<char>,
    edition: Seq<char>,
    description: Seq<char>,
    p: ProjectPlan,
) -> bool {
    &&& p.context@.name == spec_resolved_name(explicit, dir)
    &&& p.context@.edition == edition
    &&& p.context@.description == description
    &&& p.context.wf()
    &&& p.directories@.map(|i: int, d: String| d@) == spec_plan_dirs()
    &&& spec_first_render_failure(m.templates@, p.context@, 0) is None
    &&& p.files@.map(|i: int, f: ProjectFile| (f.destination@, f.contents@))
        == spec_planned_files(m, kind, p.context@)
}

/// A reported rendering failure names the destination of a template of the
/// table that does not render.
pub open spec fn spec_render_failure_reported(m: RustProjectMaker, e: MakeError) -> bool {
    e matches MakeError::RenderFailed { destination } ==> exists|c: CtxView|
        (#[trigger] spec_first_render_failure(m.templates@, c, 0) matches Some(k)
            && destination@ == m.templates@[k].0@)
}

fn resolve_name(explicit: Option<String>, project_dir: &str) -> (r: String)
    ensures
        r@ == spec_resolved_name(spec_opt_view(explicit), project_dir@),
{
    match explicit {
        Some(n) => n,
        None => match basename(project_dir) {
            Some(b) => b,
            None => String::new(),
        },
    }
}

impl RustProjectMaker {
    /// The complete instruction set for one materialization under a given
    /// context: the directories to ensure and the files to write, in order.
    pub fn plan(self, kind: NewProjectKind, context: TemplateContext) -> (r: Result<
        ProjectPlan,
        MakeError,
    >)
        requires
            context.wf(),
        ensures
            (match r {
                Ok(p) => p.context@ == context@ && p.context.wf() && p.directories@.map(
                    |i: int, d: String| d@,
                ) == spec_plan_dirs() && spec_first_render_failure(self.templates@, context@, 0)
                    is None && p.files@.map(|i: int, f: ProjectFile| (f.destination@, f.contents@))
                    == spec_planned_files(self, kind, context@),
                Err(e) => (e matches MakeError::RenderFailed { destination } && (
                spec_first_render_failure(self.templates@, context@, 0) matches Some(k)
                    && destination@ == self.templates@[k].0@)),
            }),
    {
        let directories: Vec<String> = vec![
            String::from_str(".github"),
            String::from_str(".github/workflows"),
            String::from_str("src"),
        ];
        proof {
            assert(directories@.map(|i: int, d: String| d@) =~= spec_plan_dirs());
        }
        match self.create_project_files(kind, &context) {
            Ok(files) => Ok(ProjectPlan { context, directories, files }),
            Err(e) => Err(e),
        }
    }

    /// Scaffold in an existing directory: initialize the repository there,
    /// read the configured identity, resolve the project name, and plan the
    /// layout under the resulting context.
    fn initialize_project(self, options: InitOptions, project_dir: String) -> (r: Result<
        ProjectPlan,
        MakeError,
    >)
        ensures
            (match r {
                Ok(p) => spec_good_plan(
                    self,
                    options.kind,
                    spec_opt_view(options.name),
                    project_dir@,
                    options.edition@,
                    options.description@,
                    p,
                ),
                Err(e) => spec_render_failure_reported(self, e),
            }),
    {
        let repository = match init_repository(project_dir.as_str()) {
            Ok(repository) => repository,
            Err(e) => {
                return Err(MakeError::RepositoryInitFailed { message: error_message(&e) });
            },
        };
        let username = repository.get_username();
        let email = repository.get_email();
        let name = resolve_name(options.name, project_dir.as_str());
        let context = TemplateContext::new(username, email, name, options.edition,
            options.description);
        let ghost c = context@;
        match self.plan(options.kind, context) {
            Ok(p) => Ok(p),
            Err(e) => {
                proof {
                    assert(spec_first_render_failure(self.templates@, c, 0) matches Some(k)
                        ==> spec_render_failure_reported(self, e));
                }
                Err(e)
            },
        }
    }

    /// Scaffold under the given path. The directory itself is created by the
    /// caller or by the repository initialization; everything else is as for
    /// scaffolding in place.
    fn new_project(self, options: NewOptions) -> (r: Result<ProjectPlan, MakeError>)
        ensures
            (match r {
                Ok(p) => spec_good_plan(
                    self,
                    options.kind,
                    spec_opt_view(options.name),
                    options.path@,
                    options.edition@,
                    options.description@,
                    p,
                ),
                Err(e) => spec_render_failure_reported(self, e),
            }),
    {
        let NewOptions { path, kind, name, edition, description } = options;
        let repository = match init_repository(path.as_str()) {
            Ok(repository) => repository,
            Err(e) => {
                return Err(MakeError::RepositoryInitFailed { message: error_message(&e) });
            },
        };
        let username = repository.get_username();
        let email = repository.get_email();
        let resolved = resolve_name(name, path.as_str());
        let context = TemplateContext::new(username, email, resolved, edition, description);
        let ghost c = context@;
        match self.plan(kind, context) {
            Ok(p) => Ok(p),
            Err(e) => {
                proof {
                    assert(spec_first_render_failure(self.templates@, c, 0) matches Some(k)
                        ==> spec_render_failure_reported(self, e));
                }
                Err(e)
            },
        }
    }

    /// Dispatch one invocation: scaffolding in place works in
    /// `current_dir`, scaffolding anew works under the requested path.
    pub fn execute(self, options: Options, current_dir: String) -> (r: Result<
        ProjectPlan,
        MakeError,
    >)
        ensures
            (match r {
                Ok(p) => (match options {
                    Options::Init(o) => spec_good_plan(
                        self,
                        o.kind,
                        spec_opt_view(o.name),
                        current_dir@,
                        o.edition@,
                        o.description@,
                        p,
                    ),
                    Options::New(o) => spec_good_plan(
                        self,
                        o.kind,
                        spec_opt_view(o.name),
                        o.path@,
                        o.edition@,
                        o.description@,
                        p,
                    ),
                }),
                Err(e) => spec_render_failure_reported(self, e),
            }),
    {
        match options {
            Options::Init(o) => self.initialize_project(o, current_dir),
            Options::New(o) => self.new_project(o),
        }
    }
}

/// The destinations of a materialization, in order: they depend on the
/// maker and the kind alone, never on the context.
pub open spec fn spec_dest_seq(m: RustProjectMaker, kind: NewProjectKind) -> Seq<Seq<char>> {
    m.common_plain_files@.map(|i: int, e: (String, &'static str)| e.0@) + m.templates@.map(
        |i: int, e: (String, &'static str)| e.0@,
    ) + seq![spec_stub(m, kind).0@]
}

/// The set of destinations the kind dictates.
pub open spec fn spec_dest_set(m: RustProjectMaker, kind: NewProjectKind) -> Set<Seq<char>> {
    spec_dest_seq(m, kind).to_set()
}

/// The destinations of the planned files are exactly those the kind
/// dictates, whatever the context rendered.
pub proof fn lemma_planned_destinations(m: RustProjectMaker, kind: NewProjectKind, c: CtxView)
    ensures
        spec_planned_files(m, kind, c).map(|i: int, f: (Seq<char>, Seq<char>)| f.0)
            == spec_dest_seq(m, kind),
{
    let lhs = spec_planned_files(m, kind, c).map(|i: int, f: (Seq<char>, Seq<char>)| f.0);
    let rhs = spec_dest_seq(m, kind);
    let n1 = m.common_plain_files@.len();
    let n2 = m.templates@.len();
    assert(lhs.len() == rhs.len());
    assert forall|j: int| 0 <= j < rhs.len() implies lhs[j] == rhs[j] by {
        if j < n1 {
            assert(spec_planned_files(m, kind, c)[j] == (
                m.common_plain_files@[j].0@,
                m.common_plain_files@[j].1@,
            ));
            assert(rhs[j] == m.common_plain_files@[j].0@);
        } else if j < n1 + n2 {
            assert(spec_planned_files(m, kind, c)[j] == (
                m.templates@[j - n1].0@,
                spec_render(m.templates@[j - n1].1@, c)->Ok_0,
            ));
            assert(rhs[j] == m.templates@[j - n1].0@);
        } else {
            assert(spec_planned_files(m, kind, c)[j] == (
                spec_stub(m, kind).0@,
                spec_stub(m, kind).1@,
            ));
            assert(rhs[j] == spec_stub(m, kind).0@);
        }
    }
    assert(lhs =~= rhs);
}

/// Materializing twice over the same maker and kind is idempotent in
/// structure: both runs plan exactly the same destinations in the same
/// order, while each run's file contents come from its own context.
pub proof fn lemma_plan_structure_idempotent(
    m: RustProjectMaker,
    kind: NewProjectKind,
    c1: CtxView,
    c2: CtxView,
)
    ensures
        spec_planned_files(m, kind, c1).map(|i: int, f: (Seq<char>, Seq<char>)| f.0)
            == spec_planned_files(m, kind, c2).map(|i: int, f: (Seq<char>, Seq<char>)| f.0),
{
    lemma_planned_destinations(m, kind, c1);
    lemma_planned_destinations(m, kind, c2);
}

proof fn lemma_first_failure_independent(
    ts: Seq<(String, &'static str)>,
    c1: CtxView,
    c2: CtxView,
    i: int,
)
    ensures
        (spec_first_render_failure(ts, c1, i) is None) == (spec_first_render_failure(ts, c2, i)
            is None),
    decreases ts.len() - i,
{
    if i < ts.len() {
        crate::template::lemma_render_success_independent(ts[i].1@, c1, c2);
        if !(spec_render(ts[i].1@, c1) is Err) {
            lemma_first_failure_independent(ts, c1, c2, i + 1);
        }
    }
}

/// Whether a materialization succeeds depends on the templates alone, never
/// on the context's values: missing identity configuration yields empty
/// identity fields in the rendered output, not a failure of the operation.
pub proof fn lemma_plan_success_independent(m: RustProjectMaker, c1: CtxView, c2: CtxView)
    ensures
        (spec_first_render_failure(m.templates@, c1, 0) is None) == (spec_first_render_failure(
            m.templates@,
            c2,
            0,
        ) is None),
{
    lemma_first_failure_independent(m.templates@, c1, c2, 0);
}

proof fn lemma_default_dest_facts()
    ensures
        ".license.template"@.len() == 17 && ".license.template"@[0] == '.',
        ".gitignore"@.len() == 10 && ".gitignore"@[0] == '.',
        "rustfmt.toml"@.len() == 12 && "rustfmt.toml"@[0] == 'r',
        "rust-toolchain"@.len() == 14 && "rust-toolchain"@[0] == 'r',
        "LICENSE-APACHE"@.len() == 14 && "LICENSE-APACHE"@[0] == 'L',
        ".github/workflows/ci.yml"@.len() == 24 && ".github/workflows/ci.yml"@[0] == '.',
        "Cargo.toml"@.len() == 10 && "Cargo.toml"@[0] == 'C',
        "README.md"@.len() == 9 && "README.md"@[0] == 'R',
        "LICENSE-MIT"@.len() == 11 && "LICENSE-MIT"@[0] == 'L',
        "src/main.rs"@.len() == 11 && "src/main.rs"@[0] == 's',
        "src/lib.rs"@.len() == 10 && "src/lib.rs"@[0] == 's',
        "rustfmt.toml"@[4] == 'f' && "rust-toolchain"@[4] == '-',
        ".license.template"@[1] == 'l' && ".gitignore"@[1] == 'g',
{
    reveal_strlit(".license.template");
    reveal_strlit(".gitignore");
    reveal_strlit("rustfmt.toml");
    reveal_strlit("rust-toolchain");
    reveal_strlit("LICENSE-APACHE");
    reveal_strlit(".github/workflows/ci.yml");
    reveal_strlit("Cargo.toml");
    reveal_strlit("README.md");
    reveal_strlit("LICENSE-MIT");
    reveal_strlit("src/main.rs");
    reveal_strlit("src/lib.rs");
}

/// The shipped table maps each destination at most once: a materialization
/// produces no duplicate destinations, whichever kind is chosen.
pub proof fn lemma_default_destinations_unique(m: RustProjectMaker, kind: NewProjectKind)
    requires
        spec_default_maker(m),
    ensures
        forall|i: int, j: int|
            0 <= i < j < spec_dest_seq(m, kind).len() ==> spec_dest_seq(m, kind)[i]
                != spec_dest_seq(m, kind)[j],
{
    lemma_default_dest_facts();
    let d = spec_dest_seq(m, kind);
    assert(d.len() == 10);
    assert(d[0] == ".license.template"@);
    assert(d[1] == ".gitignore"@);
    assert(d[2] == "rustfmt.toml"@);
    assert(d[3] == "rust-toolchain"@);
    assert(d[4] == "LICENSE-APACHE"@);
    assert(d[5] == ".github/workflows/ci.yml"@);
    assert(d[6] == "Cargo.toml"@);
    assert(d[7] == "README.md"@);
    assert(d[8] == "LICENSE-MIT"@);
    assert(d[9] == spec_stub(m, kind).0@);
    assert(d[9] == "src/main.rs"@ || d[9] == "src/lib.rs"@);
    assert forall|i: int, j: int| 0 <= i < j < d.len() implies d[i] != d[j] by {
        assert(d[i].len() != d[j].len() || d[i][0] != d[j][0] || d[i][1] != d[j][1] || d[i][4]
            != d[j][4]);
    }
}

/// The binary and the library file sets differ in exactly one entry: the
/// binary set holds the binary stub where the library set holds the library
/// stub, and the two agree on every other destination.
pub proof fn lemma_kind_sets_differ_in_one_entry(m: RustProjectMaker)
    requires
        spec_default_maker(m),
    ensures
        spec_dest_set(m, NewProjectKind::Bin) != spec_dest_set(m, NewProjectKind::Lib),
        spec_dest_set(m, NewProjectKind::Bin).contains("src/main.rs"@),
        !spec_dest_set(m, NewProjectKind::Lib).contains("src/main.rs"@),
        spec_dest_set(m, NewProjectKind::Lib).contains("src/lib.rs"@),
        !spec_dest_set(m, NewProjectKind::Bin).contains("src/lib.rs"@),
        spec_dest_set(m, NewProjectKind::Bin).remove("src/main.rs"@) == spec_dest_set(
            m,
            NewProjectKind::Lib,
        ).remove("src/lib.rs"@),
{
    lemma_default_dest_facts();
    lemma_default_destinations_unique(m, NewProjectKind::Bin);
    lemma_default_destinations_unique(m, NewProjectKind::Lib);
    let bin = spec_dest_seq(m, NewProjectKind::Bin);
    let lib = spec_dest_seq(m, NewProjectKind::Lib);
    let main_d = "src/main.rs"@;
    let lib_d = "src/lib.rs"@;
    assert(bin.len() == 10 && lib.len() == 10);
    assert forall|i: int| 0 <= i < 9 implies bin[i] == lib[i] by {}
    assert(bin[9] == main_d && lib[9] == lib_d);
    assert(main_d != lib_d);

    assert(bin.contains(main_d));
    assert(lib.contains(lib_d));
    assert(spec_dest_set(m, NewProjectKind::Bin).contains(main_d));
    assert(spec_dest_set(m, NewProjectKind::Lib).contains(lib_d));

    assert forall|i: int| 0 <= i < 9 implies lib[i] != main_d && bin[i] != lib_d by {
        assert(lib[i].len() != main_d.len() || lib[i][0] != main_d[0]);
        assert(bin[i].len() != lib_d.len() || bin[i][0] != lib_d[0]);
    }
    assert(!lib.contains(main_d));
    assert(!bin.contains(lib_d));
    assert(!spec_dest_set(m, NewProjectKind::Lib).contains(main_d));
    assert(!spec_dest_set(m, NewProjectKind::Bin).contains(lib_d));
    assert(spec_dest_set(m, NewProjectKind::Bin) != spec_dest_set(m, NewProjectKind::Lib));

    let bs = spec_dest_set(m, NewProjectKind::Bin).remove(main_d);
    let ls = spec_dest_set(m, NewProjectKind::Lib).remove(lib_d);
    assert forall|x: Seq<char>| bs.contains(x) == ls.contains(x) by {
        if bs.contains(x) {
            let i = choose|i: int| 0 <= i < bin.len() && bin[i] == x;
            assert(i != 9);
            assert(lib[i] == x);
            assert(ls.contains(x));
        }
        if ls.contains(x) {
            let i = choose|i: int| 0 <= i < lib.len() && lib[i] == x;
            assert(i != 9);
            assert(bin[i] == x);
            assert(bs.contains(x));
        }
    }
    assert(bs =~= ls);
}

} // verus!
