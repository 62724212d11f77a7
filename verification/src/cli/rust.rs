use vstd::prelude::*;

use crate::options::rust::{InitOptions, NewOptions, Options};

verus! {

/// The project kind as the command line names it.
#[derive(Clone, Copy, Debug, PartialEq, Eq, Structural)]
pub enum NewProjectKind {
    Bin,
    Lib,
}

/// Create a new package in an existing directory.
pub struct InitArgs {
    pub kind: NewProjectKind,
    pub name: Option<String>,
    pub edition: String,
    pub description: String,
}

/// Create a new package under a given path.
pub struct NewArgs {
    pub path: String,
    pub kind: NewProjectKind,
    pub name: Option<String>,
    pub edition: String,
    pub description: String,
}

pub enum Args {
    Init(InitArgs),
    New(NewArgs),
}

pub open spec fn spec_kind_option(k: NewProjectKind) -> crate::options::rust::NewProjectKind {
    match k {
        NewProjectKind::Bin => crate::options::rust::NewProjectKind::Bin,
        NewProjectKind::Lib => crate::options::rust::NewProjectKind::Lib,
    }
}

impl NewProjectKind {
    pub fn into_kind(self) -> (r: crate::options::rust::NewProjectKind)
        ensures
            r == spec_kind_option(self),
    {
        match self {
            NewProjectKind::Bin => crate::options::rust::NewProjectKind::Bin,
            NewProjectKind::Lib => crate::options::rust::NewProjectKind::Lib,
        }
    }
}

impl Args {
    /// The options the command-line arguments stand for, field for field.
    pub fn into_options(self) -> (r: Options)
        ensures
            (match (self, r) {
                (Args::Init(a), Options::Init(o)) => {
                    &&& o.kind == spec_kind_option(a.kind)
                    &&& o.name == a.name
                    &&& o.edition == a.edition
                    &&& o.description == a.description
                },
                (Args::New(a), Options::New(o)) => {
                    &&& o.path == a.path
                    &&& o.kind == spec_kind_option(a.kind)
                    &&& o.name == a.name
                    &&& o.edition == a.edition
                    &&& o.description == a.description
                },
                _ => false,
            }),
    {
        match self {
            Args::Init(a) => Options::Init(
                InitOptions {
                    kind: a.kind.into_kind(),
                    name: a.name,
                    edition: a.edition,
                    description: a.description,
                },
            ),
            Args::New(a) => Options::New(
                NewOptions {
                    path: a.path,
                    kind: a.kind.into_kind(),
                    name: a.name,
                    edition: a.edition,
                    description: a.description,
                },
            ),
        }
    }
}

} // verus!
