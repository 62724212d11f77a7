use vstd::prelude::*;

use crate::text::eq_str;

verus! {

/// Which source stub a new project gets: a binary entry point or a library
/// root.
#[derive(Clone, Copy, Debug, PartialEq, Eq, Structural)]
pub enum NewProjectKind {
    Bin,
    Lib,
}

/// A project-kind word that parsing does not recognize, carrying the
/// offending input.
#[derive(Debug)]
pub struct ParseKindError {
    pub input: String,
}

impl NewProjectKind {
    /// Total parsing of the project kind: `bin` and `lib` are the declared
    /// words; every other input is a parse error, never a panic.
    pub fn from_str(s: &str) -> (r: Result<NewProjectKind, ParseKindError>)
        ensures
            s@ == "bin"@ ==> r == Ok::<NewProjectKind, ParseKindError>(NewProjectKind::Bin),
            s@ == "lib"@ ==> r == Ok::<NewProjectKind, ParseKindError>(NewProjectKind::Lib),
            s@ != "bin"@ && s@ != "lib"@ ==> (r matches Err(e) && e.input@ == s@),
    {
        proof {
            reveal_strlit("bin");
            reveal_strlit("lib");
            assert("bin"@[0] == 'b' && "lib"@[0] == 'l');
            assert("bin"@ != "lib"@);
        }
        if eq_str(s, "bin") {
            Ok(NewProjectKind::Bin)
        } else if eq_str(s, "lib") {
            Ok(NewProjectKind::Lib)
        } else {
            Err(ParseKindError { input: s.to_owned() })
        }
    }
}

/// Options for scaffolding in the current working directory.
pub struct InitOptions {
    pub kind: NewProjectKind,
    pub name: Option<String>,
    pub edition: String,
    pub description: String,
}

/// Options for scaffolding in a given directory, creating it if absent.
pub struct NewOptions {
    pub path: String,
    pub kind: NewProjectKind,
    pub name: Option<String>,
    pub edition: String,
    pub description: String,
}

pub enum Options {
    Init(InitOptions),
    New(NewOptions),
}

} // verus!
