use vstd::prelude::*;

verus! {

pub struct InitArgs {
    pub name: Option<String>,
}

pub struct NewArgs {
    pub path: String,
    pub name: Option<String>,
}

pub enum Args {
    Init(InitArgs),
    New(NewArgs),
}

} // verus!
