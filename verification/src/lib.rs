pub mod cli;
pub mod datetime;
pub mod filesystem;
pub mod git;
pub mod haskell;
pub mod options;
pub mod rust;
pub mod template;
pub mod text;
