pub mod rust;
