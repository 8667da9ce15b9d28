//! Generates Rust model code for diesel schemas: for each `table!` block a
//! `Read` struct, a `Create*` and an `Update*` struct, and CRUD functions,
//! under per-table options; and the files that hold them, with how each
//! compares with what is on disk.
//!
//! The contracts speak of the generated text exactly: each piece of it is a
//! spec function (see `structs`, `code` and `files`), and the laws that hold
//! of every table are proved in `laws`.

pub mod text;
pub mod options;
pub mod model;
pub mod naming;
pub mod structs;
pub mod templates;
pub mod code;
pub mod files;
pub mod pagination;
pub mod cli;
pub mod laws;
pub mod lexer;
pub mod parser;
pub mod pipeline;
