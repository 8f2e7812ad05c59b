//! Shell-prompt status: a shortened working directory and a compact,
//! coloured summary of the enclosing git repository's state.

pub mod path;
pub mod render;
pub mod repo;
pub mod status;
