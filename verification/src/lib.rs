//! Verified core of the wf2 command-line tool: PHP version selection,
//! context building from command-line flags, sub-command selection,
//! the push recipe, help texts and environment-placeholder expansion.

pub mod php;
pub mod path;
pub mod text;
pub mod task;
pub mod context;
pub mod m2;
pub mod cmd;
pub mod cli_output;
pub mod util;
