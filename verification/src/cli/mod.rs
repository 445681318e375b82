//! The command line of the `puddle` program: its grammar, and what each
//! command line asks for.

pub mod scan;
pub mod values;
pub mod args;
pub mod grammar;
