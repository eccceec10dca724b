use vstd::prelude::*;

verus! {

/// The command-line surface: the one subcommand the tool answers to.
#[allow(non_camel_case_types)]
#[derive(Clone, Copy, Debug, PartialEq, Eq, Structural)]
pub enum command {
    #[allow(non_camel_case_types)]
    getTask,
}

} // verus!
