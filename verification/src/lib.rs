//! Resolution of the shell that runs a task, the argument list handed to it,
//! and the mapping of how the child ended to the task's result.

pub mod shell;
pub mod task;
