//! The launch command handed to the host.

use vstd::prelude::*;

verus! {

/// What the host runs: the executable, its arguments and its environment.
#[derive(Debug)]
pub struct CommandDescriptor {
    pub command: String,
    pub args: Vec<String>,
    pub env: Vec<(String, String)>,
}

/// The only argument: serve the protocol over stdio.
pub open spec fn stdio_flag() -> Seq<char> {
    "--stdio"@
}

/// Runs `binary_path` in stdio mode with the worktree's shell environment
/// `env`, copied as it is.
pub fn build_command(binary_path: String, env: Vec<(String, String)>) -> (r: CommandDescriptor)
    ensures
        r.command@ == binary_path@,
        r.args.len() == 1,
        r.args[0]@ == stdio_flag(),
        r.env@ == env@,
{
    let mut args: Vec<String> = Vec::new();
    args.push(String::from_str("--stdio"));
    CommandDescriptor { command: binary_path, args, env }
}

} // verus!
