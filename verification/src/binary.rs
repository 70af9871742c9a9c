//! The resolved binary and the launch command built from it.

use vstd::prelude::*;
use vstd::string::*;

use crate::error::ResolveError;
use crate::error::spec_error_message;

verus! {

/// A runnable language-server binary: its path and the environment
/// variables to inject at launch.  Immutable once constructed.
#[derive(Debug)]
pub struct CodebookBinary {
    pub path: String,
    pub env: Vec<(String, String)>,
}

impl CodebookBinary {
    /// A handle for the binary at `path`, logging at `log_level`.
    pub fn new(path: String, log_level: &str) -> (r: Self)
        ensures
            r.path == path,
            r.env@.len() == 1,
            r.env@[0].0@ == "RUST_LOG"@,
            r.env@[0].1@ == log_level@,
    {
        let mut env: Vec<(String, String)> = Vec::new();
        env.push(("RUST_LOG".to_owned(), log_level.to_owned()));
        CodebookBinary { path, env }
    }
}

/// The launch triple handed to the host: an executable, its ordered
/// arguments, and its ordered environment.
#[derive(Debug)]
pub struct Command {
    pub command: String,
    pub args: Vec<String>,
    pub env: Vec<(String, String)>,
}

/// Build the launch command for a resolved binary: the binary's path, a
/// root flag derived from the project root, the fixed `serve` subcommand,
/// and the binary's environment.
pub fn language_server_command(binary: CodebookBinary, project_root: &str) -> (c: Command)
    ensures
        c.command == binary.path,
        c.args@.len() == 2,
        c.args@[0]@ == "--root="@ + project_root@,
        c.args@[1]@ == "serve"@,
        c.env == binary.env,
{
    let mut root_arg = "--root=".to_owned();
    root_arg.append(project_root);
    let mut args: Vec<String> = Vec::new();
    args.push(root_arg);
    args.push("serve".to_owned());
    Command { command: binary.path, args, env: binary.env }
}

/// The message shown when the whole fallback chain has failed.
pub fn resolution_failure_message(e: &ResolveError) -> (r: String)
    ensures
        r@ == "Failed to load binary! This could be due to no internet connection, or running on an unsupported platform. Please check that github.com is accessible and try again. Error: "@
            + spec_error_message(*e),
{
    let mut r =
        "Failed to load binary! This could be due to no internet connection, or running on an unsupported platform. Please check that github.com is accessible and try again. Error: ".to_owned();
    let m = e.message();
    r.append(m.as_str());
    r
}

} // verus!
