//! The two commands the supervisor starts: the dependency sync and the backend
//! itself. Both run the same runtime; the backend is bound to a fixed local
//! endpoint that the user interface knows without being told.

use vstd::prelude::*;
use crate::paths::{join, path_join};

verus! {

/// The file name of the backend's entry script.
pub const ENTRY_FILE: &'static str = "app.py";

/// The bundled entry script, below the resource root.
pub const BUNDLED_ENTRY: &'static str = "api/app.py";

/// The runtime that runs both commands.
pub const RUNTIME: &'static str = "uv";

/// The address the backend listens on.
pub const BACKEND_HOST: &'static str = "127.0.0.1";

/// The port the backend listens on.
pub const BACKEND_PORT: &'static str = "60316";

/// A command line: the runtime to start and its arguments.
#[derive(Clone, Debug, PartialEq, Eq)]
pub struct SidecarCommand {
    pub program: String,
    pub args: Vec<String>,
}

/// The mathematical value of a `SidecarCommand`.
pub ghost struct CommandLine {
    pub program: Seq<char>,
    pub args: Seq<Seq<char>>,
}

impl View for SidecarCommand {
    type V = CommandLine;

    open spec fn view(&self) -> CommandLine {
        CommandLine { program: self.program@, args: self.args@.map_values(|arg: String| arg@) }
    }
}

/// The command that syncs the dependencies of the project at `environment`.
pub open spec fn sync_line(environment: Seq<char>) -> CommandLine {
    CommandLine { program: RUNTIME@, args: seq!["sync"@, "--directory"@, environment] }
}

/// The command that serves the backend from the project at `environment`,
/// through the script at `entry`.
pub open spec fn serve_line(environment: Seq<char>, entry: Seq<char>) -> CommandLine {
    CommandLine {
        program: RUNTIME@,
        args: seq![
            "run"@,
            "--directory"@,
            environment,
            entry,
            "--host"@,
            BACKEND_HOST@,
            "--port"@,
            BACKEND_PORT@,
        ],
    }
}

/// The entry script of a development checkout: it lies in the project itself.
pub open spec fn development_entry_of(environment: Seq<char>) -> Seq<char> {
    path_join(environment, ENTRY_FILE@)
}

/// Whether `args` holds `flag` directly followed by `value`.
pub open spec fn has_option(args: Seq<Seq<char>>, flag: Seq<char>, value: Seq<char>) -> bool {
    exists|i: int| 0 <= i && i + 1 < args.len() && #[trigger] args[i] == flag && args[i + 1] == value
}

/// Builds the dependency sync command for the project at `environment`.
/// Running it twice in a row is meant to be harmless: the command line does
/// not depend on what an earlier run left behind.
pub fn sync_command(environment: &str) -> (command: SidecarCommand)
    ensures
        command@ == sync_line(environment@),
{
    let args = vec!["sync".to_owned(), "--directory".to_owned(), environment.to_owned()];
    let command = SidecarCommand { program: RUNTIME.to_owned(), args };
    assert(command@.args =~= sync_line(environment@).args);
    command
}

/// Names the entry script inside the project at `environment`.
pub fn development_entry(environment: &str) -> (entry: String)
    ensures
        entry@ == development_entry_of(environment@),
{
    join(environment, ENTRY_FILE)
}

/// Builds the command that starts the backend: the project at `environment`,
/// the script at `entry`, and the fixed endpoint.
pub fn serve_command(environment: &str, entry: &str) -> (command: SidecarCommand)
    ensures
        command@ == serve_line(environment@, entry@),
        has_option(command@.args, "--host"@, BACKEND_HOST@),
        has_option(command@.args, "--port"@, BACKEND_PORT@),
{
    let args = vec![
        "run".to_owned(),
        "--directory".to_owned(),
        environment.to_owned(),
        entry.to_owned(),
        "--host".to_owned(),
        BACKEND_HOST.to_owned(),
        "--port".to_owned(),
        BACKEND_PORT.to_owned(),
    ];
    let command = SidecarCommand { program: RUNTIME.to_owned(), args };
    assert(command@.args =~= serve_line(environment@, entry@).args);
    proof {
        lemma_serve_line_binds_endpoint(environment@, entry@);
    }
    command
}

/// Whatever the project and the entry script are, the backend's command line
/// holds `--host 127.0.0.1` and `--port 60316`.
pub proof fn lemma_serve_line_binds_endpoint(environment: Seq<char>, entry: Seq<char>)
    ensures
        has_option(serve_line(environment, entry).args, "--host"@, BACKEND_HOST@),
        has_option(serve_line(environment, entry).args, "--port"@, BACKEND_PORT@),
        BACKEND_HOST@ == "127.0.0.1"@,
        BACKEND_PORT@ == "60316"@,
{
    let args = serve_line(environment, entry).args;
    assert(args[4] == "--host"@ && args[5] == BACKEND_HOST@);
    assert(args[6] == "--port"@ && args[7] == BACKEND_PORT@);
}

} // verus!
