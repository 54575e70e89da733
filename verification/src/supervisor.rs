//! Platform-specific selection of the server spawn invocation.
//!
//! The set of supported host platforms is closed and fixed at build time.
//! Each platform maps to one executable name; the entry-script argument and
//! the working directory (the parent of the application's install location)
//! are the same everywhere.

use vstd::prelude::*;

verus! {

/// The closed set of host platforms on which the launcher can run.
#[derive(Clone, Copy, Debug, PartialEq, Eq, Structural)]
pub enum Platform {
    MacOs,
    Linux,
    Windows,
}

/// One fully determined spawn invocation: which executable to start, with
/// which argument, in which working directory.
#[derive(Clone, Copy, Debug)]
pub struct SpawnCommand {
    pub executable: &'static str,
    pub arg: &'static str,
    pub working_dir: &'static str,
}

/// The executable name the dispatch table assigns to each platform.
pub open spec fn executable_for(platform: Platform) -> Seq<char> {
    match platform {
        Platform::MacOs => "node"@,
        Platform::Linux => "node"@,
        Platform::Windows => "node.exe"@,
    }
}

/// Selects the spawn invocation for the given host platform, exactly as the
/// dispatch table prescribes: `node` on macOS and Linux, `node.exe` on
/// Windows, always with the server entry script as the single argument and
/// the parent of the install directory as the working directory.
pub fn spawn_command(platform: Platform) -> (c: SpawnCommand)
    ensures
        c.executable@ == executable_for(platform),
        c.arg@ == "server.js"@,
        c.working_dir@ == "../"@,
{
    match platform {
        Platform::MacOs => SpawnCommand {
            executable: "node",
            arg: "server.js",
            working_dir: "../",
        },
        Platform::Linux => SpawnCommand {
            executable: "node",
            arg: "server.js",
            working_dir: "../",
        },
        Platform::Windows => SpawnCommand {
            executable: "node.exe",
            arg: "server.js",
            working_dir: "../",
        },
    }
}

/// The operating system could not create the server process: the executable
/// was missing, permission was denied, or a resource limit was hit. The
/// launcher treats this as non-fatal and continues without a managed server.
#[derive(Debug)]
pub struct SpawnError {
    pub message: String,
}

impl SpawnError {
    /// Wraps the OS-reported reason for the failed spawn.
    pub fn new(message: String) -> (e: SpawnError)
        ensures
            e.message@ == message@,
    {
        SpawnError { message }
    }

    /// The OS-reported reason for the failed spawn.
    pub fn describe(&self) -> (m: &str)
        ensures
            m@ == self.message@,
    {
        self.message.as_str()
    }
}

} // verus!
