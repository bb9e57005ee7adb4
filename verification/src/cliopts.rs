//! The command-line surface as plain data: the subcommands the tool
//! offers and the options each one carries.  Argument parsing itself is a
//! collaborator concern; these types only carry the parsed values into
//! the library.

use vstd::prelude::*;

verus! {

/// Top-level invocation: one subcommand and an optional policy-document
/// path.
#[derive(Debug, Clone)]
pub struct Options {
    pub command: Commands,
    pub config: Option<String>,
}

/// The subcommands.
#[derive(Debug, Clone)]
pub enum Commands {
    /// Compose the filter program for a policy.
    Generate(Generate),
    /// Load a composed program onto an interface.
    Load(Load),
    /// Unload a loaded program.
    Unload(Unload),
    /// Check the host's compatibility.
    Analyze(Analyze),
    /// Print configurations or scripting help.
    Get(Get),
    /// An easter egg; it does nothing here.
    Secret,
    /// Run an embedded script.
    Run(Run),
}

/// Options of the script runner.
#[derive(Debug, Clone)]
pub struct Run {
    pub path: Option<String>,
}

/// Options of the compatibility check.
#[derive(Debug, Clone)]
pub struct Analyze {
    pub noconfirm: Option<String>,
}

/// Options of program composition.
#[derive(Debug, Clone)]
pub struct Generate {
    pub noconfirm: Option<String>,
}

/// Options of loading.
#[derive(Debug, Clone)]
pub struct Load {
    pub iface: String,
    pub xdp_flags: String,
}

/// Options of unloading.
#[derive(Debug, Clone)]
pub struct Unload {
    pub iface: String,
    pub xdp_flags: String,
    pub pid: String,
}

/// What to print.
#[derive(Debug, Clone)]
pub enum Get {
    /// The default configuration.
    DefaultConfig(ConfOutputType),
    /// A filled-in example configuration.
    ExampleConfig(ConfOutputType),
    /// A minimal starter configuration.
    BaseConfig(ConfOutputType),
    /// The scripting functions on offer.
    LuaApi,
    /// One scripting function's options.
    LuaFuncOpts(LuaFunc),
}

/// Output shaping for printed configurations.
#[derive(Debug, Clone)]
pub struct ConfOutputType {
    pub json: Option<String>,
    pub pretty: Option<String>,
    pub formatted: Option<String>,
}

/// The scripting functions.
#[derive(Debug, Clone)]
pub enum LuaFunc {
    Analyze,
    Generate,
    PLoad,
    PUnload,
    #[allow(non_camel_case_types)]
    Get_map_data,
}

} // verus!
