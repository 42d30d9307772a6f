//! Errors surfaced by the plugin host: load failures, calls made with no
//! plugin active, rejected parameters, and replies outside a call's
//! documented contract.

use vstd::prelude::*;

verus! {

/// Why the plugin refused to set a parameter, as reported by its reply code.
#[derive(Clone, Debug)]
pub enum ParameterRejection {
    /// Reply 1: the plugin has no parameter of that name.
    NotFound,
    /// Reply 2: the parameter exists but the value is outside its range.
    OutOfRange,
    /// Any other non-zero reply, carried verbatim.
    Unknown(u32),
}

/// A rejected parameter: which setting failed and the plugin-reported reason.
#[derive(Clone, Debug)]
pub struct ParameterFailure {
    /// The parameter's name.
    pub name: String,
    /// The value that was being set.
    pub value: u32,
    /// The plugin-reported reason.
    pub reason: ParameterRejection,
}

/// The error kinds of the plugin host.
#[derive(Clone, Debug)]
pub enum CuckooMinerError {
    /// The plugin library could not be opened: the path tried and the
    /// underlying loader's message.
    PluginNotFound(String, String),
    /// Some required entry point was missing; the registry is unchanged.
    SymbolResolution,
    /// A call was made with no plugin loaded.
    PluginNotLoaded,
    /// The plugin rejected a get or set of a parameter.
    ParameterError(ParameterFailure),
    /// A call replied with a code outside its documented contract.
    UnexpectedResult(u32),
    /// Asynchronous processing could not be started or stopped.
    ProcessingError,
}

} // verus!
