//! The plugin registry: one active loaded library modelled as a fixed set of
//! twelve named function slots. Activation is all-or-nothing: a load either
//! populates every slot or leaves the prior state unchanged, and every call
//! is guarded by its own slot.

use vstd::prelude::*;

use crate::error::CuckooMinerError;

verus! {

/// The twelve entry points of the plugin's fixed call surface.
#[derive(Clone, Copy, Debug, PartialEq, Eq, Structural)]
pub enum PluginCall {
    /// One-time initialiser, invoked right after a successful load.
    Init,
    /// Synchronous solve over a complete header hash.
    Solve,
    /// Plugin name and description.
    Describe,
    /// The plugin's supported parameters.
    ParameterList,
    /// Read one named parameter.
    GetParameter,
    /// Set one named parameter.
    SetParameter,
    /// Whether the input queue can accept more work.
    QueueUnderLimit,
    /// Push one candidate (hash, nonce) pair to the input queue.
    PushInput,
    /// Pop one solution from the output queue.
    ReadOutput,
    /// Start asynchronous processing.
    StartProcessing,
    /// Request that asynchronous processing stop.
    StopProcessing,
    /// Consume-on-read count of hashes processed since the last read.
    HashesSinceLastCall,
}

/// One flag per function slot: whether that entry point is held.
#[derive(Clone, Copy, Debug, PartialEq, Eq, Structural)]
pub struct SlotFlags {
    /// Slot for the one-time initialiser.
    pub init: bool,
    /// Slot for the synchronous solve call.
    pub solve: bool,
    /// Slot for the describe call.
    pub describe: bool,
    /// Slot for the parameter-list call.
    pub parameter_list: bool,
    /// Slot for the get-parameter call.
    pub get_parameter: bool,
    /// Slot for the set-parameter call.
    pub set_parameter: bool,
    /// Slot for the queue-capacity query.
    pub queue_under_limit: bool,
    /// Slot for the input-queue push.
    pub push_input: bool,
    /// Slot for the output-queue read.
    pub read_output: bool,
    /// Slot for starting asynchronous processing.
    pub start_processing: bool,
    /// Slot for stopping asynchronous processing.
    pub stop_processing: bool,
    /// Slot for the hashes-since-last-call counter.
    pub hashes_since_last_call: bool,
}

impl SlotFlags {
    /// Whether every slot is held.
    pub open spec fn all_set(self) -> bool {
        self.init && self.solve && self.describe && self.parameter_list && self.get_parameter
            && self.set_parameter && self.queue_under_limit && self.push_input && self.read_output
            && self.start_processing && self.stop_processing && self.hashes_since_last_call
    }

    /// Whether no slot is held.
    pub open spec fn none_set(self) -> bool {
        !self.init && !self.solve && !self.describe && !self.parameter_list && !self.get_parameter
            && !self.set_parameter && !self.queue_under_limit && !self.push_input
            && !self.read_output && !self.start_processing && !self.stop_processing
            && !self.hashes_since_last_call
    }

    /// The flag of one named slot.
    pub open spec fn spec_holds(self, call: PluginCall) -> bool {
        match call {
            PluginCall::Init => self.init,
            PluginCall::Solve => self.solve,
            PluginCall::Describe => self.describe,
            PluginCall::ParameterList => self.parameter_list,
            PluginCall::GetParameter => self.get_parameter,
            PluginCall::SetParameter => self.set_parameter,
            PluginCall::QueueUnderLimit => self.queue_under_limit,
            PluginCall::PushInput => self.push_input,
            PluginCall::ReadOutput => self.read_output,
            PluginCall::StartProcessing => self.start_processing,
            PluginCall::StopProcessing => self.stop_processing,
            PluginCall::HashesSinceLastCall => self.hashes_since_last_call,
        }
    }

    /// The set with every slot empty.
    pub open spec fn spec_empty() -> SlotFlags {
        SlotFlags {
            init: false,
            solve: false,
            describe: false,
            parameter_list: false,
            get_parameter: false,
            set_parameter: false,
            queue_under_limit: false,
            push_input: false,
            read_output: false,
            start_processing: false,
            stop_processing: false,
            hashes_since_last_call: false,
        }
    }

    /// The set with every slot held.
    pub open spec fn spec_full() -> SlotFlags {
        SlotFlags {
            init: true,
            solve: true,
            describe: true,
            parameter_list: true,
            get_parameter: true,
            set_parameter: true,
            queue_under_limit: true,
            push_input: true,
            read_output: true,
            start_processing: true,
            stop_processing: true,
            hashes_since_last_call: true,
        }
    }

    /// Builds the all-empty set.
    pub fn empty() -> (r: SlotFlags)
        ensures
            r == SlotFlags::spec_empty(),
    {
        SlotFlags {
            init: false,
            solve: false,
            describe: false,
            parameter_list: false,
            get_parameter: false,
            set_parameter: false,
            queue_under_limit: false,
            push_input: false,
            read_output: false,
            start_processing: false,
            stop_processing: false,
            hashes_since_last_call: false,
        }
    }

    /// Builds the all-held set.
    pub fn full() -> (r: SlotFlags)
        ensures
            r == SlotFlags::spec_full(),
    {
        SlotFlags {
            init: true,
            solve: true,
            describe: true,
            parameter_list: true,
            get_parameter: true,
            set_parameter: true,
            queue_under_limit: true,
            push_input: true,
            read_output: true,
            start_processing: true,
            stop_processing: true,
            hashes_since_last_call: true,
        }
    }

    /// Whether every slot is held, decided at run time.
    pub fn is_complete(&self) -> (r: bool)
        ensures
            r == self.all_set(),
    {
        self.init && self.solve && self.describe && self.parameter_list && self.get_parameter
            && self.set_parameter && self.queue_under_limit && self.push_input && self.read_output
            && self.start_processing && self.stop_processing && self.hashes_since_last_call
    }

    /// Reads the flag of one named slot.
    pub fn holds(&self, call: PluginCall) -> (r: bool)
        ensures
            r == self.spec_holds(call),
    {
        match call {
            PluginCall::Init => self.init,
            PluginCall::Solve => self.solve,
            PluginCall::Describe => self.describe,
            PluginCall::ParameterList => self.parameter_list,
            PluginCall::GetParameter => self.get_parameter,
            PluginCall::SetParameter => self.set_parameter,
            PluginCall::QueueUnderLimit => self.queue_under_limit,
            PluginCall::PushInput => self.push_input,
            PluginCall::ReadOutput => self.read_output,
            PluginCall::StartProcessing => self.start_processing,
            PluginCall::StopProcessing => self.stop_processing,
            PluginCall::HashesSinceLastCall => self.hashes_since_last_call,
        }
    }
}

/// What a load attempt observed: whether the library could be opened (with
/// the path tried and the loader's message when it could not), and which of
/// the required entry points were resolved in it.
pub struct LoadOutcome {
    /// Whether the library file could be opened at all.
    pub opened: bool,
    /// The path that was tried.
    pub path: String,
    /// The loader's message when opening failed; empty otherwise.
    pub open_error: String,
    /// Which entry points were resolved by name in the opened library.
    pub resolved: SlotFlags,
}

/// The registry of the one active plugin: twelve named function slots.
#[derive(Clone, Copy, Debug)]
pub struct Registry {
    /// The twelve named function slots.
    pub slots: SlotFlags,
}

/// The registry state that a load attempt leaves behind: every slot held on
/// full success, the prior state untouched otherwise.
pub open spec fn loaded_after(reg: Registry, outcome: LoadOutcome) -> Registry {
    if outcome.opened && outcome.resolved.all_set() {
        Registry { slots: SlotFlags::spec_full() }
    } else {
        reg
    }
}

impl Registry {
    /// Whether every slot is held.
    pub open spec fn fully_loaded(self) -> bool {
        self.slots.all_set()
    }

    /// Whether no slot is held.
    pub open spec fn is_empty(self) -> bool {
        self.slots.none_set()
    }

    /// Whether the slot of one named call is held.
    pub open spec fn spec_holds(self, call: PluginCall) -> bool {
        self.slots.spec_holds(call)
    }

    /// A fresh registry with every slot empty.
    pub fn new() -> (r: Registry)
        ensures
            r.is_empty(),
            r == (Registry { slots: SlotFlags::spec_empty() }),
    {
        Registry { slots: SlotFlags::empty() }
    }

    /// Applies the outcome of a load attempt. Activation is all-or-nothing:
    /// on an open failure or any missing entry point the registry is left
    /// exactly as it was; only a fully resolved set populates the slots.
    /// On success the caller invokes the plugin's one-time initialiser.
    pub fn load(&mut self, outcome: &LoadOutcome) -> (r: Result<(), CuckooMinerError>)
        ensures
            *final(self) == loaded_after(*old(self), *outcome),
            r is Ok <==> outcome.opened && outcome.resolved.all_set(),
            r is Ok ==> final(self).fully_loaded(),
            !(outcome.opened && outcome.resolved.all_set()) ==> *final(self) == *old(self),
            !outcome.opened ==> (r matches Err(e) && e matches CuckooMinerError::PluginNotFound(
                path,
                cause,
            ) && path@ == outcome.path@ && cause@ == outcome.open_error@),
            outcome.opened && !outcome.resolved.all_set() ==> r == Err::<
                (),
                CuckooMinerError,
            >(CuckooMinerError::SymbolResolution),
    {
        if !outcome.opened {
            return Err(
                CuckooMinerError::PluginNotFound(outcome.path.clone(), outcome.open_error.clone()),
            );
        }
        if !outcome.resolved.is_complete() {
            return Err(CuckooMinerError::SymbolResolution);
        }
        self.slots = SlotFlags::full();
        Ok(())
    }

    /// Clears every slot and releases the plugin; a no-op when none is loaded.
    pub fn unload(&mut self)
        ensures
            final(self).is_empty(),
            *final(self) == (Registry { slots: SlotFlags::spec_empty() }),
    {
        self.slots = SlotFlags::empty();
    }

    /// Admits a call only when its own slot is held; any call performed with
    /// no plugin loaded is refused with `PluginNotLoaded`.
    pub fn guard(&self, call: PluginCall) -> (r: Result<(), CuckooMinerError>)
        ensures
            r is Ok <==> self.spec_holds(call),
            !self.spec_holds(call) ==> r == Err::<(), CuckooMinerError>(
                CuckooMinerError::PluginNotLoaded,
            ),
    {
        if self.slots.holds(call) {
            Ok(())
        } else {
            Err(CuckooMinerError::PluginNotLoaded)
        }
    }
}

/// A load either resolves every entry point and fills every slot, or leaves
/// the registry exactly as it was before the attempt: no half-populated
/// state is ever observable.
pub proof fn lemma_load_all_or_nothing(reg: Registry, outcome: LoadOutcome)
    ensures
        loaded_after(reg, outcome).fully_loaded() || loaded_after(reg, outcome) == reg,
        !(outcome.opened && outcome.resolved.all_set()) ==> loaded_after(reg, outcome) == reg,
        outcome.opened && outcome.resolved.all_set() ==> loaded_after(reg, outcome).fully_loaded(),
{
}

/// With no plugin loaded, no slot is held, so every guarded call is refused
/// with `PluginNotLoaded` rather than reaching a dangling entry point.
pub proof fn lemma_empty_registry_holds_nothing(reg: Registry)
    requires
        reg.is_empty(),
    ensures
        forall|call: PluginCall| !reg.spec_holds(call),
{
}

} // verus!
