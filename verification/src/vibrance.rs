//! The controller of one session with the vendor runtime.
//!
//! The controller starts the operations that an [`Operation`] then carries
//! through, and makes those vendor calls itself that go through the safe
//! interface of the `nvapi` crate. The raw calls on display handles are left
//! to the runner of the operation.

use crate::error::VibranceError;
use crate::operation::{Command, DisplayHandle, Event, Operation};
use vstd::prelude::*;

verus! {

/// Calls `nvapi::initialize`, which loads the vendor runtime and
/// initializes it. Nothing is claimed of the outcome: it depends on the
/// driver that the machine has. An error is given by its raw status.
#[verifier::external_body]
fn nvapi_initialize() -> (outcome: Result<(), i32>) {
    match nvapi::initialize() {
        Ok(()) => Ok(()),
        Err(status) => Err(status.raw()),
    }
}

/// Calls `nvapi::PhysicalGpu::enumerate` and hands out the number of GPUs
/// it lists, which is zero where the runtime finds no NVIDIA device. Nothing
/// is claimed of the outcome: it depends on the machine. An error is given
/// by its raw status.
#[verifier::external_body]
fn nvapi_gpu_count() -> (count: Result<usize, i32>) {
    match nvapi::PhysicalGpu::enumerate() {
        Ok(gpus) => Ok(gpus.len()),
        Err(status) => Err(status.raw()),
    }
}

/// Calls `nvapi::sys::nvapi::nvapi_QueryInterface`, which asks the vendor
/// runtime for the address of the entry point `id`. Which ids a runtime
/// knows depends on the driver; the one claim is that an address it hands
/// out is not null, the runtime's null being turned into an error by the
/// callee. An error is given by its raw status.
#[verifier::external_body]
fn nvapi_query_interface(id: u32) -> (address: Result<usize, i32>)
    ensures
        address matches Ok(a) ==> a != 0,
{
    match nvapi::sys::nvapi::nvapi_QueryInterface(id) {
        Ok(address) => Ok(address),
        Err(status) => Err(status.raw()),
    }
}

/// Whether a display name can be handed to the vendor interface: it holds
/// no NUL character.
pub open spec fn name_is_valid(name: Seq<char>) -> bool {
    forall|i: int| 0 <= i < name.len() ==> name[i] != '\0'
}

/// Tests whether a display name can be handed to the vendor interface.
pub fn check_name(name: &str) -> (valid: bool)
    ensures
        valid == name_is_valid(name@),
{
    for c in it: name.chars()
        invariant
            it.seq() == name@,
            forall|i: int| 0 <= i < it.index() ==> name@[i] != '\0',
    {
        if c == '\0' {
            return false;
        }
    }
    true
}

/// Whether a GPU is there to be driven: the runtime initialized and listed
/// at least one.
pub open spec fn spec_gpu_present(init: Result<(), i32>, gpus: Result<usize, i32>) -> bool {
    &&& init is Ok
    &&& gpus matches Ok(n)
    &&& n > 0
}

/// An initialized session with the vendor runtime.
#[derive(Debug)]
pub struct NvidiaController {}

impl NvidiaController {
    /// Initializes the vendor runtime and opens a session on it.
    ///
    /// Whether that succeeds is the runtime's to say; the one error is
    /// `DriverUnavailable`. [`NvidiaController::from_init`] gives the result
    /// for each outcome of the initialization.
    pub fn new() -> (controller: Result<Self, VibranceError>)
        ensures
            controller matches Err(e) ==> e == VibranceError::DriverUnavailable,
    {
        Self::from_init(nvapi_initialize())
    }

    /// The session that the outcome `init` of the initialization allows:
    /// one if it succeeded, `DriverUnavailable` if not.
    pub fn from_init(init: Result<(), i32>) -> (controller: Result<Self, VibranceError>)
        ensures
            init is Ok <==> controller is Ok,
            init is Err ==> controller == Err::<Self, VibranceError>(
                VibranceError::DriverUnavailable,
            ),
    {
        match init {
            Ok(_) => Ok(NvidiaController {  }),
            Err(_) => Err(VibranceError::DriverUnavailable),
        }
    }

    /// Whether the machine has a GPU that the vendor runtime can drive.
    ///
    /// Initializes the runtime on its own account, so it can be asked before
    /// any session exists, and counts the GPUs if that succeeded. It never
    /// fails: whatever goes wrong reads as `false`.
    /// [`NvidiaController::gpu_present`] gives the answer for each outcome of
    /// the two calls.
    pub fn has_nvidia_gpu() -> bool {
        let init = nvapi_initialize();
        match init {
            Ok(_) => Self::gpu_present(init, nvapi_gpu_count()),
            Err(_) => false,
        }
    }

    /// The answer of [`NvidiaController::has_nvidia_gpu`], given the outcome
    /// `init` of the initialization and the outcome `gpus` of the count.
    pub fn gpu_present(init: Result<(), i32>, gpus: Result<usize, i32>) -> (present: bool)
        ensures
            present == spec_gpu_present(init, gpus),
            init is Err ==> !present,
            init is Ok ==> (gpus matches Ok(n) ==> (n >= 1 ==> present)),
    {
        match (init, gpus) {
            (Ok(_), Ok(n)) => n > 0,
            _ => false,
        }
    }

    /// Starts setting `level` on the display named `display_name`.
    ///
    /// A level above 100 ends the operation at once with `InvalidInput`,
    /// before any vendor call.
    pub fn set_vibrance_for_display(&mut self, display_name: &str, level: u32) -> (op: Operation)
        ensures
            *final(self) == *old(self),
            op == Operation::spec_named_display(name_is_valid(display_name@), level),
            level > 100 ==> op.spec_command() == (Command::Finish {
                result: Err(VibranceError::InvalidInput),
            }),
    {
        Operation::named_display(check_name(display_name), level)
    }

    /// Starts setting `level` on every connected display.
    ///
    /// A level above 100 ends the operation at once with `InvalidInput`,
    /// before any vendor call.
    pub fn set_vibrance(&mut self, level: u32) -> (op: Operation)
        ensures
            *final(self) == *old(self),
            op == Operation::spec_all_displays(level),
            level > 100 ==> op.spec_command() == (Command::Finish {
                result: Err(VibranceError::InvalidInput),
            }),
    {
        Operation::all_displays(level)
    }

    /// Starts setting `level` on the display behind `handle`.
    ///
    /// A level above 100 ends the operation at once with `InvalidInput`,
    /// before any vendor call.
    pub fn set_dvc_for_handle(&self, handle: DisplayHandle, level: u32) -> (op: Operation)
        ensures
            op == Operation::spec_for_handle(handle, level),
            level > 100 ==> op.spec_command() == (Command::Finish {
                result: Err(VibranceError::InvalidInput),
            }),
    {
        Operation::for_handle(handle, level)
    }

    /// Makes the call that `command` asks for, where the safe interface of
    /// the vendor crate offers it, and hands back its answer.
    ///
    /// `Resolve` and `CountGpus` are answered here. For the raw calls on
    /// display handles, and for `Finish`, the result is `None`: those are the
    /// runner's.
    pub fn perform(&self, command: &Command) -> (event: Option<Event>)
        ensures
            command is Resolve ==> (event matches Some(Event::Entry { address }) && address != Some(
                0usize,
            )),
            command is CountGpus ==> event matches Some(Event::Gpus { .. }),
            !(command is Resolve || command is CountGpus) ==> event is None,
    {
        match command {
            Command::Resolve { id } => {
                let address = match nvapi_query_interface(*id) {
                    Ok(address) => Some(address),
                    Err(_) => None,
                };
                Some(Event::Entry { address })
            },
            Command::CountGpus => Some(Event::Gpus { count: nvapi_gpu_count() }),
            _ => None,
        }
    }
}

} // verus!
