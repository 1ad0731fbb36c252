//! One operation on the vibrance hardware, as a sequence of vendor calls.
//!
//! An [`Operation`] is a state that holds one pending [`Command`]. Whoever
//! runs the operation performs the command against the vendor interface and
//! hands the answer back as an [`Event`]; the operation then moves on. It is
//! over once the pending command is [`Command::Finish`].

use crate::dvc::{
    lemma_native_level_bounds, NVAPI_DISP_GET_DVC_INFO_EX_ID, NVAPI_DISP_SET_DVC_LEVEL_EX_ID,
    NVAPI_GET_ASSOCIATED_NVIDIA_DISPLAY_HANDLE_ID, NVAPI_OK, NV_DISPLAY_DVC_INFO_EX,
};
use crate::error::VibranceError;
use vstd::prelude::*;

verus! {

/// The vendor's token for one display output.
///
/// A handle is only good for the operation that obtained it: the displays of
/// a machine may change between two operations.
#[derive(Clone, Copy, Debug, PartialEq, Eq, Structural)]
pub struct DisplayHandle {
    pub raw: usize,
}

/// The display that a level is being applied to.
#[derive(Clone, Copy, Debug, PartialEq, Eq, Structural)]
pub enum Target {
    /// The one display that the operation named.
    Named,
    /// The display found at `index` of the enumeration, `updated` displays
    /// before it having taken the level.
    Enumerated { index: u32, updated: u32 },
}

/// A call for the runner of an operation to make.
#[derive(Clone, Copy, Debug, PartialEq, Eq)]
pub enum Command {
    /// Ask the vendor runtime for the address of the entry point `id`.
    Resolve { id: u32 },
    /// Count the physical GPUs.
    CountGpus,
    /// Call the handle lookup at `entry` with the display's name.
    FindHandle { entry: usize },
    /// Ask for the handle of the display at `index` of the enumeration.
    EnumHandle { index: u32 },
    /// Call the information read at `entry` for `handle`, output 0, on `info`.
    ReadInfo { entry: usize, handle: DisplayHandle, info: NV_DISPLAY_DVC_INFO_EX },
    /// Call the level write at `entry` for `handle`, output 0, on `info`.
    WriteLevel { entry: usize, handle: DisplayHandle, info: NV_DISPLAY_DVC_INFO_EX },
    /// Nothing is left to call: the operation ended with `result`, on
    /// success the number of displays that took the level.
    Finish { result: Result<u32, VibranceError> },
}

/// The answer to a command.
#[derive(Clone, Copy, Debug, PartialEq, Eq)]
pub enum Event {
    /// Answers `Resolve`: the address, or `None` where the runtime has none.
    Entry { address: Option<usize> },
    /// Answers `CountGpus`: the number of GPUs, or the status of the failure.
    Gpus { count: Result<usize, i32> },
    /// Answers `FindHandle` and `EnumHandle`.
    Handle { status: i32, handle: DisplayHandle },
    /// Answers `ReadInfo`: the status and the structure as the call left it.
    Info { status: i32, info: NV_DISPLAY_DVC_INFO_EX },
    /// Answers `WriteLevel`.
    Written { status: i32 },
}

/// The state of an operation, named by the answer it waits for.
#[derive(Clone, Copy, Debug, PartialEq, Eq)]
pub enum Operation {
    /// Waits for the address of the handle lookup.
    FindEntry { level: u32, name_valid: bool },
    /// Waits for the handle of the named display.
    FindHandle { level: u32, entry: usize },
    /// Waits for the number of GPUs.
    CountGpus { level: u32 },
    /// Waits for the handle at `index`; `updated` displays took the level.
    NextHandle { level: u32, index: u32, updated: u32 },
    /// Waits for the address of the information read.
    ReadEntry { level: u32, target: Target, handle: DisplayHandle },
    /// Waits for the address of the level write.
    WriteEntry { level: u32, target: Target, handle: DisplayHandle, read_entry: usize },
    /// Waits for the display's information.
    ReadInfo {
        level: u32,
        target: Target,
        handle: DisplayHandle,
        read_entry: usize,
        write_entry: usize,
    },
    /// Waits for the status of the write.
    WriteLevel {
        level: u32,
        target: Target,
        handle: DisplayHandle,
        write_entry: usize,
        info: NV_DISPLAY_DVC_INFO_EX,
    },
    /// Over.
    Done { result: Result<u32, VibranceError> },
}

/// One more than `updated`, as far as a `u32` holds it.
pub open spec fn next_count(updated: u32) -> u32 {
    if updated < u32::MAX {
        (updated + 1) as u32
    } else {
        updated
    }
}

impl Operation {
    /// The operation that sets `level` on every display: it rejects a level
    /// above 100 at once and else starts by counting the GPUs.
    pub open spec fn spec_all_displays(level: u32) -> Operation {
        if level > 100 {
            Operation::Done { result: Err(VibranceError::InvalidInput) }
        } else {
            Operation::CountGpus { level }
        }
    }

    /// The operation that sets `level` on one display by its name: it
    /// rejects a level above 100 at once and else starts by resolving the
    /// handle lookup.
    pub open spec fn spec_named_display(name_valid: bool, level: u32) -> Operation {
        if level > 100 {
            Operation::Done { result: Err(VibranceError::InvalidInput) }
        } else {
            Operation::FindEntry { level, name_valid }
        }
    }

    /// The operation that sets `level` on the display behind `handle`: it
    /// rejects a level above 100 at once and else starts by resolving the
    /// information read.
    pub open spec fn spec_for_handle(handle: DisplayHandle, level: u32) -> Operation {
        if level > 100 {
            Operation::Done { result: Err(VibranceError::InvalidInput) }
        } else {
            Operation::ReadEntry { level, target: Target::Named, handle }
        }
    }

    /// Where an operation goes once the attempt on one display is over.
    ///
    /// For a named display the attempt's outcome is the operation's result.
    /// In an enumeration a failure is passed over: the count grows on
    /// success only, and the next index is asked for, as long as there is one.
    pub open spec fn after_attempt(
        level: u32,
        target: Target,
        outcome: Result<(), VibranceError>,
    ) -> Operation {
        match target {
            Target::Named => match outcome {
                Ok(_) => Operation::Done { result: Ok(1) },
                Err(e) => Operation::Done { result: Err(e) },
            },
            Target::Enumerated { index, updated } => {
                let count = if outcome is Ok {
                    next_count(updated)
                } else {
                    updated
                };
                if index < u32::MAX {
                    Operation::NextHandle { level, index: (index + 1) as u32, updated: count }
                } else {
                    Operation::Done { result: Ok(count) }
                }
            },
        }
    }

    /// The command that the operation waits on.
    pub open spec fn spec_command(self) -> Command {
        match self {
            Operation::FindEntry { .. } => Command::Resolve {
                id: NVAPI_GET_ASSOCIATED_NVIDIA_DISPLAY_HANDLE_ID,
            },
            Operation::FindHandle { entry, .. } => Command::FindHandle { entry },
            Operation::CountGpus { .. } => Command::CountGpus,
            Operation::NextHandle { index, .. } => Command::EnumHandle { index },
            Operation::ReadEntry { .. } => Command::Resolve { id: NVAPI_DISP_GET_DVC_INFO_EX_ID },
            Operation::WriteEntry { .. } => Command::Resolve { id: NVAPI_DISP_SET_DVC_LEVEL_EX_ID },
            Operation::ReadInfo { handle, read_entry, .. } => Command::ReadInfo {
                entry: read_entry,
                handle,
                info: NV_DISPLAY_DVC_INFO_EX::blank(),
            },
            Operation::WriteLevel { handle, write_entry, info, .. } => Command::WriteLevel {
                entry: write_entry,
                handle,
                info,
            },
            Operation::Done { result } => Command::Finish { result },
        }
    }

    /// Whether `event` is the kind of answer that the pending command gets.
    pub open spec fn answers(self, event: Event) -> bool {
        match self {
            Operation::FindEntry { .. } | Operation::ReadEntry { .. } | Operation::WriteEntry {
                ..
            } => event is Entry,
            Operation::FindHandle { .. } | Operation::NextHandle { .. } => event is Handle,
            Operation::CountGpus { .. } => event is Gpus,
            Operation::ReadInfo { .. } => event is Info,
            Operation::WriteLevel { .. } => event is Written,
            Operation::Done { .. } => false,
        }
    }

    /// The state after `event`. An event that does not answer the pending
    /// command changes nothing.
    pub open spec fn spec_step(self, event: Event) -> Operation {
        match (self, event) {
            (Operation::FindEntry { level, name_valid }, Event::Entry { address }) => match address {
                None => Operation::Done { result: Err(VibranceError::HardwareApiUnavailable) },
                Some(entry) => if name_valid {
                    Operation::FindHandle { level, entry }
                } else {
                    Operation::Done { result: Err(VibranceError::InvalidInput) }
                },
            },
            (Operation::FindHandle { level, .. }, Event::Handle { status, handle }) => {
                if status == NVAPI_OK {
                    Operation::ReadEntry { level, target: Target::Named, handle }
                } else {
                    Operation::Done { result: Err(VibranceError::HardwareCallFailed { status }) }
                }
            },
            (Operation::CountGpus { level }, Event::Gpus { count }) => match count {
                Ok(n) => if n > 0 {
                    Operation::NextHandle { level, index: 0, updated: 0 }
                } else {
                    Operation::Done { result: Err(VibranceError::NoGpuFound) }
                },
                Err(_) => Operation::Done { result: Err(VibranceError::NoGpuFound) },
            },
            (Operation::NextHandle { level, index, updated }, Event::Handle { status, handle }) => {
                if status == NVAPI_OK {
                    Operation::ReadEntry {
                        level,
                        target: Target::Enumerated { index, updated },
                        handle,
                    }
                } else {
                    Operation::Done { result: Ok(updated) }
                }
            },
            (Operation::ReadEntry { level, target, handle }, Event::Entry { address }) => match address {
                Some(read_entry) => Operation::WriteEntry { level, target, handle, read_entry },
                None => Self::after_attempt(
                    level,
                    target,
                    Err(VibranceError::HardwareApiUnavailable),
                ),
            },
            (
                Operation::WriteEntry { level, target, handle, read_entry },
                Event::Entry { address },
            ) => match address {
                Some(write_entry) => Operation::ReadInfo {
                    level,
                    target,
                    handle,
                    read_entry,
                    write_entry,
                },
                None => Self::after_attempt(
                    level,
                    target,
                    Err(VibranceError::HardwareApiUnavailable),
                ),
            },
            (
                Operation::ReadInfo { level, target, handle, write_entry, .. },
                Event::Info { status, info },
            ) => {
                if status != NVAPI_OK {
                    Self::after_attempt(
                        level,
                        target,
                        Err(VibranceError::HardwareCallFailed { status }),
                    )
                } else if level > 100 {
                    Self::after_attempt(level, target, Err(VibranceError::InvalidInput))
                } else {
                    Operation::WriteLevel {
                        level,
                        target,
                        handle,
                        write_entry,
                        info: info.spec_with_level(level as int),
                    }
                }
            },
            (Operation::WriteLevel { level, target, .. }, Event::Written { status }) => {
                if status == NVAPI_OK {
                    Self::after_attempt(level, target, Ok(()))
                } else {
                    Self::after_attempt(
                        level,
                        target,
                        Err(VibranceError::HardwareCallFailed { status }),
                    )
                }
            },
            _ => self,
        }
    }

    /// The state after each of `events` in turn.
    pub open spec fn spec_run(self, events: Seq<Event>) -> Operation
        decreases events.len(),
    {
        if events.len() == 0 {
            self
        } else {
            self.spec_step(events[0]).spec_run(events.drop_first())
        }
    }

    /// The result of an operation that is over.
    pub open spec fn spec_result(self) -> Option<Result<u32, VibranceError>> {
        match self {
            Operation::Done { result } => Some(result),
            _ => None,
        }
    }

    /// Starts setting `level` on every display.
    pub fn all_displays(level: u32) -> (op: Operation)
        ensures
            op == Self::spec_all_displays(level),
    {
        if level > 100 {
            Operation::Done { result: Err(VibranceError::InvalidInput) }
        } else {
            Operation::CountGpus { level }
        }
    }

    /// Starts setting `level` on one display by its name. `name_valid` says
    /// whether the name can be handed to the vendor interface.
    pub fn named_display(name_valid: bool, level: u32) -> (op: Operation)
        ensures
            op == Self::spec_named_display(name_valid, level),
    {
        if level > 100 {
            Operation::Done { result: Err(VibranceError::InvalidInput) }
        } else {
            Operation::FindEntry { level, name_valid }
        }
    }

    /// Starts setting `level` on the display behind `handle`.
    pub fn for_handle(handle: DisplayHandle, level: u32) -> (op: Operation)
        ensures
            op == Self::spec_for_handle(handle, level),
    {
        if level > 100 {
            Operation::Done { result: Err(VibranceError::InvalidInput) }
        } else {
            Operation::ReadEntry { level, target: Target::Named, handle }
        }
    }

    /// The call to make next.
    pub fn command(&self) -> (command: Command)
        ensures
            command == self.spec_command(),
    {
        match *self {
            Operation::FindEntry { .. } => Command::Resolve {
                id: NVAPI_GET_ASSOCIATED_NVIDIA_DISPLAY_HANDLE_ID,
            },
            Operation::FindHandle { entry, .. } => Command::FindHandle { entry },
            Operation::CountGpus { .. } => Command::CountGpus,
            Operation::NextHandle { index, .. } => Command::EnumHandle { index },
            Operation::ReadEntry { .. } => Command::Resolve { id: NVAPI_DISP_GET_DVC_INFO_EX_ID },
            Operation::WriteEntry { .. } => Command::Resolve { id: NVAPI_DISP_SET_DVC_LEVEL_EX_ID },
            Operation::ReadInfo { handle, read_entry, .. } => Command::ReadInfo {
                entry: read_entry,
                handle,
                info: NV_DISPLAY_DVC_INFO_EX::new(),
            },
            Operation::WriteLevel { handle, write_entry, info, .. } => Command::WriteLevel {
                entry: write_entry,
                handle,
                info,
            },
            Operation::Done { result } => Command::Finish { result },
        }
    }

    /// The result, once the operation is over.
    pub fn result(&self) -> (result: Option<Result<u32, VibranceError>>)
        ensures
            result == self.spec_result(),
    {
        match *self {
            Operation::Done { result } => Some(result),
            _ => None,
        }
    }

    /// Ends the attempt on one display with `outcome`.
    fn finish_attempt(level: u32, target: Target, outcome: Result<(), VibranceError>) -> (op:
        Operation)
        ensures
            op == Self::after_attempt(level, target, outcome),
    {
        match target {
            Target::Named => match outcome {
                Ok(_) => Operation::Done { result: Ok(1) },
                Err(e) => Operation::Done { result: Err(e) },
            },
            Target::Enumerated { index, updated } => {
                let count = if outcome.is_ok() && updated < u32::MAX {
                    updated + 1
                } else {
                    updated
                };
                if index < u32::MAX {
                    Operation::NextHandle { level, index: index + 1, updated: count }
                } else {
                    Operation::Done { result: Ok(count) }
                }
            },
        }
    }

    /// Takes the answer to the pending command and moves on.
    pub fn step(self, event: Event) -> (next: Operation)
        ensures
            next == self.spec_step(event),
    {
        match (self, event) {
            (Operation::FindEntry { level, name_valid }, Event::Entry { address }) => match address {
                None => Operation::Done { result: Err(VibranceError::HardwareApiUnavailable) },
                Some(entry) => if name_valid {
                    Operation::FindHandle { level, entry }
                } else {
                    Operation::Done { result: Err(VibranceError::InvalidInput) }
                },
            },
            (Operation::FindHandle { level, .. }, Event::Handle { status, handle }) => {
                if status == NVAPI_OK {
                    Operation::ReadEntry { level, target: Target::Named, handle }
                } else {
                    Operation::Done { result: Err(VibranceError::HardwareCallFailed { status }) }
                }
            },
            (Operation::CountGpus { level }, Event::Gpus { count }) => match count {
                Ok(n) => if n > 0 {
                    Operation::NextHandle { level, index: 0, updated: 0 }
                } else {
                    Operation::Done { result: Err(VibranceError::NoGpuFound) }
                },
                Err(_) => Operation::Done { result: Err(VibranceError::NoGpuFound) },
            },
            (Operation::NextHandle { level, index, updated }, Event::Handle { status, handle }) => {
                if status == NVAPI_OK {
                    Operation::ReadEntry {
                        level,
                        target: Target::Enumerated { index, updated },
                        handle,
                    }
                } else {
                    Operation::Done { result: Ok(updated) }
                }
            },
            (Operation::ReadEntry { level, target, handle }, Event::Entry { address }) => match address {
                Some(read_entry) => Operation::WriteEntry { level, target, handle, read_entry },
                None => Self::finish_attempt(
                    level,
                    target,
                    Err(VibranceError::HardwareApiUnavailable),
                ),
            },
            (
                Operation::WriteEntry { level, target, handle, read_entry },
                Event::Entry { address },
            ) => match address {
                Some(write_entry) => Operation::ReadInfo {
                    level,
                    target,
                    handle,
                    read_entry,
                    write_entry,
                },
                None => Self::finish_attempt(
                    level,
                    target,
                    Err(VibranceError::HardwareApiUnavailable),
                ),
            },
            (
                Operation::ReadInfo { level, target, handle, write_entry, .. },
                Event::Info { status, info },
            ) => {
                if status != NVAPI_OK {
                    Self::finish_attempt(
                        level,
                        target,
                        Err(VibranceError::HardwareCallFailed { status }),
                    )
                } else {
                    match info.with_level(level) {
                        Ok(info) => Operation::WriteLevel { level, target, handle, write_entry, info },
                        Err(e) => Self::finish_attempt(level, target, Err(e)),
                    }
                }
            },
            (Operation::WriteLevel { level, target, .. }, Event::Written { status }) => {
                if status == NVAPI_OK {
                    Self::finish_attempt(level, target, Ok(()))
                } else {
                    Self::finish_attempt(
                        level,
                        target,
                        Err(VibranceError::HardwareCallFailed { status }),
                    )
                }
            },
            (op, _) => op,
        }
    }
}

impl Operation {
    /// Whether the operation is in the middle of enumerating the displays:
    /// it waits for the next handle, or is at work on a display that the
    /// enumeration gave.
    pub open spec fn enumerating(self) -> bool {
        match self {
            Operation::NextHandle { .. } => true,
            Operation::ReadEntry { target, .. } | Operation::WriteEntry { target, .. }
            | Operation::ReadInfo { target, .. } | Operation::WriteLevel { target, .. } => target
                is Enumerated,
            _ => false,
        }
    }
}

/// An operation that is over stays as it is, whatever is reported to it: its
/// command is `Finish`, with the same result, for good.
pub proof fn law_finished_operation_is_final(op: Operation, events: Seq<Event>)
    requires
        op is Done,
    ensures
        op.spec_run(events) == op,
        op.spec_run(events).spec_command() == (Command::Finish { result: op->result }),
    decreases events.len(),
{
    if events.len() > 0 {
        law_finished_operation_is_final(op, events.drop_first());
    }
}

/// An event that does not answer the pending command is ignored: the
/// operation stays as it is and goes on waiting for its answer.
pub proof fn law_other_events_are_ignored(op: Operation, event: Event)
    requires
        !op.answers(event),
    ensures
        op.spec_step(event) == op,
        op.spec_step(event).spec_command() == op.spec_command(),
{
}

impl Operation {
    /// The most answers that an operation on one display still needs
    /// before it is over.
    pub open spec fn answers_left(self) -> nat {
        match self {
            Operation::FindEntry { .. } => 6,
            Operation::FindHandle { .. } => 5,
            Operation::ReadEntry { .. } => 4,
            Operation::WriteEntry { .. } => 3,
            Operation::ReadInfo { .. } => 2,
            Operation::WriteLevel { .. } => 1,
            _ => 0,
        }
    }
}

/// An operation on one display ends after six answers at most: each
/// answer to its pending command brings it nearer to its end.
pub proof fn law_each_answer_advances(op: Operation, event: Event)
    requires
        op.answers(event),
        !op.enumerating(),
        !(op is CountGpus),
    ensures
        op.spec_step(event).answers_left() < op.answers_left(),
        !op.spec_step(event).enumerating(),
        !(op.spec_step(event) is CountGpus),
{
}

/// A level above 100 is refused before any vendor call. However the
/// operation is started, the first command is `Finish` with `InvalidInput`,
/// and no other command ever follows.
pub proof fn law_level_above_100_calls_nothing(
    level: u32,
    name_valid: bool,
    handle: DisplayHandle,
    events: Seq<Event>,
)
    requires
        level > 100,
    ensures
        Operation::spec_all_displays(level).spec_run(events).spec_command() == (Command::Finish {
            result: Err(VibranceError::InvalidInput),
        }),
        Operation::spec_named_display(name_valid, level).spec_run(events).spec_command() == (
        Command::Finish { result: Err(VibranceError::InvalidInput) }),
        Operation::spec_for_handle(handle, level).spec_run(events).spec_command() == (
        Command::Finish { result: Err(VibranceError::InvalidInput) }),
{
    let rejected = Operation::Done { result: Err(VibranceError::InvalidInput) };
    law_finished_operation_is_final(rejected, events);
}

/// The level that an operation writes is the one that its percent selects
/// in the range that the display has just reported: the minimum plus the
/// percent's share of the span, rounded down. The write goes to the handle
/// that was read, through the entry point resolved for writing, and leaves
/// the other fields of the structure as they were read.
pub proof fn law_write_follows_read(
    level: u32,
    target: Target,
    handle: DisplayHandle,
    read_entry: usize,
    write_entry: usize,
    info: NV_DISPLAY_DVC_INFO_EX,
)
    requires
        level <= 100,
    ensures
        ({
            let reading = Operation::ReadInfo { level, target, handle, read_entry, write_entry };
            let written = NV_DISPLAY_DVC_INFO_EX {
                current_level: (info.min_level + (level * (info.max_level - info.min_level)) / 100) as u32,
                ..info
            };
            &&& reading.spec_step(Event::Info { status: NVAPI_OK, info }).spec_command() == (
            Command::WriteLevel { entry: write_entry, handle, info: written })
            &&& info.min_level + (level * (info.max_level - info.min_level)) / 100 == written.current_level
            &&& info.min_level <= info.max_level ==> info.min_level <= written.current_level
                <= info.max_level
        }),
{
    lemma_native_level_bounds(info.min_level as int, info.max_level as int, level as int);
}

/// The enumeration of the displays ends on the first status that is not
/// success, be it the end of the enumeration or a failure: the operation is
/// then over and reports the displays it has updated, never an error.
pub proof fn law_enumeration_stops_quietly(
    level: u32,
    index: u32,
    updated: u32,
    status: i32,
    handle: DisplayHandle,
)
    requires
        status != NVAPI_OK,
    ensures
        (Operation::NextHandle { level, index, updated }).spec_step(
            Event::Handle { status, handle },
        ) == (Operation::Done { result: Ok(updated) }),
{
}

/// Each display that the enumeration gives gets one attempt, and the
/// attempt's failure is passed over: once the operation enumerates, it goes
/// on enumerating or ends with success, whatever the vendor calls answer.
pub proof fn law_enumeration_never_fails(op: Operation, events: Seq<Event>)
    requires
        op.enumerating(),
    ensures
        op.spec_run(events).enumerating() || (op.spec_run(events) matches Operation::Done {
            result: Ok(_),
        }),
    decreases events.len(),
{
    if events.len() > 0 {
        let next = op.spec_step(events[0]);
        if next.enumerating() {
            law_enumeration_never_fails(next, events.drop_first());
        } else {
            law_finished_operation_is_final(next, events.drop_first());
        }
    }
}

/// How the attempt on one display goes: the answers that the vendor calls
/// give, up to the first that ends the attempt.
pub enum Attempt {
    /// The information read cannot be resolved.
    ReadUnresolved,
    /// The level write cannot be resolved.
    WriteUnresolved { read_entry: usize },
    /// The read fails with `status`.
    ReadFailed { read_entry: usize, write_entry: usize, status: i32, info: NV_DISPLAY_DVC_INFO_EX },
    /// The write fails with `status`.
    WriteFailed { read_entry: usize, write_entry: usize, info: NV_DISPLAY_DVC_INFO_EX, status: i32 },
    /// The display reports `info` and takes the level.
    Written { read_entry: usize, write_entry: usize, info: NV_DISPLAY_DVC_INFO_EX },
}

impl Attempt {
    /// Whether each status that stands for a failure is one.
    pub open spec fn well_formed(self) -> bool {
        match self {
            Attempt::ReadFailed { status, .. } => status != NVAPI_OK,
            Attempt::WriteFailed { status, .. } => status != NVAPI_OK,
            _ => true,
        }
    }

    /// The events that the attempt reports, in their order.
    pub open spec fn events(self) -> Seq<Event> {
        match self {
            Attempt::ReadUnresolved => seq![Event::Entry { address: None }],
            Attempt::WriteUnresolved { read_entry } => seq![
                Event::Entry { address: Some(read_entry) },
                Event::Entry { address: None },
            ],
            Attempt::ReadFailed { read_entry, write_entry, status, info } => seq![
                Event::Entry { address: Some(read_entry) },
                Event::Entry { address: Some(write_entry) },
                Event::Info { status, info },
            ],
            Attempt::WriteFailed { read_entry, write_entry, info, status } => seq![
                Event::Entry { address: Some(read_entry) },
                Event::Entry { address: Some(write_entry) },
                Event::Info { status: NVAPI_OK, info },
                Event::Written { status },
            ],
            Attempt::Written { read_entry, write_entry, info } => seq![
                Event::Entry { address: Some(read_entry) },
                Event::Entry { address: Some(write_entry) },
                Event::Info { status: NVAPI_OK, info },
                Event::Written { status: NVAPI_OK },
            ],
        }
    }
}

/// The events that an enumeration reports when it finds `displays` in this
/// order: for each display its handle, then what the attempt on it meets.
pub open spec fn enumeration_events(displays: Seq<(DisplayHandle, Attempt)>) -> Seq<Event>
    decreases displays.len(),
{
    if displays.len() == 0 {
        Seq::empty()
    } else {
        seq![Event::Handle { status: NVAPI_OK, handle: displays[0].0 }] + displays[0].1.events()
            + enumeration_events(displays.drop_first())
    }
}

/// The number of `displays` that take the level.
pub open spec fn displays_written(displays: Seq<(DisplayHandle, Attempt)>) -> nat
    decreases displays.len(),
{
    if displays.len() == 0 {
        0
    } else {
        (if displays[0].1 is Written {
            1nat
        } else {
            0nat
        }) + displays_written(displays.drop_first())
    }
}

impl Operation {
    /// The number of attempts that begin while the operation takes
    /// `events`: the steps that lead into the resolving of the read.
    pub open spec fn spec_attempts(self, events: Seq<Event>) -> nat
        decreases events.len(),
    {
        if events.len() == 0 {
            0
        } else {
            let next = self.spec_step(events[0]);
            (if !(self is ReadEntry) && next is ReadEntry {
                1nat
            } else {
                0nat
            }) + next.spec_attempts(events.drop_first())
        }
    }
}

/// Taking two runs of events one after the other is taking them as one.
pub proof fn lemma_run_in_two_parts(op: Operation, first: Seq<Event>, second: Seq<Event>)
    ensures
        op.spec_run(first + second) == op.spec_run(first).spec_run(second),
        op.spec_attempts(first + second) == op.spec_attempts(first) + op.spec_run(
            first,
        ).spec_attempts(second),
    decreases first.len(),
{
    if first.len() == 0 {
        assert(first + second =~= second);
    } else {
        assert((first + second).drop_first() =~= first.drop_first() + second);
        lemma_run_in_two_parts(op.spec_step(first[0]), first.drop_first(), second);
    }
}

/// An attempt within an enumeration ends where the next index is asked
/// for, with the count one higher if the display took the level, and begins
/// no other attempt on its way.
proof fn lemma_attempt_runs_to_next_index(
    level: u32,
    index: u32,
    updated: u32,
    handle: DisplayHandle,
    attempt: Attempt,
)
    requires
        level <= 100,
        index < u32::MAX,
        updated <= index,
        attempt.well_formed(),
    ensures
        ({
            let begun = Operation::ReadEntry {
                level,
                target: Target::Enumerated { index, updated },
                handle,
            };
            &&& begun.spec_run(attempt.events()) == (Operation::NextHandle {
                level,
                index: (index + 1) as u32,
                updated: if attempt is Written {
                    (updated + 1) as u32
                } else {
                    updated
                },
            })
            &&& begun.spec_attempts(attempt.events()) == 0
        }),
{
    reveal_with_fuel(Operation::spec_run, 5);
    reveal_with_fuel(Operation::spec_attempts, 5);
}

/// The enumeration from `index` on: see
/// [`law_enumeration_attempts_each_display_once`].
proof fn lemma_enumeration_from(
    level: u32,
    index: u32,
    updated: u32,
    displays: Seq<(DisplayHandle, Attempt)>,
    stop: Event,
)
    requires
        level <= 100,
        updated <= index,
        index + displays.len() <= u32::MAX,
        forall|i: int| 0 <= i < displays.len() ==> (#[trigger] displays[i]).1.well_formed(),
        stop matches Event::Handle { status, .. } && status != NVAPI_OK,
    ensures
        ({
            let waiting = Operation::NextHandle { level, index, updated };
            let events = enumeration_events(displays).push(stop);
            &&& waiting.spec_run(events) == (Operation::Done {
                result: Ok((updated + displays_written(displays)) as u32),
            })
            &&& waiting.spec_attempts(events) == displays.len()
            &&& displays_written(displays) <= displays.len()
        }),
    decreases displays.len(),
{
    let waiting = Operation::NextHandle { level, index, updated };
    reveal_with_fuel(Operation::spec_run, 2);
    reveal_with_fuel(Operation::spec_attempts, 2);
    if displays.len() == 0 {
        assert(enumeration_events(displays).push(stop) =~= seq![stop]);
    } else {
        let (handle, attempt) = displays[0];
        let rest = displays.drop_first();
        let found = seq![Event::Handle { status: NVAPI_OK, handle }];
        let tail = enumeration_events(rest).push(stop);
        assert(enumeration_events(displays).push(stop) =~= found + (attempt.events() + tail));
        let begun = Operation::ReadEntry {
            level,
            target: Target::Enumerated { index, updated },
            handle,
        };
        assert(waiting.spec_run(found) == begun);
        assert(waiting.spec_attempts(found) == 1);
        lemma_run_in_two_parts(waiting, found, attempt.events() + tail);
        lemma_attempt_runs_to_next_index(level, index, updated, handle, attempt);
        lemma_run_in_two_parts(begun, attempt.events(), tail);
        let count = if attempt is Written {
            (updated + 1) as u32
        } else {
            updated
        };
        assert forall|i: int| 0 <= i < rest.len() implies (#[trigger] rest[i]).1.well_formed() by {
            assert(rest[i] == displays[i + 1]);
        }
        lemma_enumeration_from(level, (index + 1) as u32, count, rest, stop);
    }
}

/// Enumeration stop. Whatever the displays that an enumeration finds and
/// however the attempt on each of them goes, the operation that sets a
/// level on all displays makes one attempt on each display found, stops at
/// the first handle request that is not answered with success, be that the
/// end of the enumeration or a failure, and then reports as its result the
/// number of displays that took the level, never an error.
pub proof fn law_enumeration_attempts_each_display_once(
    level: u32,
    gpus: usize,
    displays: Seq<(DisplayHandle, Attempt)>,
    stop: Event,
)
    requires
        level <= 100,
        gpus > 0,
        displays.len() <= u32::MAX,
        forall|i: int| 0 <= i < displays.len() ==> (#[trigger] displays[i]).1.well_formed(),
        stop matches Event::Handle { status, .. } && status != NVAPI_OK,
    ensures
        ({
            let events = seq![Event::Gpus { count: Ok(gpus) }] + enumeration_events(displays).push(
                stop,
            );
            let start = Operation::spec_all_displays(level);
            &&& start.spec_run(events) == (Operation::Done {
                result: Ok(displays_written(displays) as u32),
            })
            &&& start.spec_attempts(events) == displays.len()
            &&& displays_written(displays) <= displays.len()
        }),
{
    let start = Operation::spec_all_displays(level);
    let counted = seq![Event::Gpus { count: Ok(gpus) }];
    reveal_with_fuel(Operation::spec_run, 2);
    reveal_with_fuel(Operation::spec_attempts, 2);
    assert(start.spec_run(counted) == (Operation::NextHandle { level, index: 0, updated: 0 }));
    assert(start.spec_attempts(counted) == 0);
    lemma_run_in_two_parts(start, counted, enumeration_events(displays).push(stop));
    lemma_enumeration_from(level, 0, 0, displays, stop);
}

} // verus!
