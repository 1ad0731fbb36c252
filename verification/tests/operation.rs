use vibrance_monitor::dvc::{
    NVAPI_DISP_GET_DVC_INFO_EX_ID, NVAPI_DISP_SET_DVC_LEVEL_EX_ID, NVAPI_END_ENUMERATION,
    NVAPI_GET_ASSOCIATED_NVIDIA_DISPLAY_HANDLE_ID, NVAPI_OK, NV_DISPLAY_DVC_INFO_EX,
};
use vibrance_monitor::error::VibranceError;
use vibrance_monitor::operation::{Command, DisplayHandle, Event, Operation, Target};
use vibrance_monitor::vibrance::NvidiaController;

const GENERIC_ERROR: i32 = -1;
const INVALID_HANDLE: i32 = -8;
const NOT_SUPPORTED: i32 = -104;

/// A scripted vendor interface that counts the calls made on it.
struct Stub {
    /// Interface ids that the runtime does not know.
    missing: Vec<u32>,
    /// What the GPU count answers.
    gpus: Result<usize, i32>,
    /// What the lookup by name answers.
    named: (i32, usize),
    /// What the enumeration answers at each index; past the end it reports
    /// the end of the enumeration.
    enumerated: Vec<(i32, usize)>,
    /// Handles on which the read fails, with the status.
    read_fails: Vec<(usize, i32)>,
    /// Handles on which the write fails, with the status.
    write_fails: Vec<(usize, i32)>,
    /// Range reported by every display.
    min: u32,
    max: u32,
    resolves: Vec<u32>,
    counts: usize,
    lookups: usize,
    enum_calls: Vec<u32>,
    reads: Vec<usize>,
    writes: Vec<(usize, u32)>,
}

fn address_of(id: u32) -> usize {
    0x1000 + (id as usize & 0xfff)
}

impl Stub {
    fn new() -> Stub {
        Stub {
            missing: Vec::new(),
            gpus: Ok(1),
            named: (NVAPI_OK, 0xd1),
            enumerated: Vec::new(),
            read_fails: Vec::new(),
            write_fails: Vec::new(),
            min: 0,
            max: 63,
            resolves: Vec::new(),
            counts: 0,
            lookups: 0,
            enum_calls: Vec::new(),
            reads: Vec::new(),
            writes: Vec::new(),
        }
    }

    fn with_displays(handles: &[usize]) -> Stub {
        let mut stub = Stub::new();
        stub.enumerated = handles.iter().map(|h| (NVAPI_OK, *h)).collect();
        stub
    }

    /// Attempts to apply a level: each begins by resolving the read.
    fn attempts(&self) -> usize {
        self.resolves.iter().filter(|id| **id == NVAPI_DISP_GET_DVC_INFO_EX_ID).count()
    }

    fn answer(&mut self, command: Command) -> Event {
        match command {
            Command::Resolve { id } => {
                self.resolves.push(id);
                if self.missing.contains(&id) {
                    Event::Entry { address: None }
                } else {
                    Event::Entry { address: Some(address_of(id)) }
                }
            }
            Command::CountGpus => {
                self.counts += 1;
                Event::Gpus { count: self.gpus }
            }
            Command::FindHandle { entry } => {
                assert_eq!(entry, address_of(NVAPI_GET_ASSOCIATED_NVIDIA_DISPLAY_HANDLE_ID));
                self.lookups += 1;
                Event::Handle { status: self.named.0, handle: DisplayHandle { raw: self.named.1 } }
            }
            Command::EnumHandle { index } => {
                self.enum_calls.push(index);
                match self.enumerated.get(index as usize) {
                    Some((status, raw)) => {
                        Event::Handle { status: *status, handle: DisplayHandle { raw: *raw } }
                    }
                    None => Event::Handle {
                        status: NVAPI_END_ENUMERATION,
                        handle: DisplayHandle { raw: 0 },
                    },
                }
            }
            Command::ReadInfo { entry, handle, info } => {
                assert_eq!(entry, address_of(NVAPI_DISP_GET_DVC_INFO_EX_ID));
                assert_eq!(info, NV_DISPLAY_DVC_INFO_EX::new());
                self.reads.push(handle.raw);
                match self.read_fails.iter().find(|(raw, _)| *raw == handle.raw) {
                    Some((_, status)) => Event::Info { status: *status, info },
                    None => Event::Info {
                        status: NVAPI_OK,
                        info: NV_DISPLAY_DVC_INFO_EX {
                            version: info.version,
                            current_level: self.min,
                            min_level: self.min,
                            max_level: self.max,
                            default_level: self.min,
                        },
                    },
                }
            }
            Command::WriteLevel { entry, handle, info } => {
                assert_eq!(entry, address_of(NVAPI_DISP_SET_DVC_LEVEL_EX_ID));
                assert_eq!(info.version, 0x0001_0014);
                assert_eq!(info.min_level, self.min);
                assert_eq!(info.max_level, self.max);
                self.writes.push((handle.raw, info.current_level));
                match self.write_fails.iter().find(|(raw, _)| *raw == handle.raw) {
                    Some((_, status)) => Event::Written { status: *status },
                    None => Event::Written { status: NVAPI_OK },
                }
            }
            Command::Finish { .. } => unreachable!(),
        }
    }

    /// Runs `op` to its end against the stub.
    fn run(&mut self, mut op: Operation) -> Result<u32, VibranceError> {
        for _ in 0..10_000 {
            match op.command() {
                Command::Finish { result } => {
                    assert_eq!(op.result(), Some(result));
                    return result;
                }
                command => {
                    assert_eq!(op.result(), None);
                    let event = self.answer(command);
                    op = op.step(event);
                }
            }
        }
        panic!("the operation did not end");
    }

    fn vendor_calls(&self) -> usize {
        self.resolves.len()
            + self.counts
            + self.lookups
            + self.enum_calls.len()
            + self.reads.len()
            + self.writes.len()
    }
}

fn controller() -> NvidiaController {
    NvidiaController::from_init(Ok(())).unwrap()
}

#[test]
fn set_vibrance_rejects_level_above_100_before_any_call() {
    let mut stub = Stub::with_displays(&[1, 2]);
    let op = controller().set_vibrance(101);
    assert_eq!(op.command(), Command::Finish { result: Err(VibranceError::InvalidInput) });
    assert_eq!(stub.run(op), Err(VibranceError::InvalidInput));
    assert_eq!(stub.vendor_calls(), 0);
    let op = controller().set_vibrance(u32::MAX);
    assert_eq!(op.command(), Command::Finish { result: Err(VibranceError::InvalidInput) });
}

#[test]
fn set_vibrance_for_display_rejects_level_above_100_before_any_call() {
    let mut stub = Stub::new();
    let op = controller().set_vibrance_for_display("\\\\.\\DISPLAY1", 101);
    assert_eq!(op.command(), Command::Finish { result: Err(VibranceError::InvalidInput) });
    assert_eq!(stub.run(op), Err(VibranceError::InvalidInput));
    assert_eq!(stub.vendor_calls(), 0);
}

#[test]
fn set_dvc_for_handle_rejects_level_above_100_before_any_call() {
    let mut stub = Stub::new();
    let op = controller().set_dvc_for_handle(DisplayHandle { raw: 5 }, 200);
    assert_eq!(op.command(), Command::Finish { result: Err(VibranceError::InvalidInput) });
    assert_eq!(stub.run(op), Err(VibranceError::InvalidInput));
    assert_eq!(stub.vendor_calls(), 0);
}

#[test]
fn level_of_exactly_100_is_accepted() {
    let mut stub = Stub::with_displays(&[1]);
    let op = controller().set_vibrance(100);
    assert_eq!(op.command(), Command::CountGpus);
    assert_eq!(stub.run(op), Ok(1));
    assert_eq!(stub.writes, vec![(1, 63)]);
}

#[test]
fn set_vibrance_applies_to_two_displays_then_stops_at_end_of_enumeration() {
    let mut stub = Stub::with_displays(&[0xa0, 0xa1]);
    let op = controller().set_vibrance(50);
    assert_eq!(stub.run(op), Ok(2));
    assert_eq!(stub.enum_calls, vec![0, 1, 2]);
    assert_eq!(stub.attempts(), 2);
    assert_eq!(stub.reads, vec![0xa0, 0xa1]);
    assert_eq!(stub.writes, vec![(0xa0, 31), (0xa1, 31)]);
}

#[test]
fn set_vibrance_stops_quietly_when_enumeration_fails() {
    let mut stub = Stub::with_displays(&[0xa0]);
    stub.enumerated.push((GENERIC_ERROR, 0xa1));
    stub.enumerated.push((NVAPI_OK, 0xa2));
    let op = controller().set_vibrance(50);
    assert_eq!(stub.run(op), Ok(1));
    assert_eq!(stub.enum_calls, vec![0, 1]);
    assert_eq!(stub.attempts(), 1);
    assert_eq!(stub.writes, vec![(0xa0, 31)]);
}

#[test]
fn set_vibrance_with_no_display_is_a_soft_failure() {
    let mut stub = Stub::with_displays(&[]);
    let op = controller().set_vibrance(50);
    assert_eq!(stub.run(op), Ok(0));
    assert_eq!(stub.enum_calls, vec![0]);
    assert_eq!(stub.attempts(), 0);
    assert!(stub.writes.is_empty());
}

#[test]
fn set_vibrance_with_enumeration_failing_at_once_is_a_soft_failure() {
    let mut stub = Stub::new();
    stub.enumerated.push((INVALID_HANDLE, 0));
    let op = controller().set_vibrance(50);
    assert_eq!(stub.run(op), Ok(0));
    assert_eq!(stub.attempts(), 0);
}

#[test]
fn set_vibrance_without_gpu_is_a_hard_failure() {
    let mut stub = Stub::with_displays(&[1, 2]);
    stub.gpus = Ok(0);
    let op = controller().set_vibrance(50);
    assert_eq!(stub.run(op), Err(VibranceError::NoGpuFound));
    assert!(stub.enum_calls.is_empty());
    assert_eq!(stub.attempts(), 0);
}

#[test]
fn set_vibrance_with_failing_gpu_enumeration_is_a_hard_failure() {
    let mut stub = Stub::with_displays(&[1, 2]);
    stub.gpus = Err(GENERIC_ERROR);
    let op = controller().set_vibrance(50);
    assert_eq!(stub.run(op), Err(VibranceError::NoGpuFound));
    assert!(stub.enum_calls.is_empty());
}

#[test]
fn set_vibrance_skips_a_display_whose_read_fails() {
    let mut stub = Stub::with_displays(&[1, 2, 3]);
    stub.read_fails.push((2, NOT_SUPPORTED));
    let op = controller().set_vibrance(100);
    assert_eq!(stub.run(op), Ok(2));
    assert_eq!(stub.attempts(), 3);
    assert_eq!(stub.reads, vec![1, 2, 3]);
    assert_eq!(stub.writes, vec![(1, 63), (3, 63)]);
}

#[test]
fn set_vibrance_skips_a_display_whose_write_fails() {
    let mut stub = Stub::with_displays(&[1, 2, 3]);
    stub.write_fails.push((1, GENERIC_ERROR));
    let op = controller().set_vibrance(0);
    assert_eq!(stub.run(op), Ok(2));
    assert_eq!(stub.attempts(), 3);
    assert_eq!(stub.writes, vec![(1, 0), (2, 0), (3, 0)]);
}

#[test]
fn set_vibrance_reports_zero_when_every_display_fails() {
    let mut stub = Stub::with_displays(&[1, 2]);
    stub.read_fails.push((1, NOT_SUPPORTED));
    stub.write_fails.push((2, NOT_SUPPORTED));
    let op = controller().set_vibrance(10);
    assert_eq!(stub.run(op), Ok(0));
    assert_eq!(stub.attempts(), 2);
}

#[test]
fn set_vibrance_goes_on_when_an_entry_point_is_missing() {
    let mut stub = Stub::with_displays(&[1, 2]);
    stub.missing.push(NVAPI_DISP_SET_DVC_LEVEL_EX_ID);
    let op = controller().set_vibrance(10);
    assert_eq!(stub.run(op), Ok(0));
    assert_eq!(stub.enum_calls, vec![0, 1, 2]);
    assert_eq!(stub.attempts(), 2);
    assert!(stub.reads.is_empty());
    assert!(stub.writes.is_empty());
}

#[test]
fn set_vibrance_writes_the_scaled_level() {
    let mut stub = Stub::with_displays(&[9]);
    stub.min = 0;
    stub.max = 63;
    assert_eq!(stub.run(controller().set_vibrance(33)), Ok(1));
    assert_eq!(stub.writes, vec![(9, 20)]);
    let mut stub = Stub::with_displays(&[9]);
    stub.min = 10;
    stub.max = 110;
    assert_eq!(stub.run(controller().set_vibrance(25)), Ok(1));
    assert_eq!(stub.writes, vec![(9, 35)]);
}

#[test]
fn set_vibrance_for_display_runs_lookup_read_and_write() {
    let mut stub = Stub::new();
    stub.named = (NVAPI_OK, 0xd7);
    let op = controller().set_vibrance_for_display("\\\\.\\DISPLAY1", 100);
    assert_eq!(
        op.command(),
        Command::Resolve { id: NVAPI_GET_ASSOCIATED_NVIDIA_DISPLAY_HANDLE_ID }
    );
    assert_eq!(stub.run(op), Ok(1));
    assert_eq!(
        stub.resolves,
        vec![
            NVAPI_GET_ASSOCIATED_NVIDIA_DISPLAY_HANDLE_ID,
            NVAPI_DISP_GET_DVC_INFO_EX_ID,
            NVAPI_DISP_SET_DVC_LEVEL_EX_ID
        ]
    );
    assert_eq!(stub.lookups, 1);
    assert_eq!(stub.reads, vec![0xd7]);
    assert_eq!(stub.writes, vec![(0xd7, 63)]);
    assert!(stub.enum_calls.is_empty());
    assert_eq!(stub.counts, 0);
}

#[test]
fn set_vibrance_for_display_fails_when_lookup_cannot_be_resolved() {
    let mut stub = Stub::new();
    stub.missing.push(NVAPI_GET_ASSOCIATED_NVIDIA_DISPLAY_HANDLE_ID);
    let op = controller().set_vibrance_for_display("\\\\.\\DISPLAY1", 50);
    assert_eq!(stub.run(op), Err(VibranceError::HardwareApiUnavailable));
    assert_eq!(stub.lookups, 0);
    assert!(stub.writes.is_empty());
}

#[test]
fn set_vibrance_for_display_fails_when_display_is_unknown() {
    let mut stub = Stub::new();
    stub.named = (INVALID_HANDLE, 0);
    let op = controller().set_vibrance_for_display("\\\\.\\DISPLAY9", 50);
    assert_eq!(stub.run(op), Err(VibranceError::HardwareCallFailed { status: INVALID_HANDLE }));
    assert_eq!(stub.attempts(), 0);
}

#[test]
fn set_vibrance_for_display_rejects_name_with_nul_after_resolving() {
    let mut stub = Stub::new();
    let op = controller().set_vibrance_for_display("DISPLAY\u{0}1", 50);
    assert_eq!(stub.run(op), Err(VibranceError::InvalidInput));
    assert_eq!(stub.resolves, vec![NVAPI_GET_ASSOCIATED_NVIDIA_DISPLAY_HANDLE_ID]);
    assert_eq!(stub.lookups, 0);
}

#[test]
fn set_dvc_for_handle_fails_when_read_entry_is_missing() {
    let mut stub = Stub::new();
    stub.missing.push(NVAPI_DISP_GET_DVC_INFO_EX_ID);
    let op = controller().set_dvc_for_handle(DisplayHandle { raw: 3 }, 50);
    assert_eq!(stub.run(op), Err(VibranceError::HardwareApiUnavailable));
    assert_eq!(stub.resolves, vec![NVAPI_DISP_GET_DVC_INFO_EX_ID]);
}

#[test]
fn set_dvc_for_handle_fails_when_write_entry_is_missing() {
    let mut stub = Stub::new();
    stub.missing.push(NVAPI_DISP_SET_DVC_LEVEL_EX_ID);
    let op = controller().set_dvc_for_handle(DisplayHandle { raw: 3 }, 50);
    assert_eq!(stub.run(op), Err(VibranceError::HardwareApiUnavailable));
    assert!(stub.reads.is_empty());
}

#[test]
fn set_dvc_for_handle_reports_status_of_failed_read() {
    let mut stub = Stub::new();
    stub.read_fails.push((3, NOT_SUPPORTED));
    let op = controller().set_dvc_for_handle(DisplayHandle { raw: 3 }, 50);
    assert_eq!(stub.run(op), Err(VibranceError::HardwareCallFailed { status: NOT_SUPPORTED }));
    assert!(stub.writes.is_empty());
}

#[test]
fn set_dvc_for_handle_reports_status_of_failed_write() {
    let mut stub = Stub::new();
    stub.write_fails.push((3, GENERIC_ERROR));
    let op = controller().set_dvc_for_handle(DisplayHandle { raw: 3 }, 50);
    assert_eq!(stub.run(op), Err(VibranceError::HardwareCallFailed { status: GENERIC_ERROR }));
    assert_eq!(stub.writes, vec![(3, 31)]);
}

#[test]
fn set_dvc_for_handle_succeeds_on_one_display() {
    let mut stub = Stub::new();
    let op = controller().set_dvc_for_handle(DisplayHandle { raw: 3 }, 50);
    assert_eq!(stub.run(op), Ok(1));
    assert_eq!(stub.reads, vec![3]);
    assert_eq!(stub.writes, vec![(3, 31)]);
}

#[test]
fn event_that_does_not_answer_is_ignored() {
    let op = Operation::all_displays(50);
    assert_eq!(op.step(Event::Written { status: NVAPI_OK }), op);
    assert_eq!(op.step(Event::Entry { address: Some(1) }), op);
    let op = op.step(Event::Gpus { count: Ok(2) });
    assert_eq!(op, Operation::NextHandle { level: 50, index: 0, updated: 0 });
    assert_eq!(op.step(Event::Gpus { count: Ok(2) }), op);
    assert_eq!(op.step(Event::Info { status: 0, info: NV_DISPLAY_DVC_INFO_EX::new() }), op);
}

#[test]
fn finished_operation_stays_finished() {
    let op = Operation::Done { result: Ok(2) };
    assert_eq!(op.step(Event::Gpus { count: Ok(1) }), op);
    assert_eq!(op.step(Event::Handle { status: 0, handle: DisplayHandle { raw: 1 } }), op);
    assert_eq!(op.command(), Command::Finish { result: Ok(2) });
    assert_eq!(op.result(), Some(Ok(2)));
}

#[test]
fn enumeration_ends_at_the_last_index() {
    let op = Operation::WriteLevel {
        level: 50,
        target: Target::Enumerated { index: u32::MAX, updated: 7 },
        handle: DisplayHandle { raw: 1 },
        write_entry: 2,
        info: NV_DISPLAY_DVC_INFO_EX::new(),
    };
    assert_eq!(op.step(Event::Written { status: NVAPI_OK }), Operation::Done { result: Ok(8) });
    assert_eq!(
        op.step(Event::Written { status: GENERIC_ERROR }),
        Operation::Done { result: Ok(7) }
    );
}

#[test]
fn operation_steps_through_the_documented_states() {
    let handle = DisplayHandle { raw: 0x44 };
    let op = Operation::named_display(true, 33);
    assert_eq!(op, Operation::FindEntry { level: 33, name_valid: true });
    let op = op.step(Event::Entry { address: Some(0x10) });
    assert_eq!(op, Operation::FindHandle { level: 33, entry: 0x10 });
    assert_eq!(op.command(), Command::FindHandle { entry: 0x10 });
    let op = op.step(Event::Handle { status: NVAPI_OK, handle });
    assert_eq!(op, Operation::for_handle(handle, 33));
    assert_eq!(op.command(), Command::Resolve { id: NVAPI_DISP_GET_DVC_INFO_EX_ID });
    let op = op.step(Event::Entry { address: Some(0x20) });
    assert_eq!(op.command(), Command::Resolve { id: NVAPI_DISP_SET_DVC_LEVEL_EX_ID });
    let op = op.step(Event::Entry { address: Some(0x30) });
    assert_eq!(
        op.command(),
        Command::ReadInfo { entry: 0x20, handle, info: NV_DISPLAY_DVC_INFO_EX::new() }
    );
    let read = NV_DISPLAY_DVC_INFO_EX {
        version: 0x0001_0014,
        current_level: 5,
        min_level: 0,
        max_level: 63,
        default_level: 0,
    };
    let op = op.step(Event::Info { status: NVAPI_OK, info: read });
    assert_eq!(
        op.command(),
        Command::WriteLevel {
            entry: 0x30,
            handle,
            info: NV_DISPLAY_DVC_INFO_EX { current_level: 20, ..read }
        }
    );
    let op = op.step(Event::Written { status: NVAPI_OK });
    assert_eq!(op, Operation::Done { result: Ok(1) });
}
