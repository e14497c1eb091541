use std::cell::RefCell;
use std::rc::Rc;
use uxn::device::{
    BitmapDevice, BitmapOutcome, Device, NullDevice, PortAddress, VectorDevice, VectorOutcome,
};
use uxn::error::{ExecutionResult, UxnError};
use uxn::interpreter::{device_call, route};
use uxn::mode::InstructionMode;
use uxn::opcode::Opcode;
use uxn::uxn::Uxn;

fn none() -> InstructionMode {
    InstructionMode::none()
}

/// A device that records what it is asked and answers with its slot number.
struct Recorder {
    slot: u8,
    log: Rc<RefCell<Vec<(u8, &'static str, PortAddress, u8)>>>,
}

impl Device for Recorder {
    fn dei(&self, port: PortAddress) -> ExecutionResult<u8> {
        self.log.borrow_mut().push((self.slot, "dei", port, 0));
        Ok(0xa0 + self.slot)
    }

    fn deo(&mut self, port: PortAddress, value: u8) -> ExecutionResult<()> {
        self.log.borrow_mut().push((self.slot, "deo", port, value));
        if value == 0xee {
            Err(UxnError::StackOverflow)
        } else {
            Ok(())
        }
    }
}

type Log = Rc<RefCell<Vec<(u8, &'static str, PortAddress, u8)>>>;

/// A machine with a recorder in each of the slots 1 to 15.
fn recording_machine() -> (Uxn, Log) {
    let log: Log = Rc::new(RefCell::new(Vec::new()));
    let mut slot: u8 = 0;
    let devices: [Option<Box<dyn Device>>; 16] = std::array::from_fn(|_| {
        let device: Option<Box<dyn Device>> =
            Some(Box::new(Recorder { slot, log: log.clone() }));
        slot += 1;
        device
    });
    (Uxn::with_devices(devices), log)
}

#[test]
fn a_write_to_port_15_goes_to_slot_1_alone() {
    let (mut uxn, log) = recording_machine();
    uxn.push8(0x42, none()).unwrap();
    uxn.push8(0x15, none()).unwrap();
    uxn.load_program(&[Opcode::DEO as u8, 0x00], 0x100);
    assert_eq!(uxn.eval(0x100), Ok(()));
    assert_eq!(*log.borrow(), vec![(1, "deo", 5, 0x42)]);
    assert_eq!(uxn.working_stack().ptr(), 0);
    assert!(!uxn.is_halted());
}

#[test]
fn each_slot_gets_its_own_accesses() {
    let (mut uxn, log) = recording_machine();
    for slot in 1..16u8 {
        uxn.push8(slot as u16, none()).unwrap();
        uxn.push8(((slot << 4) | 0x0f) as u16, none()).unwrap();
        assert_eq!(uxn.execute(Opcode::DEO, none()), Ok(()));
        uxn.push8((slot << 4) as u16, none()).unwrap();
        assert_eq!(uxn.execute(Opcode::DEI, none()), Ok(()));
        assert_eq!(uxn.pop8(none()), Ok(0xa0 + slot as u16));
    }
    let expected: Vec<(u8, &'static str, PortAddress, u8)> = (1..16u8)
        .flat_map(|slot| vec![(slot, "deo", 0x0f, slot), (slot, "dei", 0x00, 0)])
        .collect();
    assert_eq!(*log.borrow(), expected);
    assert!(!uxn.is_halted());
}

#[test]
fn slot_0_never_reaches_a_host_device() {
    let (mut uxn, log) = recording_machine();
    uxn.push8(0x00, none()).unwrap();
    uxn.push8(0x08, none()).unwrap();
    assert_eq!(uxn.execute(Opcode::DEO, none()), Ok(()));
    uxn.push8(0x02, none()).unwrap();
    assert_eq!(uxn.execute(Opcode::DEI, none()), Ok(()));
    assert!(log.borrow().is_empty());
}

#[test]
fn a_short_write_hands_over_the_low_byte() {
    let (mut uxn, log) = recording_machine();
    uxn.push16(0x1234, none()).unwrap();
    uxn.push8(0x21, none()).unwrap();
    assert_eq!(uxn.execute(Opcode::DEO, InstructionMode::short_flag()), Ok(()));
    assert_eq!(*log.borrow(), vec![(2, "deo", 1, 0x34)]);
    assert_eq!(uxn.working_stack().ptr(), 0);
}

#[test]
fn a_short_read_pushes_two_bytes() {
    let (mut uxn, _log) = recording_machine();
    uxn.push8(0x30, none()).unwrap();
    assert_eq!(uxn.execute(Opcode::DEI, InstructionMode::short_flag()), Ok(()));
    assert_eq!(uxn.pop16(none()), Ok(0x00a3));
}

#[test]
fn a_device_error_is_handed_on_unchanged() {
    let (mut uxn, log) = recording_machine();
    uxn.push8(0xee, none()).unwrap();
    uxn.push8(0x70, none()).unwrap();
    uxn.load_program(&[Opcode::DEO as u8, Opcode::INC as u8], 0x100);
    assert_eq!(uxn.eval(0x100), Err(UxnError::StackOverflow));
    assert_eq!(*log.borrow(), vec![(7, "deo", 0, 0xee)]);
    assert_eq!(uxn.pc(), 0x101);
    assert_eq!(uxn.working_stack().ptr(), 0);
}

#[test]
fn an_empty_slot_refuses_every_access() {
    let mut uxn = Uxn::new();
    for slot in 1..16usize {
        assert_eq!(uxn.read_device(slot, 3), Err(UxnError::DeviceError));
        assert_eq!(uxn.write_device(slot, 3, 1), Err(UxnError::DeviceError));
    }
    uxn.push8(0x01, none()).unwrap();
    uxn.push8(0x15, none()).unwrap();
    uxn.load_program(&[Opcode::DEO as u8], 0x100);
    assert_eq!(uxn.eval(0x100), Err(UxnError::DeviceError));
    assert_eq!(uxn.working_stack().ptr(), 0);
    uxn.push8(0x15, none()).unwrap();
    assert_eq!(uxn.execute(Opcode::DEI, none()), Err(UxnError::DeviceError));
    assert_eq!(uxn.working_stack().ptr(), 0);
}

#[test]
fn the_null_device_refuses_every_access() {
    let mut null = NullDevice {};
    for port in 0..16u8 {
        assert_eq!(null.dei(port), Err(UxnError::DeviceError));
        assert_eq!(null.deo(port, port), Err(UxnError::DeviceError));
    }
    let devices: [Option<Box<dyn Device>>; 16] = std::array::from_fn(|_| {
        let device: Option<Box<dyn Device>> = Some(Box::new(NullDevice {}));
        device
    });
    let mut uxn = Uxn::with_devices(devices);
    uxn.push8(0x01, none()).unwrap();
    uxn.push8(0x2f, none()).unwrap();
    assert_eq!(uxn.execute(Opcode::DEO, none()), Err(UxnError::DeviceError));
}

#[test]
fn system_device_shows_and_sets_the_stack_pointers() {
    let mut uxn = Uxn::new();
    uxn.push8(1, none()).unwrap();
    uxn.push8(2, none()).unwrap();
    uxn.push8(3, InstructionMode::return_flag()).unwrap();
    assert_eq!(uxn.dei(0x02), Ok(2));
    assert_eq!(uxn.dei(0x03), Ok(1));
    for port in [0x00u8, 0x01, 0x04, 0x08, 0x0e, 0x0f, 0x10, 0xff] {
        assert_eq!(uxn.dei(port), Err(UxnError::DeviceError));
    }
    assert_eq!(uxn.deo(0x02, 0x40), Ok(()));
    assert_eq!(uxn.working_stack().ptr(), 0x40);
    assert_eq!(uxn.deo(0x03, 0xff), Ok(()));
    assert_eq!(uxn.return_stack().ptr(), 0xff);
    assert_eq!(uxn.dei(0x02), Ok(0x40));
    assert_eq!(uxn.dei(0x03), Ok(0xff));
}

#[test]
fn system_device_port_map() {
    let mut uxn = Uxn::new();
    for port in 0x08..=0x0eu8 {
        assert_eq!(uxn.deo(port, 0x55), Ok(()));
    }
    assert!(!uxn.is_halted());
    assert_eq!(uxn.working_stack().ptr(), 0);
    for port in [0x00u8, 0x01, 0x04, 0x05, 0x06, 0x07, 0x10, 0x12, 0xff] {
        assert_eq!(uxn.deo(port, 0x55), Err(UxnError::DeviceError));
    }
    assert_eq!(uxn.deo(0x0f, 0x01), Ok(()));
    assert!(uxn.is_halted());
    assert_eq!(uxn.deo(0x0f, 0x00), Ok(()));
    assert!(!uxn.is_halted());
    assert_eq!(uxn.deo(0x0f, 0x80), Ok(()));
    assert!(uxn.is_halted());
    uxn.print();
}

#[test]
fn dei_of_the_pointer_port_sees_the_depth_after_its_pop() {
    let mut uxn = Uxn::new();
    uxn.push8(0x07, none()).unwrap();
    uxn.push8(0x02, none()).unwrap();
    assert_eq!(uxn.execute(Opcode::DEI, none()), Ok(()));
    assert_eq!(uxn.working_stack().ptr(), 2);
    assert_eq!(uxn.pop8(none()), Ok(1));

    let mut uxn = Uxn::new();
    uxn.push8(0x07, InstructionMode::return_flag()).unwrap();
    uxn.push8(0x03, none()).unwrap();
    assert_eq!(uxn.execute(Opcode::DEI, none()), Ok(()));
    assert_eq!(uxn.pop8(none()), Ok(1));
}

#[test]
fn deo_writes_the_value_not_the_port() {
    let mut uxn = Uxn::new();
    for _ in 0..8 {
        uxn.push8(0, none()).unwrap();
    }
    uxn.push8(0x05, none()).unwrap();
    uxn.push8(0x02, none()).unwrap();
    assert_eq!(uxn.execute(Opcode::DEO, none()), Ok(()));
    assert_eq!(uxn.working_stack().ptr(), 5);

    let mut uxn = Uxn::new();
    uxn.push8(0x00, none()).unwrap();
    uxn.push8(0x0f, none()).unwrap();
    assert_eq!(uxn.execute(Opcode::DEO, none()), Ok(()));
    assert!(!uxn.is_halted());
}

#[test]
fn halting_lets_the_program_run_to_its_break() {
    let mut uxn = Uxn::new();
    // LIT2 01 0f, DEO, LIT2 12 34, BRK
    uxn.load_program(&[0x20, 0x01, 0x0f, Opcode::DEO as u8, 0x20, 0x12, 0x34, 0x00], 0x100);
    assert_eq!(uxn.eval(0x100), Ok(()));
    assert!(uxn.is_halted());
    assert_eq!(uxn.working_stack().ptr(), 2);
    assert_eq!(uxn.pc(), 0x108);
}

#[test]
fn deliver_pushes_a_byte_or_hands_on_the_error() {
    let mut uxn = Uxn::new();
    assert_eq!(uxn.deliver(Ok(0x12), none()), Ok(()));
    assert_eq!(uxn.deliver(Ok(0x34), InstructionMode::short_flag()), Ok(()));
    assert_eq!(uxn.working_stack().ptr(), 3);
    assert_eq!(uxn.deliver(Err(UxnError::DeviceError), none()), Err(UxnError::DeviceError));
    assert_eq!(uxn.deliver(Err(UxnError::UnknownOpcode), none()), Err(UxnError::UnknownOpcode));
    assert_eq!(uxn.working_stack().ptr(), 3);
    assert_eq!(uxn.pop16(none()), Ok(0x0034));
    assert_eq!(uxn.pop8(none()), Ok(0x12));
}

#[test]
fn bitmap_device_draws_at_the_cursor() {
    let mut bitmap = BitmapDevice::new();
    assert_eq!((bitmap.x(), bitmap.y(), bitmap.color()), (0, 0, 0));
    assert_eq!(bitmap.write(1, 0x13), BitmapOutcome::Stored);
    assert_eq!(bitmap.write(2, 0x25), BitmapOutcome::Stored);
    assert_eq!(bitmap.write(3, 0xc7), BitmapOutcome::Stored);
    assert_eq!((bitmap.x(), bitmap.y(), bitmap.color()), (3, 5, 0xc7));
    assert_eq!(bitmap.pixel(3, 5), 0);
    assert_eq!(bitmap.write(0, 1), BitmapOutcome::PixelDrawn);
    assert_eq!(bitmap.pixel(3, 5), 0xc7);
    assert_eq!(bitmap.pixel(5, 3), 0);
    assert_eq!(bitmap.write(0, 0), BitmapOutcome::Blit);
    assert_eq!(bitmap.write(0, 2), BitmapOutcome::InvalidCommand);
    assert_eq!(bitmap.write(4, 1), BitmapOutcome::UnknownPort);
    assert_eq!(bitmap.write(0xff, 1), BitmapOutcome::UnknownPort);
    assert_eq!((bitmap.x(), bitmap.y(), bitmap.color()), (3, 5, 0xc7));
    bitmap.write(1, 0xff);
    bitmap.write(2, 0xff);
    bitmap.write(3, 0x01);
    bitmap.draw_pixel();
    assert_eq!(bitmap.pixel(15, 15), 0x01);
    let set = (0..16u8)
        .flat_map(|y| (0..16u8).map(move |x| (x, y)))
        .filter(|(x, y)| bitmap.pixel(*x, *y) != 0)
        .count();
    assert_eq!(set, 2);
}

#[test]
fn vector_device_stores_the_shape() {
    let mut vector = VectorDevice::new();
    assert_eq!(vector, VectorDevice { x: 0, y: 0, width: 0, height: 0, color: 0 });
    assert_eq!(vector.write(1, 10), VectorOutcome::Stored);
    assert_eq!(vector.write(2, 20), VectorOutcome::Stored);
    assert_eq!(vector.write(3, 30), VectorOutcome::Stored);
    assert_eq!(vector.write(4, 40), VectorOutcome::Stored);
    assert_eq!(vector.write(5, 50), VectorOutcome::Stored);
    assert_eq!(vector, VectorDevice { x: 10, y: 20, width: 30, height: 40, color: 50 });
    assert_eq!(vector.write(0, 1), VectorOutcome::Rectangle);
    assert_eq!(vector.write(0, 2), VectorOutcome::Circle);
    assert_eq!(vector.write(0, 0), VectorOutcome::InvalidCommand);
    assert_eq!(vector.write(0, 3), VectorOutcome::InvalidCommand);
    assert_eq!(vector.write(6, 1), VectorOutcome::UnknownPort);
    assert_eq!(vector, VectorDevice { x: 10, y: 20, width: 30, height: 40, color: 50 });
}

#[test]
fn a_port_address_names_slot_and_port() {
    assert_eq!(route(0x15), (1, 5));
    assert_eq!(route(0x00), (0, 0));
    assert_eq!(route(0x0f), (0, 0x0f));
    assert_eq!(route(0xf0), (15, 0));
    assert_eq!(route(0xff), (15, 15));
    assert_eq!(route(0x2a), (2, 10));
    // only the low byte of the address counts
    assert_eq!(route(0x1234), (3, 4));
    for address in 0..=255u16 {
        assert_eq!(route(address), ((address >> 4) as usize, (address & 0x0f) as u8));
    }
}

#[test]
fn a_write_hands_over_slot_port_and_low_byte() {
    assert_eq!(device_call(0x15, 0x42), (1, 5, 0x42));
    assert_eq!(device_call(0x15, 0x1234), (1, 5, 0x34));
    assert_eq!(device_call(0x0f, 0x0001), (0, 0x0f, 0x01));
    assert_eq!(device_call(0xe3, 0xff00), (14, 3, 0x00));
}

#[test]
fn a_run_leaves_the_devices_it_does_not_write_to() {
    let (mut uxn, log) = recording_machine();
    // LIT2 42 15, DEO, LIT2 30 .., DEI, BRK: a write to slot 1, a read of slot 3
    uxn.load_program(&[0x20, 0x42, 0x15, Opcode::DEO as u8, 0x40, 0x30, 0x56, 0x00], 0x100);
    assert_eq!(uxn.eval(0x100), Ok(()));
    assert_eq!(*log.borrow(), vec![(1, "deo", 5, 0x42), (3, "dei", 0, 0)]);
    assert_eq!(uxn.pop8(InstructionMode::return_flag()), Ok(0xa3));
}

#[test]
fn an_evaluation_that_does_not_start_calls_no_device() {
    let (mut uxn, log) = recording_machine();
    uxn.push8(0x42, none()).unwrap();
    uxn.push8(0x15, none()).unwrap();
    uxn.load_program(&[Opcode::DEO as u8], 0x0000);
    assert_eq!(uxn.eval(0), Ok(()));
    assert!(log.borrow().is_empty());
    assert_eq!(uxn.working_stack().ptr(), 2);
    // halt the machine, then evaluate a write
    uxn.push8(0x01, none()).unwrap();
    uxn.push8(0x0f, none()).unwrap();
    uxn.load_program(&[Opcode::DEO as u8, 0x00], 0x100);
    assert_eq!(uxn.eval(0x100), Ok(()));
    assert!(uxn.is_halted());
    uxn.load_program(&[Opcode::DEO as u8], 0x200);
    assert_eq!(uxn.eval(0x200), Ok(()));
    assert!(log.borrow().is_empty());
    assert_eq!(uxn.working_stack().ptr(), 2);
}

#[test]
fn a_break_alone_calls_no_device() {
    let (mut uxn, log) = recording_machine();
    uxn.push8(0x42, none()).unwrap();
    uxn.push8(0x15, none()).unwrap();
    uxn.load_program(&[0x00, Opcode::DEO as u8], 0x100);
    assert_eq!(uxn.eval(0x100), Ok(()));
    assert!(log.borrow().is_empty());
    assert_eq!(uxn.pc(), 0x101);
}

#[test]
fn an_empty_slot_refuses_beside_a_filled_one() {
    let log: Log = Rc::new(RefCell::new(Vec::new()));
    let mut devices: [Option<Box<dyn Device>>; 16] = std::array::from_fn(|_| None);
    devices[1] = Some(Box::new(Recorder { slot: 1, log: log.clone() }));
    let mut uxn = Uxn::with_devices(devices);
    uxn.push8(0x42, none()).unwrap();
    uxn.push8(0x25, none()).unwrap();
    uxn.load_program(&[Opcode::DEO as u8, 0x00], 0x100);
    assert_eq!(uxn.eval(0x100), Err(UxnError::DeviceError));
    assert!(log.borrow().is_empty());
    uxn.push8(0x42, none()).unwrap();
    uxn.push8(0x15, none()).unwrap();
    assert_eq!(uxn.eval(0x100), Ok(()));
    assert_eq!(*log.borrow(), vec![(1, "deo", 5, 0x42)]);
}
