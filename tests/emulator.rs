use lc3emu::device::DeviceRegister::{
    DisplayData, DisplayStatus, KeyboardData, KeyboardStatus, MachineControl,
};
use lc3emu::device::Event;
use lc3emu::emulator::{Emulator, Next, Outcome};
use lc3emu::error::EmulatorError;
use lc3emu::instructions::Instructions;

/// A ROM image: the origin, then `words`, all big-endian.
fn rom(origin: u16, words: &[u16]) -> Vec<u8> {
    let mut bytes = vec![(origin >> 8) as u8, origin as u8];
    for w in words {
        bytes.push((w >> 8) as u8);
        bytes.push(*w as u8);
    }
    bytes
}

fn boot(origin: u16, words: &[u16]) -> Emulator {
    Emulator::new(rom(origin, words)).expect("ROM loads")
}

fn step(emulator: &mut Emulator, inbound: Option<Event>) -> Outcome {
    emulator.step(inbound).expect("step runs")
}

#[test]
fn rom_loads_from_origin() {
    let emulator = boot(0x3000, &[0x1062, 0xF025, 0xABCD]);
    assert_eq!(emulator.cpu().get_registers().pc, 0x3000);
    assert_eq!(emulator.memory().read(0x3000), 0x1062);
    assert_eq!(emulator.memory().read(0x3001), 0xF025);
    assert_eq!(emulator.memory().read(0x3002), 0xABCD);
    assert_eq!(emulator.memory().read(0x3003), 0);
    assert_eq!(emulator.memory().read(0x2FFF), 0);
    assert_eq!(emulator.memory().read(0xFFFE), 0x8000);
    assert_eq!(emulator.memory().read(0xFE04), 0x8000);
}

#[test]
fn rom_odd_trailing_byte_ignored() {
    let mut bytes = rom(0x4000, &[0x1234]);
    bytes.push(0x56);
    let emulator = Emulator::new(bytes).expect("ROM loads");
    assert_eq!(emulator.memory().read(0x4000), 0x1234);
    assert_eq!(emulator.memory().read(0x4001), 0);
}

#[test]
fn rom_origin_only() {
    let emulator = Emulator::new(vec![0x12, 0x34]).expect("ROM loads");
    assert_eq!(emulator.cpu().get_registers().pc, 0x1234);
    assert_eq!(emulator.memory().read(0x1234), 0);
}

#[test]
fn rom_too_short() {
    assert_eq!(Emulator::new(vec![]).err(), Some(EmulatorError::RomParseError));
    assert_eq!(Emulator::new(vec![0x30]).err(), Some(EmulatorError::RomParseError));
}

#[test]
fn trap_puts() {
    // LD R0, #1; TRAP x22; .FILL x4000; then "Hi" at x4000.
    let mut words = vec![0u16; 0x1003];
    words[0] = 0x2001;
    words[1] = 0xF022;
    words[2] = 0x4000;
    words[0x1000] = 'H' as u16;
    words[0x1001] = 'i' as u16;
    words[0x1002] = 0;
    let mut emulator = boot(0x3000, &words);

    let out = step(&mut emulator, None);
    assert!(out.sent.is_empty());
    assert_eq!(out.next, Next::Poll);
    assert_eq!(emulator.cpu().get_registers().r0, 0x4000);

    let out = step(&mut emulator, None);
    assert_eq!(out.sent, vec![(DisplayData, 'H' as u16)]);
    assert_eq!(out.next, Next::Receive);

    let out = step(&mut emulator, Some((DisplayStatus, 0x8000)));
    assert_eq!(out.sent, vec![(DisplayData, 'i' as u16)]);
    assert_eq!(out.next, Next::Poll);
    assert_eq!(emulator.cpu().get_registers().pc, 0x3002);
    assert!(!emulator.cpu().is_waiting());
}

#[test]
fn trap_halt() {
    let mut emulator = boot(0x3000, &[0xF025]);
    let out = step(&mut emulator, None);
    assert_eq!(emulator.memory().read(0xFFFE), 0);
    assert_eq!(out.next, Next::Stop);
    assert_eq!(out.sent, vec![(MachineControl, 0x8000)]);
}

#[test]
fn trap_getc_waits_for_key() {
    let mut emulator = boot(0x3000, &[0xF020, 0xF025]);
    let out = step(&mut emulator, None);
    assert_eq!(out.sent, vec![(KeyboardStatus, 0)]);
    assert_eq!(out.next, Next::Receive);

    // An event for another device changes nothing for the waiting call.
    let out = step(&mut emulator, Some((MachineControl, 1)));
    assert!(out.sent.is_empty());
    assert_eq!(out.next, Next::Receive);

    let out = step(&mut emulator, Some((KeyboardData, 'a' as u16)));
    assert!(out.sent.is_empty());
    assert_eq!(out.next, Next::Poll);
    assert_eq!(emulator.cpu().get_registers().r0, 'a' as u16);
    assert_eq!(emulator.memory().read(0xFE00), 0x8000);
    assert_eq!(emulator.memory().read(0xFE02), 'a' as u16);

    let out = step(&mut emulator, None);
    assert_eq!(out.next, Next::Stop);
}

#[test]
fn trap_in_echoes() {
    let mut emulator = boot(0x3000, &[0xF023]);
    let out = step(&mut emulator, None);
    assert_eq!(out.sent, vec![(KeyboardStatus, 0)]);
    assert_eq!(out.next, Next::Receive);
    let out = step(&mut emulator, Some((KeyboardData, 'z' as u16)));
    assert_eq!(out.sent, vec![(DisplayData, 'z' as u16)]);
    assert_eq!(out.next, Next::Poll);
    assert_eq!(emulator.cpu().get_registers().r0, 'z' as u16);
    assert_eq!(emulator.memory().read(0xFE06), 'z' as u16);
    assert_eq!(emulator.memory().read(0xFE04), 0);
}

#[test]
fn trap_out_low_byte_and_busy_display() {
    // LD R0, #2; OUT; OUT; .FILL x0141
    let mut emulator = boot(0x3000, &[0x2002, 0xF021, 0xF021, 0x0141]);
    step(&mut emulator, None);
    let out = step(&mut emulator, None);
    assert_eq!(out.sent, vec![(DisplayData, 0x41)]);
    assert_eq!(out.next, Next::Poll);
    // The display has not acknowledged: the second OUT waits.
    let out = step(&mut emulator, None);
    assert!(out.sent.is_empty());
    assert_eq!(out.next, Next::Receive);
    let out = step(&mut emulator, Some((DisplayStatus, 0x8000)));
    assert_eq!(out.sent, vec![(DisplayData, 0x41)]);
    assert_eq!(out.next, Next::Poll);
}

#[test]
fn trap_putsp_packed() {
    // LEA R0, #2; PUTSP; HALT; "Hi" "!" packed, then the terminator.
    let mut emulator = boot(0x3000, &[0xE002, 0xF024, 0xF025, 0x6948, 0x0021, 0x0000]);
    step(&mut emulator, None);
    assert_eq!(emulator.cpu().get_registers().r0, 0x3003);
    let out = step(&mut emulator, None);
    assert_eq!(out.sent, vec![(DisplayData, 'H' as u16)]);
    assert_eq!(out.next, Next::Receive);
    let out = step(&mut emulator, Some((DisplayStatus, 0x8000)));
    assert_eq!(out.sent, vec![(DisplayData, 'i' as u16)]);
    assert_eq!(out.next, Next::Receive);
    let out = step(&mut emulator, Some((DisplayStatus, 0x8000)));
    assert_eq!(out.sent, vec![(DisplayData, '!' as u16)]);
    assert_eq!(out.next, Next::Poll);
    let out = step(&mut emulator, None);
    assert_eq!(out.next, Next::Stop);
}

#[test]
fn trap_puts_empty_string() {
    // LEA R0, #1; PUTS; .FILL 0
    let mut emulator = boot(0x3000, &[0xE001, 0xF022, 0x0000]);
    step(&mut emulator, None);
    let out = step(&mut emulator, None);
    assert!(out.sent.is_empty());
    assert_eq!(out.next, Next::Poll);
}

#[test]
fn unknown_trap_ignored() {
    let mut emulator = boot(0x3000, &[0xF0FF]);
    let out = step(&mut emulator, None);
    assert!(out.sent.is_empty());
    assert_eq!(out.next, Next::Poll);
    assert_eq!(emulator.cpu().get_registers().pc, 0x3001);
}

#[test]
fn unimplemented_opcode_stops() {
    let mut emulator = boot(0x3000, &[0x8000]);
    assert_eq!(
        emulator.step(None).err(),
        Some(EmulatorError::UnimplementedInstruction(Instructions::RTI))
    );
}

#[test]
fn store_to_machine_control_stops() {
    // AND R0, R0, #0; STI R0, #0; .FILL xFFFE
    let mut emulator = boot(0x3000, &[0x5020, 0xB000, 0xFFFE]);
    assert_eq!(step(&mut emulator, None).next, Next::Poll);
    let out = step(&mut emulator, None);
    assert_eq!(out.next, Next::Stop);
    assert_eq!(out.sent, vec![(MachineControl, 0x8000)]);
}

#[test]
fn inbound_events_between_instructions() {
    let mut emulator = boot(0x3000, &[]);
    emulator.check_events(Some((KeyboardData, 0x61)));
    assert_eq!(emulator.memory().read(0xFE02), 0x61);
    assert_eq!(emulator.memory().read(0xFE00), 0x8000);
    emulator.check_events(Some((DisplayData, 0x62)));
    assert_eq!(emulator.memory().read(0xFE06), 0);
    emulator.check_events(None);
    assert_eq!(emulator.memory().read(0xFE02), 0x61);
}
