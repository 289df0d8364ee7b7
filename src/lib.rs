//! An emulator for the LC-3 instruction-set architecture.
//!
//! The library holds the machine itself: memory, registers, the decoders, the
//! execution engine and the service calls. It never blocks: whenever a service
//! call needs the outside world it hands back the events to send and waits to be
//! resumed with the next inbound event.
pub mod registers;
pub mod memory;
pub mod instructions;
pub mod system_calls;
pub mod device;
pub mod isa;
pub mod error;
pub mod service;
pub mod cpu;
pub mod emulator;
