//! Cooperative task scheduler of a bare-metal kernel, together with the
//! interrupt-to-task event bridge that feeds it, and the small pure services
//! around them (clock decoding, display state, key handling, ACPI tables).
pub mod acpi;
pub mod allocator;
pub mod apic;
pub mod ascii;
pub mod chrono;
pub mod cmos;
pub mod console;
pub mod emulator;
pub mod executor;
pub mod gdt;
pub mod idt;
pub mod input;
pub mod io;
pub mod kbd;
pub mod keyboard;
pub mod logger;
pub mod pit;
pub mod queue;
pub mod system;
pub mod task;
pub mod text;
pub mod units;
pub mod vga;
pub mod wake;
