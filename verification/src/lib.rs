//! A compact stack-based bytecode virtual machine for embedding into hosts
//! that need deterministic, bounded execution of untrusted guest programs.
//!
//! A guest program is a binary [`module::Module`]: a blob of memory
//! initializers followed by a linear opcode stream. The
//! [`vm::VirtualMachine`] executes it against a host-supplied
//! [`environment::Environment`], which owns linear memory, the operand
//! stack, the call stack and the slot array.
//!
//! What the machine does is defined in [`semantics`] as a function on
//! machine states; the contracts of [`vm`] tie the executable machine to
//! that definition, and [`laws`] proves properties of it.
pub mod endian;
pub mod environment;
pub mod error;
pub mod laws;
pub mod memory;
pub mod module;
pub mod numeric;
pub mod semantics;
pub mod tape;
pub mod vm;
