//! Syscall dispatch and memory-record mediation for a zero-knowledge virtual
//! machine.
//!
//! A guest program asks for a privileged operation through a trap that
//! carries a 32-bit code. This crate holds the code space, the contract that
//! every operation has to meet, the context through which an operation
//! touches the machine, and the registry that maps codes to operations.
pub mod code;
pub mod record;
pub mod trace;
pub mod machine;
pub mod runtime;
pub mod context;
pub mod syscall;
pub mod registry;
