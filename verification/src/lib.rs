//! Bridge logic for a host application that speaks a binary virtual-table
//! calling convention: tagged value cells, byte-string rules for error
//! buffers and C-style names, slot layouts for foreign tables, the adapter
//! that presents native handler code to the host, and the decision rules of
//! the panic-safe invocation boundary.
//!
//! Everything here is pure logic over plain values.  The raw foreign calls
//! (indirect calls through table slots, address translation, the actual
//! catch of an unwinding handler) live outside this crate and hand their
//! outcomes to the functions in these modules.

pub mod adapter;
pub mod boundary;
pub mod bytestr;
pub mod cell;
pub mod context;
pub mod handles;
pub mod natives;
pub mod vtable;
