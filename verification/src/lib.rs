//! A stack-based virtual machine for a compact bytecode.
//!
//! The crate is organised in four layers, leaves first:
//! numeric primitives (`primary`), the paged byte memory (`memory`),
//! the instruction codec (`decoder` / `encoder`), and the instruction
//! interpreter (`executor`).  `files` holds the byte-oriented file table
//! that the I/O instructions address.

pub mod bytes;
pub mod decoder;
pub mod executor;
pub mod files;
pub mod encoder;
pub mod memory;
pub mod op_codes;
pub mod ops;
pub mod primary;

use vstd::prelude::*;

verus! {

/// The machine word: addresses, immediate operand payloads and frame
/// sizes are all words.  This build uses 32-bit words.
pub type UWord = u32;

/// The signed view of the machine word.
pub type IWord = i32;

} // verus!
