use vstd::prelude::*;

verus! {

/// The reasons for which the interpreter stops a run.
#[derive(Debug)]
pub enum Chip8Error {
    /// The opcode is not in the instruction table.
    InvalidInstruction,
    /// A return was executed with an empty call stack.
    TriedPoppingEmptyStack,
    /// The render surface refused an operation; holds its message.
    DisplayError(String),
    /// A key or font digit outside `0..=0xF` was looked up.
    InvalidKeycode(u8),
    /// The instruction is known but not supported (setting the sound timer).
    UnimplementedInstruction,
    /// A key wait was started while one was already pending.
    WaitForKeypressDuringWaitMode,
}

} // verus!
