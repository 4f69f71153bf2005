use vstd::prelude::*;

verus! {

/// The register-to-register operations of the `8xy?` group.
#[derive(Debug, Clone, Copy, PartialEq, Eq, Structural)]
pub enum AluOp {
    Assign,
    Or,
    And,
    Xor,
    Add,
    Sub,
    ShiftRight,
    SubN,
    ShiftLeft,
}

/// A decoded instruction. `x` and `y` name registers, `kk` is a byte operand, `addr` a
/// 12-bit address and `n` a sprite height.
#[derive(Debug, Clone, Copy, PartialEq, Eq, Structural)]
pub enum Instruction {
    ClearScreen,
    Return,
    Jump { addr: u16 },
    Call { addr: u16 },
    SkipEqImm { x: u8, kk: u8 },
    SkipNeImm { x: u8, kk: u8 },
    SkipEqReg { x: u8, y: u8 },
    LoadImm { x: u8, kk: u8 },
    AddImm { x: u8, kk: u8 },
    Alu { op: AluOp, x: u8, y: u8 },
    SkipNeReg { x: u8, y: u8 },
    LoadIndex { addr: u16 },
    JumpOffset { addr: u16 },
    Random { x: u8, kk: u8 },
    Draw { x: u8, y: u8, n: u8 },
    SkipKeyPressed { x: u8 },
    SkipKeyNotPressed { x: u8 },
    GetDelay { x: u8 },
    WaitKey { x: u8 },
    SetDelay { x: u8 },
    SetSound { x: u8 },
    AddIndex { x: u8 },
    FontAddr { x: u8 },
    StoreBcd { x: u8 },
    StoreRegs { x: u8 },
    LoadRegs { x: u8 },
}

/// The four 4-bit digits of an opcode, most significant first.
pub open spec fn nibble0(op: u16) -> u8 {
    (op / 0x1000) as u8
}

pub open spec fn nibble1(op: u16) -> u8 {
    ((op / 0x100) % 0x10) as u8
}

pub open spec fn nibble2(op: u16) -> u8 {
    ((op / 0x10) % 0x10) as u8
}

pub open spec fn nibble3(op: u16) -> u8 {
    (op % 0x10) as u8
}

/// The low byte of an opcode.
pub open spec fn low_byte(op: u16) -> u8 {
    (op % 0x100) as u8
}

/// The low twelve bits of an opcode.
pub open spec fn address(op: u16) -> u16 {
    (op % 0x1000) as u16
}

/// The `8xy?` operation named by the last digit, if any.
pub open spec fn alu_op_of(n: u8) -> Option<AluOp> {
    if n == 0 {
        Some(AluOp::Assign)
    } else if n == 1 {
        Some(AluOp::Or)
    } else if n == 2 {
        Some(AluOp::And)
    } else if n == 3 {
        Some(AluOp::Xor)
    } else if n == 4 {
        Some(AluOp::Add)
    } else if n == 5 {
        Some(AluOp::Sub)
    } else if n == 6 {
        Some(AluOp::ShiftRight)
    } else if n == 7 {
        Some(AluOp::SubN)
    } else if n == 0xE {
        Some(AluOp::ShiftLeft)
    } else {
        None
    }
}

/// The `Fx??` instruction named by the low byte, if any.
pub open spec fn misc_of(x: u8, kk: u8) -> Option<Instruction> {
    if kk == 0x07 {
        Some(Instruction::GetDelay { x })
    } else if kk == 0x0A {
        Some(Instruction::WaitKey { x })
    } else if kk == 0x15 {
        Some(Instruction::SetDelay { x })
    } else if kk == 0x18 {
        Some(Instruction::SetSound { x })
    } else if kk == 0x1E {
        Some(Instruction::AddIndex { x })
    } else if kk == 0x29 {
        Some(Instruction::FontAddr { x })
    } else if kk == 0x33 {
        Some(Instruction::StoreBcd { x })
    } else if kk == 0x55 {
        Some(Instruction::StoreRegs { x })
    } else if kk == 0x65 {
        Some(Instruction::LoadRegs { x })
    } else {
        None
    }
}

/// The instruction table: what each opcode means, or `None` for an invalid one.
pub open spec fn decoded(op: u16) -> Option<Instruction> {
    let n0 = nibble0(op);
    let x = nibble1(op);
    let y = nibble2(op);
    let n = nibble3(op);
    let kk = low_byte(op);
    let addr = address(op);
    if op == 0x00E0 {
        Some(Instruction::ClearScreen)
    } else if op == 0x00EE {
        Some(Instruction::Return)
    } else if n0 == 1 {
        Some(Instruction::Jump { addr })
    } else if n0 == 2 {
        Some(Instruction::Call { addr })
    } else if n0 == 3 {
        Some(Instruction::SkipEqImm { x, kk })
    } else if n0 == 4 {
        Some(Instruction::SkipNeImm { x, kk })
    } else if n0 == 5 {
        if n == 0 {
            Some(Instruction::SkipEqReg { x, y })
        } else {
            None
        }
    } else if n0 == 6 {
        Some(Instruction::LoadImm { x, kk })
    } else if n0 == 7 {
        Some(Instruction::AddImm { x, kk })
    } else if n0 == 8 {
        match alu_op_of(n) {
            Some(op) => Some(Instruction::Alu { op, x, y }),
            None => None,
        }
    } else if n0 == 9 {
        if n == 0 {
            Some(Instruction::SkipNeReg { x, y })
        } else {
            None
        }
    } else if n0 == 0xA {
        Some(Instruction::LoadIndex { addr })
    } else if n0 == 0xB {
        Some(Instruction::JumpOffset { addr })
    } else if n0 == 0xC {
        Some(Instruction::Random { x, kk })
    } else if n0 == 0xD {
        Some(Instruction::Draw { x, y, n })
    } else if n0 == 0xE {
        if kk == 0x9E {
            Some(Instruction::SkipKeyPressed { x })
        } else if kk == 0xA1 {
            Some(Instruction::SkipKeyNotPressed { x })
        } else {
            None
        }
    } else if n0 == 0xF {
        misc_of(x, kk)
    } else {
        None
    }
}

fn decode_alu_op(n: u8) -> (r: Option<AluOp>)
    ensures
        r == alu_op_of(n),
{
    match n {
        0 => Some(AluOp::Assign),
        1 => Some(AluOp::Or),
        2 => Some(AluOp::And),
        3 => Some(AluOp::Xor),
        4 => Some(AluOp::Add),
        5 => Some(AluOp::Sub),
        6 => Some(AluOp::ShiftRight),
        7 => Some(AluOp::SubN),
        0xE => Some(AluOp::ShiftLeft),
        _ => None,
    }
}

fn decode_misc(x: u8, kk: u8) -> (r: Option<Instruction>)
    ensures
        r == misc_of(x, kk),
{
    match kk {
        0x07 => Some(Instruction::GetDelay { x }),
        0x0A => Some(Instruction::WaitKey { x }),
        0x15 => Some(Instruction::SetDelay { x }),
        0x18 => Some(Instruction::SetSound { x }),
        0x1E => Some(Instruction::AddIndex { x }),
        0x29 => Some(Instruction::FontAddr { x }),
        0x33 => Some(Instruction::StoreBcd { x }),
        0x55 => Some(Instruction::StoreRegs { x }),
        0x65 => Some(Instruction::LoadRegs { x }),
        _ => None,
    }
}

/// Register operands name one of the sixteen registers, and addresses are 12 bits.
pub open spec fn operands_in_range(ins: Instruction) -> bool {
    match ins {
        Instruction::Jump { addr } | Instruction::Call { addr } | Instruction::LoadIndex { addr }
        | Instruction::JumpOffset { addr } => addr < 0x1000,
        Instruction::SkipEqImm { x, .. } | Instruction::SkipNeImm { x, .. } | Instruction::LoadImm {
            x,
            ..
        } | Instruction::AddImm { x, .. } | Instruction::Random { x, .. } => x < 16,
        Instruction::SkipEqReg { x, y } | Instruction::SkipNeReg { x, y } | Instruction::Alu {
            x,
            y,
            ..
        } => x < 16 && y < 16,
        Instruction::Draw { x, y, n } => x < 16 && y < 16 && n < 16,
        Instruction::SkipKeyPressed { x } | Instruction::SkipKeyNotPressed { x }
        | Instruction::GetDelay { x } | Instruction::WaitKey { x } | Instruction::SetDelay { x }
        | Instruction::SetSound { x } | Instruction::AddIndex { x } | Instruction::FontAddr { x }
        | Instruction::StoreBcd { x } | Instruction::StoreRegs { x } | Instruction::LoadRegs {
            x,
        } => x < 16,
        _ => true,
    }
}

/// Every opcode decodes to an instruction whose operands are in range, if to any.
pub proof fn lemma_decoded_operands_in_range(op: u16)
    ensures
        decoded(op) matches Some(ins) ==> operands_in_range(ins),
{
}

/// Decodes a 16-bit opcode by its nibbles.
pub fn decode(opcode: u16) -> (r: Option<Instruction>)
    ensures
        r == decoded(opcode),
{
    let n0: u8 = (opcode / 0x1000) as u8;
    let x: u8 = ((opcode / 0x100) % 0x10) as u8;
    let y: u8 = ((opcode / 0x10) % 0x10) as u8;
    let n: u8 = (opcode % 0x10) as u8;
    let kk: u8 = (opcode % 0x100) as u8;
    let addr: u16 = opcode % 0x1000;
    match opcode {
        0x00E0 => Some(Instruction::ClearScreen),
        0x00EE => Some(Instruction::Return),
        _ => match n0 {
            1 => Some(Instruction::Jump { addr }),
            2 => Some(Instruction::Call { addr }),
            3 => Some(Instruction::SkipEqImm { x, kk }),
            4 => Some(Instruction::SkipNeImm { x, kk }),
            5 => {
                if n == 0 {
                    Some(Instruction::SkipEqReg { x, y })
                } else {
                    None
                }
            },
            6 => Some(Instruction::LoadImm { x, kk }),
            7 => Some(Instruction::AddImm { x, kk }),
            8 => match decode_alu_op(n) {
                Some(op) => Some(Instruction::Alu { op, x, y }),
                None => None,
            },
            9 => {
                if n == 0 {
                    Some(Instruction::SkipNeReg { x, y })
                } else {
                    None
                }
            },
            0xA => Some(Instruction::LoadIndex { addr }),
            0xB => Some(Instruction::JumpOffset { addr }),
            0xC => Some(Instruction::Random { x, kk }),
            0xD => Some(Instruction::Draw { x, y, n }),
            0xE => {
                if kk == 0x9E {
                    Some(Instruction::SkipKeyPressed { x })
                } else if kk == 0xA1 {
                    Some(Instruction::SkipKeyNotPressed { x })
                } else {
                    None
                }
            },
            0xF => decode_misc(x, kk),
            _ => None,
        },
    }
}

} // verus!
