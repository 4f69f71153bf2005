use vstd::prelude::*;

use crate::consts;
use crate::delay_timer::{next_reading, DelayTimer};
use crate::display::{
    draw_commands, drawn, frame_size, lemma_draw_commands_mirror, pixel_index, replayed, xor_sprite,
    RenderCommand,
};
use crate::errors::Chip8Error;
use crate::instruction::{
    address, decode, decoded, low_byte, nibble0, nibble1, nibble2, nibble3, operands_in_range, AluOp,
    Instruction,
};
use crate::memory::Memory;
use crate::stack::Stack;

use std::collections::HashMap;

verus! {

broadcast use vstd::std_specs::hash::group_hash_axioms;

/// Relies on `rand::random`: a value from the thread-local generator, which is seeded by the
/// system on first use (it panics only if the system gives no seed); nothing is known of the
/// value.
pub assume_specification<T>[ rand::random::<T> ]() -> T
    where
        rand::distributions::Standard: rand::distributions::Distribution<T>,
;

/// The interpreter's state as plain values.
pub struct CpuState {
    /// The 4096 bytes of memory.
    pub memory: Seq<u8>,
    /// The glyph start address of each digit.
    pub font_table: Seq<u16>,
    pub pc: u16,
    /// Return addresses, the most recent last.
    pub stack: Seq<u16>,
    /// V0 to VF.
    pub registers: Seq<u8>,
    pub index: u16,
    /// Keypad digit to the name of its host key.
    pub key_map: Map<u8, &'static str>,
    /// While a key wait is pending: its target register and the keys held when it began.
    pub waiting: Option<(u8, Seq<String>)>,
    /// The value the delay timer was last set to, and its value as of its last reading.
    pub timer_set_to: u8,
    pub timer_value: u8,
    /// The 64 x 32 pixels, row after row.
    pub display: Seq<bool>,
    /// Surface operations not yet taken by the host.
    pub render: Seq<RenderCommand>,
}

impl CpuState {
    pub open spec fn wf(self) -> bool {
        &&& self.memory.len() == consts::MEMORY_SIZE
        &&& self.font_table.len() == 16
        &&& self.registers.len() == 16
        &&& self.display.len() == frame_size()
        &&& self.timer_value <= self.timer_set_to
        &&& returns_in_memory(self.stack)
        &&& (self.waiting matches Some((x, _)) ==> x < 16)
    }
}

/// Every return address on the stack is one at which an instruction can be fetched.
pub open spec fn returns_in_memory(stack: Seq<u16>) -> bool {
    forall|j: int| 0 <= j < stack.len() ==> stack[j] < consts::MEMORY_SIZE - 1
}

/// Whether one of `keys` is named `name`.
pub open spec fn key_pressed(keys: Seq<String>, name: Seq<char>) -> bool {
    exists|j: int| 0 <= j < keys.len() && #[trigger] keys[j]@ == name
}

/// The opcode at the program counter, high byte first.
pub open spec fn fetched(s: CpuState) -> u16 {
    (s.memory[s.pc as int] * 256 + s.memory[s.pc + 1]) as u16
}

/// `s` with the program counter moved on by `by` bytes.
pub open spec fn advanced(s: CpuState, by: int) -> CpuState {
    CpuState { pc: (s.pc + by) as u16, ..s }
}

/// Moves on to the next instruction, skipping one if `skip`.
pub open spec fn skip_if(s: CpuState, skip: bool) -> CpuState {
    advanced(s, if skip { 4 } else { 2 })
}

/// The value an `8xy?` operation writes to Vx.
pub open spec fn alu_result(op: AluOp, vx: u8, vy: u8) -> u8 {
    match op {
        AluOp::Assign => vy,
        AluOp::Or => vx | vy,
        AluOp::And => vx & vy,
        AluOp::Xor => vx ^ vy,
        AluOp::Add => ((vx + vy) % 256) as u8,
        AluOp::Sub => ((vx - vy) % 256) as u8,
        AluOp::ShiftRight => vx / 2,
        AluOp::SubN => ((vy - vx) % 256) as u8,
        AluOp::ShiftLeft => ((vx * 2) % 256) as u8,
    }
}

/// The value an `8xy?` operation writes to VF, if it writes one: the carry, the
/// no-borrow flag, or the bit shifted out.
pub open spec fn alu_flag(op: AluOp, vx: u8, vy: u8) -> Option<u8> {
    match op {
        AluOp::Add => Some(if vx + vy > 255 { 1u8 } else { 0u8 }),
        AluOp::Sub => Some(if vx > vy { 1u8 } else { 0u8 }),
        AluOp::ShiftRight => Some(vx % 2),
        AluOp::SubN => Some(if vy > vx { 1u8 } else { 0u8 }),
        AluOp::ShiftLeft => Some(vx / 128),
        _ => None,
    }
}

/// The registers after `Vx = Vx op Vy`: both values are read before anything is written;
/// the flag is written first, then Vx.
pub open spec fn alu_registers(regs: Seq<u8>, op: AluOp, x: u8, y: u8) -> Seq<u8> {
    let vx = regs[x as int];
    let vy = regs[y as int];
    let flagged = match alu_flag(op, vx, vy) {
        Some(f) => regs.update(15, f),
        None => regs,
    };
    flagged.update(x as int, alu_result(op, vx, vy))
}

/// `s` after the first `i` registers are copied to memory from the index register on,
/// the index register moving past them.
pub open spec fn stored_prefix(s: CpuState, i: int) -> CpuState {
    CpuState {
        memory: Seq::new(
            s.memory.len(),
            |k: int| if s.index <= k < s.index + i { s.registers[k - s.index] } else { s.memory[k] },
        ),
        index: (s.index + i) as u16,
        ..s
    }
}

/// `s` after the first `i` registers are loaded from memory from the index register on,
/// the index register moving past them.
pub open spec fn loaded_prefix(s: CpuState, i: int) -> CpuState {
    CpuState {
        registers: Seq::new(
            s.registers.len(),
            |k: int| if k < i { s.memory[s.index + k] } else { s.registers[k] },
        ),
        index: (s.index + i) as u16,
        ..s
    }
}

/// The decimal digits of Vx at index + 1, + 2 and + 3; the byte at the index is kept.
pub open spec fn bcd_memory(s: CpuState, x: u8) -> Seq<u8> {
    let v = s.registers[x as int];
    s.memory.update(s.index + 1, v / 100).update(s.index + 2, (v % 100) / 10).update(
        s.index + 3,
        v % 10,
    )
}

/// The sprite a draw of height `n` reads: `n` bytes from the index register on.
pub open spec fn sprite_at(s: CpuState, n: u8) -> Seq<u8> {
    s.memory.subrange(s.index as int, s.index + n)
}

/// A key skip: fails on a keypad digit without a host key, else skips when the key's
/// state is `when_pressed`.
pub open spec fn key_skip(s: CpuState, x: u8, keys: Seq<String>, when_pressed: bool) -> (
    CpuState,
    Result<(), Chip8Error>,
) {
    let code = s.registers[x as int];
    if s.key_map.contains_key(code) {
        (skip_if(s, key_pressed(keys, s.key_map[code]@) == when_pressed), Ok(()))
    } else {
        (s, Err(Chip8Error::InvalidKeycode(code)))
    }
}

/// What an instruction does to the state and what it returns. `random` is the byte drawn
/// for `Cxkk`, `elapsed_millis` the time since the delay timer was set.
pub open spec fn executed(
    s: CpuState,
    ins: Instruction,
    keys: Seq<String>,
    random: u8,
    elapsed_millis: u128,
) -> (CpuState, Result<(), Chip8Error>) {
    let regs = s.registers;
    match ins {
        Instruction::ClearScreen => (
            advanced(
                CpuState {
                    display: Seq::new(frame_size(), |k: int| false),
                    render: s.render.push(RenderCommand::Clear),
                    ..s
                },
                2,
            ),
            Ok(()),
        ),
        Instruction::Return => if s.stack.len() == 0 {
            (s, Err(Chip8Error::TriedPoppingEmptyStack))
        } else {
            (
                CpuState { pc: (s.stack.last() + 2) as u16, stack: s.stack.drop_last(), ..s },
                Ok(()),
            )
        },
        Instruction::Jump { addr } => (CpuState { pc: addr, ..s }, Ok(())),
        Instruction::Call { addr } => (
            CpuState { pc: addr, stack: s.stack.push(s.pc), ..s },
            Ok(()),
        ),
        Instruction::SkipEqImm { x, kk } => (skip_if(s, regs[x as int] == kk), Ok(())),
        Instruction::SkipNeImm { x, kk } => (skip_if(s, regs[x as int] != kk), Ok(())),
        Instruction::SkipEqReg { x, y } => (
            skip_if(s, regs[x as int] == regs[y as int]),
            Ok(()),
        ),
        Instruction::SkipNeReg { x, y } => (
            skip_if(s, regs[x as int] != regs[y as int]),
            Ok(()),
        ),
        Instruction::LoadImm { x, kk } => (
            advanced(CpuState { registers: regs.update(x as int, kk), ..s }, 2),
            Ok(()),
        ),
        Instruction::AddImm { x, kk } => (
            advanced(
                CpuState { registers: regs.update(x as int, ((regs[x as int] + kk) % 256) as u8), ..s },
                2,
            ),
            Ok(()),
        ),
        Instruction::Alu { op, x, y } => (
            advanced(CpuState { registers: alu_registers(regs, op, x, y), ..s }, 2),
            Ok(()),
        ),
        Instruction::LoadIndex { addr } => (advanced(CpuState { index: addr, ..s }, 2), Ok(())),
        Instruction::JumpOffset { addr } => (
            CpuState { pc: (addr + regs[0]) as u16, ..s },
            Ok(()),
        ),
        Instruction::Random { x, kk } => (
            advanced(CpuState { registers: regs.update(x as int, random & kk), ..s }, 2),
            Ok(()),
        ),
        Instruction::Draw { x, y, n } => (
            advanced(
                CpuState {
                    display: drawn(s.display, sprite_at(s, n), regs[x as int], regs[y as int]),
                    render: s.render + draw_commands(
                        s.display,
                        sprite_at(s, n),
                        regs[x as int],
                        regs[y as int],
                    ),
                    ..s
                },
                2,
            ),
            Ok(()),
        ),
        Instruction::SkipKeyPressed { x } => key_skip(s, x, keys, true),
        Instruction::SkipKeyNotPressed { x } => key_skip(s, x, keys, false),
        Instruction::GetDelay { x } => {
            let v = next_reading(s.timer_set_to, s.timer_value, elapsed_millis);
            (advanced(CpuState { registers: regs.update(x as int, v), timer_value: v, ..s }, 2), Ok(()))
        },
        Instruction::WaitKey { x } => if s.waiting is Some {
            (s, Err(Chip8Error::WaitForKeypressDuringWaitMode))
        } else {
            (advanced(CpuState { waiting: Some((x, keys)), ..s }, 2), Ok(()))
        },
        Instruction::SetDelay { x } => (
            advanced(
                CpuState { timer_set_to: regs[x as int], timer_value: regs[x as int], ..s },
                2,
            ),
            Ok(()),
        ),
        Instruction::SetSound { x } => (s, Err(Chip8Error::UnimplementedInstruction)),
        Instruction::AddIndex { x } => (
            advanced(CpuState { index: ((s.index + regs[x as int]) % 0x10000) as u16, ..s }, 2),
            Ok(()),
        ),
        Instruction::FontAddr { x } => if regs[x as int] < 16 {
            (advanced(CpuState { index: s.font_table[regs[x as int] as int], ..s }, 2), Ok(()))
        } else {
            (s, Err(Chip8Error::InvalidKeycode(regs[x as int])))
        },
        Instruction::StoreBcd { x } => (
            advanced(CpuState { memory: bcd_memory(s, x), ..s }, 2),
            Ok(()),
        ),
        Instruction::StoreRegs { x } => (advanced(stored_prefix(s, x + 1), 2), Ok(())),
        Instruction::LoadRegs { x } => (advanced(loaded_prefix(s, x + 1), 2), Ok(())),
    }
}

/// One step: while a key wait is pending, the confirm key ends it by writing 1 to its
/// register, and nothing else happens; otherwise the instruction at the program counter
/// is decoded and executed.
pub open spec fn stepped(s: CpuState, keys: Seq<String>, random: u8, elapsed_millis: u128) -> (
    CpuState,
    Result<(), Chip8Error>,
) {
    match s.waiting {
        Some((x, _)) => if key_pressed(keys, consts::CONFIRM_KEY_NAME@) {
            (CpuState { registers: s.registers.update(x as int, 1), waiting: None, ..s }, Ok(()))
        } else {
            (s, Ok(()))
        },
        None => match decoded(fetched(s)) {
            Some(ins) => executed(s, ins, keys, random, elapsed_millis),
            None => (s, Err(Chip8Error::InvalidInstruction)),
        },
    }
}

/// Whether the memory an instruction reads or writes lies inside the address space.
pub open spec fn accesses_in_memory(s: CpuState, ins: Instruction) -> bool {
    match ins {
        Instruction::Draw { n, .. } => s.index + n <= consts::MEMORY_SIZE,
        Instruction::StoreBcd { .. } => s.index + 3 < consts::MEMORY_SIZE,
        Instruction::StoreRegs { x } => s.index + x + 1 <= consts::MEMORY_SIZE,
        Instruction::LoadRegs { x } => s.index + x + 1 <= consts::MEMORY_SIZE,
        _ => true,
    }
}

/// Whether the next step reads and writes memory only inside the address space.
pub open spec fn step_in_memory(s: CpuState) -> bool {
    s.waiting is Some || (s.pc + 1 < consts::MEMORY_SIZE && match decoded(fetched(s)) {
        Some(ins) => accesses_in_memory(s, ins),
        None => true,
    })
}

/// Whether one of `keys` is named `name`.
pub fn keys_contain(keys: &Vec<String>, name: &str) -> (r: bool)
    ensures
        r == key_pressed(keys@, name@),
{
    let target: String = name.to_owned();
    let mut j: usize = 0;
    while j < keys.len()
        invariant
            0 <= j <= keys.len(),
            target@ == name@,
            forall|t: int| 0 <= t < j ==> keys@[t]@ != name@,
        decreases keys.len() - j,
    {
        if keys[j] == target {
            return true;
        }
        j += 1;
    }
    false
}

/// The `8xy?` operations: the new Vx and the VF flag, if one is written.
pub fn alu(op: AluOp, vx: u8, vy: u8) -> (r: (u8, Option<u8>))
    ensures
        r == (alu_result(op, vx, vy), alu_flag(op, vx, vy)),
{
    match op {
        AluOp::Assign => (vy, None),
        AluOp::Or => (vx | vy, None),
        AluOp::And => (vx & vy, None),
        AluOp::Xor => (vx ^ vy, None),
        AluOp::Add => (
            vx.wrapping_add(vy),
            Some(
                if vx as u16 + vy as u16 > 255 {
                    1
                } else {
                    0
                },
            ),
        ),
        AluOp::Sub => (
            vx.wrapping_sub(vy),
            Some(
                if vx > vy {
                    1
                } else {
                    0
                },
            ),
        ),
        AluOp::ShiftRight => (vx / 2, Some(vx % 2)),
        AluOp::SubN => (
            vy.wrapping_sub(vx),
            Some(
                if vy > vx {
                    1
                } else {
                    0
                },
            ),
        ),
        AluOp::ShiftLeft => ((((vx as u16) * 2) % 256) as u8, Some(vx / 128)),
    }
}

/// The interpreter: memory, registers, stack, delay timer, framebuffer and key-wait state.
pub struct CPU {
    memory_space: Memory,
    program_counter: u16,
    stack: Stack,
    registers: [u8; 16],
    index_register: u16,
    chip_to_real_key_map: HashMap<u8, &'static str>,
    last_real_keys: Option<(u8, Vec<String>)>,
    delay_timer: DelayTimer,
    display_state: Vec<bool>,
    render_commands: Vec<RenderCommand>,
}

impl View for CPU {
    type V = CpuState;

    closed spec fn view(&self) -> CpuState {
        CpuState {
            memory: self.memory_space.cells(),
            font_table: self.memory_space.font_table(),
            pc: self.program_counter,
            stack: self.stack@,
            registers: self.registers@,
            index: self.index_register,
            key_map: self.chip_to_real_key_map@,
            waiting: match self.last_real_keys {
                Some((x, keys)) => Some((x, keys@)),
                None => None,
            },
            timer_set_to: self.delay_timer.set_to(),
            timer_value: self.delay_timer.stored(),
            display: self.display_state@,
            render: self.render_commands@,
        }
    }
}

impl CPU {
    pub open spec fn wf(&self) -> bool {
        self@.wf()
    }

    /// An interpreter over `memory`, with the host key of each keypad digit given by
    /// `key_map`, starting at 0x200 with everything else cleared.
    pub fn new(memory: Memory, key_map: HashMap<u8, &'static str>) -> (cpu: CPU)
        requires
            memory.wf(),
        ensures
            cpu.wf(),
            cpu@ == (CpuState {
                memory: memory.cells(),
                font_table: memory.font_table(),
                pc: consts::PROGRAM_MEMORY_ADDR as u16,
                stack: Seq::empty(),
                registers: Seq::new(16, |k: int| 0u8),
                index: 0,
                key_map: key_map@,
                waiting: None,
                timer_set_to: 0,
                timer_value: 0,
                display: Seq::new(frame_size(), |k: int| false),
                render: Seq::empty(),
            }),
    {
        let cpu = CPU {
            memory_space: memory,
            program_counter: consts::PROGRAM_MEMORY_ADDR as u16,
            stack: Stack::new(),
            registers: [0u8; 16],
            index_register: 0,
            chip_to_real_key_map: key_map,
            last_real_keys: None,
            delay_timer: DelayTimer::init_timer(),
            display_state: vec![false; consts::DISPLAY_WIDTH * consts::DISPLAY_HEIGHT],
            render_commands: Vec::new(),
        };
        assert(cpu@.registers =~= Seq::new(16, |k: int| 0u8));
        assert(cpu@.display =~= Seq::new(frame_size(), |k: int| false));
        cpu
    }

    /// XORs `sprite_content` onto the framebuffer at `(x_coord, y_coord)` and queues the
    /// surface updates.
    pub fn draw_sprite(&mut self, sprite_content: Vec<u8>, x_coord: u8, y_coord: u8)
        requires
            old(self).wf(),
        ensures
            final(self).wf(),
            final(self)@ == (CpuState {
                display: drawn(old(self)@.display, sprite_content@, x_coord, y_coord),
                render: old(self)@.render + draw_commands(
                    old(self)@.display,
                    sprite_content@,
                    x_coord,
                    y_coord,
                ),
                ..old(self)@
            }),
    {
        xor_sprite(&mut self.display_state, &mut self.render_commands, &sprite_content, x_coord, y_coord);
        proof {
            crate::display::lemma_toggled_len(
                old(self)@.display,
                sprite_content@,
                x_coord,
                y_coord,
                8 * sprite_content@.len(),
            );
        }
    }
}

impl CPU {
    fn exec_alu(&mut self, op: AluOp, x: u8, y: u8)
        requires
            old(self).wf(),
            x < 16,
            y < 16,
        ensures
            final(self).wf(),
            final(self)@ == (CpuState {
                registers: alu_registers(old(self)@.registers, op, x, y),
                ..old(self)@
            }),
    {
        let (result, flag) = alu(op, self.registers[x as usize], self.registers[y as usize]);
        match flag {
            Some(f) => {
                self.registers[15] = f;
            },
            None => {},
        }
        self.registers[x as usize] = result;
    }

    fn store_registers(&mut self, x: u8)
        requires
            old(self).wf(),
            x < 16,
            old(self)@.index + x + 1 <= consts::MEMORY_SIZE,
        ensures
            final(self).wf(),
            final(self)@ == stored_prefix(old(self)@, x + 1),
    {
        let mut i: usize = 0;
        assert(self@.memory =~= stored_prefix(old(self)@, 0).memory);
        while i <= x as usize
            invariant
                old(self).wf(),
                x < 16,
                old(self)@.index + x + 1 <= consts::MEMORY_SIZE,
                0 <= i <= x + 1,
                self.wf(),
                self@ == stored_prefix(old(self)@, i as int),
            decreases x + 1 - i,
        {
            self.memory_space.set_value(self.index_register, self.registers[i]);
            self.index_register += 1;
            i += 1;
            assert(self@.memory =~= stored_prefix(old(self)@, i as int).memory);
        }
    }

    fn load_registers(&mut self, x: u8)
        requires
            old(self).wf(),
            x < 16,
            old(self)@.index + x + 1 <= consts::MEMORY_SIZE,
        ensures
            final(self).wf(),
            final(self)@ == loaded_prefix(old(self)@, x + 1),
    {
        let mut i: usize = 0;
        assert(self@.registers =~= loaded_prefix(old(self)@, 0).registers);
        while i <= x as usize
            invariant
                old(self).wf(),
                x < 16,
                old(self)@.index + x + 1 <= consts::MEMORY_SIZE,
                0 <= i <= x + 1,
                self.wf(),
                self@ == loaded_prefix(old(self)@, i as int),
            decreases x + 1 - i,
        {
            self.registers[i] = self.memory_space.get_value(self.index_register);
            self.index_register += 1;
            i += 1;
            assert(self@.registers =~= loaded_prefix(old(self)@, i as int).registers);
        }
    }

    fn store_bcd(&mut self, x: u8)
        requires
            old(self).wf(),
            x < 16,
            old(self)@.index + 3 < consts::MEMORY_SIZE,
        ensures
            final(self).wf(),
            final(self)@ == (CpuState { memory: bcd_memory(old(self)@, x), ..old(self)@ }),
    {
        let x_value = self.registers[x as usize];
        let ones_digit: u8 = x_value % 10;
        let tens_digit: u8 = (x_value % 100) / 10;
        let hundreds_digit: u8 = x_value / 100;
        self.memory_space.set_value(self.index_register + 1, hundreds_digit);
        self.memory_space.set_value(self.index_register + 2, tens_digit);
        self.memory_space.set_value(self.index_register + 3, ones_digit);
    }

    fn read_sprite(&self, n: u8) -> (sprite: Vec<u8>)
        requires
            self.wf(),
            self@.index + n <= consts::MEMORY_SIZE,
        ensures
            sprite@ == sprite_at(self@, n),
    {
        let mut sprite: Vec<u8> = Vec::new();
        let mut i: u8 = 0;
        while i < n
            invariant
                self.wf(),
                self@.index + n <= consts::MEMORY_SIZE,
                0 <= i <= n,
                sprite@ == self@.memory.subrange(self@.index as int, self@.index + i),
            decreases n - i,
        {
            sprite.push(self.memory_space.get_value(self.index_register + i as u16));
            i += 1;
            assert(sprite@ =~= self@.memory.subrange(self@.index as int, self@.index + i));
        }
        sprite
    }

    fn exec_key_skip(&mut self, x: u8, keys: &Vec<String>, when_pressed: bool) -> (r: Result<
        (),
        Chip8Error,
    >)
        requires
            old(self).wf(),
            x < 16,
            old(self)@.pc + 1 < consts::MEMORY_SIZE,
        ensures
            final(self).wf(),
            (final(self)@, r) == key_skip(old(self)@, x, keys@, when_pressed),
    {
        let keycode = self.registers[x as usize];
        match self.chip_to_real_key_map.get(&keycode) {
            Some(name) => {
                if keys_contain(keys, name) == when_pressed {
                    self.program_counter += 4;
                } else {
                    self.program_counter += 2;
                }
                Ok(())
            },
            None => Err(Chip8Error::InvalidKeycode(keycode)),
        }
    }

    /// Jumps, calls, returns, skips and clearing the screen.
    fn execute_flow(&mut self, ins: Instruction) -> (r: Result<(), Chip8Error>)
        requires
            old(self).wf(),
            old(self)@.pc + 1 < consts::MEMORY_SIZE,
            operands_in_range(ins),
            is_flow(ins),
        ensures
            final(self).wf(),
            (final(self)@, r) == executed(old(self)@, ins, Seq::empty(), 0, 0),
    {
        match ins {
            Instruction::ClearScreen => {
                self.display_state = vec![false; consts::DISPLAY_WIDTH * consts::DISPLAY_HEIGHT];
                self.render_commands.push(RenderCommand::Clear);
                assert(self@.display =~= Seq::new(frame_size(), |k: int| false));
            },
            Instruction::Return => {
                let addr = self.stack.pop()?;
                self.program_counter = addr + 2;
                return Ok(());
            },
            Instruction::Jump { addr } => {
                self.program_counter = addr;
                return Ok(());
            },
            Instruction::Call { addr } => {
                self.stack.push(self.program_counter);
                self.program_counter = addr;
                return Ok(());
            },
            Instruction::JumpOffset { addr } => {
                self.program_counter = addr + self.registers[0] as u16;
                return Ok(());
            },
            Instruction::SkipEqImm { x, kk } => {
                if self.registers[x as usize] == kk {
                    self.program_counter += 2;
                }
            },
            Instruction::SkipNeImm { x, kk } => {
                if self.registers[x as usize] != kk {
                    self.program_counter += 2;
                }
            },
            Instruction::SkipEqReg { x, y } => {
                if self.registers[x as usize] == self.registers[y as usize] {
                    self.program_counter += 2;
                }
            },
            Instruction::SkipNeReg { x, y } => {
                if self.registers[x as usize] != self.registers[y as usize] {
                    self.program_counter += 2;
                }
            },
            _ => {},
        }
        self.program_counter += 2;
        Ok(())
    }

    /// Instructions that write a register or the index register from operands alone.
    fn execute_register(&mut self, ins: Instruction, random: u8) -> (r: Result<(), Chip8Error>)
        requires
            old(self).wf(),
            old(self)@.pc + 1 < consts::MEMORY_SIZE,
            operands_in_range(ins),
            is_register_write(ins),
        ensures
            final(self).wf(),
            (final(self)@, r) == executed(old(self)@, ins, Seq::empty(), random, 0),
    {
        match ins {
            Instruction::LoadImm { x, kk } => {
                self.registers[x as usize] = kk;
            },
            Instruction::AddImm { x, kk } => {
                self.registers[x as usize] = self.registers[x as usize].wrapping_add(kk);
            },
            Instruction::Alu { op, x, y } => {
                self.exec_alu(op, x, y);
            },
            Instruction::LoadIndex { addr } => {
                self.index_register = addr;
            },
            Instruction::Random { x, kk } => {
                self.registers[x as usize] = random & kk;
            },
            Instruction::AddIndex { x } => {
                self.index_register = self.index_register.wrapping_add(self.registers[x as usize] as u16);
            },
            _ => {},
        }
        self.program_counter += 2;
        Ok(())
    }

    /// Drawing, keys, timers, fonts and the memory block instructions.
    fn execute_io(&mut self, ins: Instruction, real_keys: Vec<String>, elapsed_millis: u128) -> (r:
        Result<(), Chip8Error>)
        requires
            old(self).wf(),
            old(self)@.pc + 1 < consts::MEMORY_SIZE,
            operands_in_range(ins),
            accesses_in_memory(old(self)@, ins),
            !is_flow(ins),
            !is_register_write(ins),
        ensures
            final(self).wf(),
            (final(self)@, r) == executed(old(self)@, ins, real_keys@, 0, elapsed_millis),
    {
        match ins {
            Instruction::Draw { x, y, n } => {
                let sprite_content = self.read_sprite(n);
                let x_coord = self.registers[x as usize];
                let y_coord = self.registers[y as usize];
                self.draw_sprite(sprite_content, x_coord, y_coord);
            },
            Instruction::SkipKeyPressed { x } => {
                return self.exec_key_skip(x, &real_keys, true);
            },
            Instruction::SkipKeyNotPressed { x } => {
                return self.exec_key_skip(x, &real_keys, false);
            },
            Instruction::GetDelay { x } => {
                self.registers[x as usize] = self.delay_timer.get_value_at(elapsed_millis);
            },
            Instruction::WaitKey { x } => {
                if self.last_real_keys.is_some() {
                    return Err(Chip8Error::WaitForKeypressDuringWaitMode);
                }
                self.last_real_keys = Some((x, real_keys));
            },
            Instruction::SetDelay { x } => {
                self.delay_timer.set_value(self.registers[x as usize]);
            },
            Instruction::SetSound { .. } => {
                return Err(Chip8Error::UnimplementedInstruction);
            },
            Instruction::FontAddr { x } => {
                self.index_register = self.memory_space.get_font_addr(self.registers[x as usize])?;
            },
            Instruction::StoreBcd { x } => {
                self.store_bcd(x);
            },
            Instruction::StoreRegs { x } => {
                self.store_registers(x);
            },
            Instruction::LoadRegs { x } => {
                self.load_registers(x);
            },
            _ => {},
        }
        self.program_counter += 2;
        Ok(())
    }

    fn execute(&mut self, ins: Instruction, real_keys: Vec<String>, random: u8, elapsed_millis: u128) -> (r:
        Result<(), Chip8Error>)
        requires
            old(self).wf(),
            old(self)@.pc + 1 < consts::MEMORY_SIZE,
            operands_in_range(ins),
            accesses_in_memory(old(self)@, ins),
        ensures
            final(self).wf(),
            (final(self)@, r) == executed(old(self)@, ins, real_keys@, random, elapsed_millis),
    {
        if instruction_is_flow(&ins) {
            self.execute_flow(ins)
        } else if instruction_is_register_write(&ins) {
            self.execute_register(ins, random)
        } else {
            self.execute_io(ins, real_keys, elapsed_millis)
        }
    }
}

impl CPU {
    /// One step, given the host keys held now, the byte that `Cxkk` would draw and the
    /// milliseconds since the delay timer was set.
    pub fn step(&mut self, real_keys: Vec<String>, random: u8, elapsed_millis: u128) -> (r: Result<
        (),
        Chip8Error,
    >)
        requires
            old(self).wf(),
            step_in_memory(old(self)@),
        ensures
            final(self).wf(),
            (final(self)@, r) == stepped(old(self)@, real_keys@, random, elapsed_millis),
    {
        let waiting_register: Option<u8> = match &self.last_real_keys {
            Some(pending) => Some(pending.0),
            None => None,
        };
        match waiting_register {
            Some(x) => {
                if keys_contain(&real_keys, consts::CONFIRM_KEY_NAME) {
                    self.registers[x as usize] = 1;
                    self.last_real_keys = None;
                }
                return Ok(());
            },
            None => {},
        }
        let high = self.memory_space.get_value(self.program_counter);
        let low = self.memory_space.get_value(self.program_counter + 1);
        let opcode: u16 = high as u16 * 256 + low as u16;
        proof {
            crate::instruction::lemma_decoded_operands_in_range(opcode);
        }
        match decode(opcode) {
            Some(ins) => self.execute(ins, real_keys, random, elapsed_millis),
            None => Err(Chip8Error::InvalidInstruction),
        }
    }

    /// Fetches, decodes and executes one instruction (or waits for the confirm key),
    /// drawing a random byte and reading the delay timer's clock.
    pub fn execute_instruction(&mut self, real_keys: Vec<String>) -> (r: Result<(), Chip8Error>)
        requires
            old(self).wf(),
            step_in_memory(old(self)@),
        ensures
            final(self).wf(),
            exists|random: u8, elapsed_millis: u128|
                (final(self)@, r) == #[trigger] stepped(old(self)@, real_keys@, random, elapsed_millis),
    {
        let random: u8 = rand::random::<u8>();
        let elapsed_millis = self.delay_timer.elapsed_millis();
        self.step(real_keys, random, elapsed_millis)
    }

    /// Whether the next step stays inside the address space; `step` may only be called
    /// when it does.
    pub fn step_in_memory(&self) -> (r: bool)
        requires
            self.wf(),
        ensures
            r == step_in_memory(self@),
    {
        if self.last_real_keys.is_some() {
            return true;
        }
        if self.program_counter as usize + 1 >= consts::MEMORY_SIZE {
            return false;
        }
        let high = self.memory_space.get_value(self.program_counter);
        let low = self.memory_space.get_value(self.program_counter + 1);
        let opcode: u16 = high as u16 * 256 + low as u16;
        let index = self.index_register as usize;
        match decode(opcode) {
            Some(Instruction::Draw { n, .. }) => index + n as usize <= consts::MEMORY_SIZE,
            Some(Instruction::StoreBcd { .. }) => index + 3 < consts::MEMORY_SIZE,
            Some(Instruction::StoreRegs { x }) => index + x as usize + 1 <= consts::MEMORY_SIZE,
            Some(Instruction::LoadRegs { x }) => index + x as usize + 1 <= consts::MEMORY_SIZE,
            _ => true,
        }
    }

    /// Hands over the queued surface operations, oldest first, and empties the queue.
    pub fn take_render_commands(&mut self) -> (r: Vec<RenderCommand>)
        requires
            old(self).wf(),
        ensures
            final(self).wf(),
            r@ == old(self)@.render,
            final(self)@ == (CpuState { render: Seq::empty(), ..old(self)@ }),
    {
        let mut taken: Vec<RenderCommand> = Vec::new();
        std::mem::swap(&mut taken, &mut self.render_commands);
        taken
    }
}

impl CPU {
    pub fn get_register(&self, x: u8) -> (r: u8)
        requires
            self.wf(),
            x < 16,
        ensures
            r == self@.registers[x as int],
    {
        self.registers[x as usize]
    }

    pub fn get_program_counter(&self) -> (r: u16)
        ensures
            r == self@.pc,
    {
        self.program_counter
    }

    pub fn get_index_register(&self) -> (r: u16)
        ensures
            r == self@.index,
    {
        self.index_register
    }

    pub fn get_memory_value(&self, address: u16) -> (r: u8)
        requires
            self.wf(),
            address < consts::MEMORY_SIZE,
        ensures
            r == self@.memory[address as int],
    {
        self.memory_space.get_value(address)
    }

    /// Whether the pixel at column `x`, row `y` is on.
    pub fn get_pixel(&self, x: u8, y: u8) -> (r: bool)
        requires
            self.wf(),
            x < consts::DISPLAY_WIDTH,
            y < consts::DISPLAY_HEIGHT,
        ensures
            r == self@.display[pixel_index(x as int, y as int)],
    {
        self.display_state[y as usize * consts::DISPLAY_WIDTH + x as usize]
    }

    /// Whether a key wait is pending.
    pub fn is_awaiting_key(&self) -> (r: bool)
        ensures
            r == self@.waiting is Some,
    {
        self.last_real_keys.is_some()
    }

    pub fn get_stack_depth(&self) -> (r: u8)
        ensures
            r == self@.stack.len() as u8,
    {
        self.stack.get_sp()
    }
}

/// Instructions that decide where execution goes next, and clearing the screen.
pub open spec fn is_flow(ins: Instruction) -> bool {
    match ins {
        Instruction::ClearScreen | Instruction::Return | Instruction::Jump { .. }
        | Instruction::Call { .. } | Instruction::JumpOffset { .. } | Instruction::SkipEqImm { .. }
        | Instruction::SkipNeImm { .. } | Instruction::SkipEqReg { .. }
        | Instruction::SkipNeReg { .. } => true,
        _ => false,
    }
}

/// Instructions that only write a register or the index register from their operands.
pub open spec fn is_register_write(ins: Instruction) -> bool {
    match ins {
        Instruction::LoadImm { .. } | Instruction::AddImm { .. } | Instruction::Alu { .. }
        | Instruction::LoadIndex { .. } | Instruction::Random { .. }
        | Instruction::AddIndex { .. } => true,
        _ => false,
    }
}

fn instruction_is_flow(ins: &Instruction) -> (r: bool)
    ensures
        r == is_flow(*ins),
{
    match ins {
        Instruction::ClearScreen | Instruction::Return | Instruction::Jump { .. }
        | Instruction::Call { .. } | Instruction::JumpOffset { .. } | Instruction::SkipEqImm { .. }
        | Instruction::SkipNeImm { .. } | Instruction::SkipEqReg { .. }
        | Instruction::SkipNeReg { .. } => true,
        _ => false,
    }
}

fn instruction_is_register_write(ins: &Instruction) -> (r: bool)
    ensures
        r == is_register_write(*ins),
{
    match ins {
        Instruction::LoadImm { .. } | Instruction::AddImm { .. } | Instruction::Alu { .. }
        | Instruction::LoadIndex { .. } | Instruction::Random { .. }
        | Instruction::AddIndex { .. } => true,
        _ => false,
    }
}

proof fn lemma_opcode_fields(op: u16, n0: int, x: int, kk: int)
    requires
        0 <= n0 < 16,
        0 <= x < 16,
        0 <= kk < 256,
        op == n0 * 4096 + x * 256 + kk,
    ensures
        nibble0(op) == n0,
        nibble1(op) == x,
        nibble2(op) == kk / 16,
        nibble3(op) == kk % 16,
        low_byte(op) == kk,
        address(op) == x * 256 + kk,
{
    assert(op / 4096 == n0 && (op / 256) % 16 == x && (op / 16) % 16 == kk / 16 && op % 16 == kk % 16
        && op % 256 == kk && op % 4096 == x * 256 + kk) by (nonlinear_arith)
        requires
            0 <= n0 < 16,
            0 <= x < 16,
            0 <= kk < 256,
            op == n0 * 4096 + x * 256 + kk,
    ;
}

/// The instruction at the program counter of a running interpreter, as high and low byte.
pub open spec fn holds_opcode(s: CpuState, high: int, low: int) -> bool {
    &&& s.waiting is None
    &&& s.pc + 1 < consts::MEMORY_SIZE
    &&& s.memory[s.pc as int] == high
    &&& s.memory[s.pc + 1] == low
}

/// `6xkk` sets Vx to kk, touches no other register, and moves on by exactly one
/// instruction.
pub proof fn lemma_load_immediate(
    s: CpuState,
    x: u8,
    kk: u8,
    keys: Seq<String>,
    random: u8,
    elapsed_millis: u128,
)
    requires
        s.wf(),
        x < 16,
        holds_opcode(s, 0x60 + x, kk as int),
    ensures
        stepped(s, keys, random, elapsed_millis) == (
            CpuState { registers: s.registers.update(x as int, kk), pc: (s.pc + 2) as u16, ..s },
            Ok::<(), Chip8Error>(()),
        ),
{
    lemma_opcode_fields(fetched(s), 6, x as int, kk as int);
}

/// `7xkk` adds kk to Vx modulo 256 and writes no flag.
pub proof fn lemma_add_immediate_wraps(
    s: CpuState,
    x: u8,
    kk: u8,
    keys: Seq<String>,
    random: u8,
    elapsed_millis: u128,
)
    requires
        s.wf(),
        x < 16,
        holds_opcode(s, 0x70 + x, kk as int),
    ensures
        stepped(s, keys, random, elapsed_millis) == (
            CpuState {
                registers: s.registers.update(x as int, ((s.registers[x as int] + kk) % 256) as u8),
                pc: (s.pc + 2) as u16,
                ..s
            },
            Ok::<(), Chip8Error>(()),
        ),
{
    lemma_opcode_fields(fetched(s), 7, x as int, kk as int);
}

/// `8xy4` leaves the low byte of Vx + Vy in Vx, and sets VF to 1 exactly when the sum
/// exceeds 255. (With x = F the sum overwrites the flag.)
pub proof fn lemma_add_registers_carry(
    s: CpuState,
    x: u8,
    y: u8,
    keys: Seq<String>,
    random: u8,
    elapsed_millis: u128,
)
    requires
        s.wf(),
        x < 15,
        y < 16,
        holds_opcode(s, 0x80 + x, y * 16 + 4),
    ensures
        ({
            let (t, r) = stepped(s, keys, random, elapsed_millis);
            let vx = s.registers[x as int];
            let vy = s.registers[y as int];
            &&& r is Ok
            &&& t.registers[x as int] == (vx + vy) % 256
            &&& (t.registers[15] == 1) == (vx + vy > 255)
            &&& t.registers[15] <= 1
            &&& t.pc == s.pc + 2
        }),
{
    lemma_opcode_fields(fetched(s), 8, x as int, y * 16 + 4);
}

/// `8xy5` leaves Vx - Vy modulo 256 in Vx, and sets VF to 1 exactly when Vx > Vy before
/// the subtraction. (With x = F the difference overwrites the flag.)
pub proof fn lemma_sub_registers_borrow(
    s: CpuState,
    x: u8,
    y: u8,
    keys: Seq<String>,
    random: u8,
    elapsed_millis: u128,
)
    requires
        s.wf(),
        x < 15,
        y < 16,
        holds_opcode(s, 0x80 + x, y * 16 + 5),
    ensures
        ({
            let (t, r) = stepped(s, keys, random, elapsed_millis);
            let vx = s.registers[x as int];
            let vy = s.registers[y as int];
            &&& r is Ok
            &&& t.registers[x as int] == (vx - vy) % 256
            &&& (t.registers[15] == 1) == (vx > vy)
            &&& t.registers[15] <= 1
            &&& t.pc == s.pc + 2
        }),
{
    lemma_opcode_fields(fetched(s), 8, x as int, y * 16 + 5);
}

/// A call to a subroutine that returns at once brings the program counter back to the
/// instruction after the call, with the stack as before.
pub proof fn lemma_call_then_return(
    s: CpuState,
    target: u16,
    keys: Seq<String>,
    random: u8,
    elapsed_millis: u128,
)
    requires
        s.wf(),
        target + 1 < consts::MEMORY_SIZE,
        holds_opcode(s, 0x20 + target as int / 256, target as int % 256),
        s.memory[target as int] == 0x00,
        s.memory[target + 1] == 0xEE,
    ensures
        ({
            let (t1, r1) = stepped(s, keys, random, elapsed_millis);
            let (t2, r2) = stepped(t1, keys, random, elapsed_millis);
            &&& r1 is Ok
            &&& r2 is Ok
            &&& t1.pc == target
            &&& t2.pc == s.pc + 2
            &&& t2.stack == s.stack
        }),
{
    lemma_opcode_fields(fetched(s), 2, target as int / 256, target as int % 256);
    let t1 = stepped(s, keys, random, elapsed_millis).0;
    assert(t1.stack.drop_last() =~= s.stack);
    assert(fetched(t1) == 0x00EE);
}

/// A return with an empty stack fails with a stack underflow and changes nothing.
pub proof fn lemma_return_on_empty_stack_fails(
    s: CpuState,
    keys: Seq<String>,
    random: u8,
    elapsed_millis: u128,
)
    requires
        s.wf(),
        s.stack.len() == 0,
        holds_opcode(s, 0x00, 0xEE),
    ensures
        stepped(s, keys, random, elapsed_millis) == (s, Err::<(), Chip8Error>(
            Chip8Error::TriedPoppingEmptyStack,
        )),
{
}

/// `Fx33` writes the hundreds, tens and ones of Vx at index + 1, + 2 and + 3, and leaves
/// the byte at the index as it was.
pub proof fn lemma_store_bcd_digits(
    s: CpuState,
    x: u8,
    keys: Seq<String>,
    random: u8,
    elapsed_millis: u128,
)
    requires
        s.wf(),
        x < 16,
        s.index + 3 < consts::MEMORY_SIZE,
        holds_opcode(s, 0xF0 + x, 0x33),
    ensures
        ({
            let (t, r) = stepped(s, keys, random, elapsed_millis);
            let v = s.registers[x as int];
            &&& r is Ok
            &&& t.memory[s.index + 1] == v / 100
            &&& t.memory[s.index + 2] == (v / 10) % 10
            &&& t.memory[s.index + 3] == v % 10
            &&& t.memory[s.index as int] == s.memory[s.index as int]
            &&& 100 * t.memory[s.index + 1] + 10 * t.memory[s.index + 2] + t.memory[s.index + 3] == v
        }),
{
    lemma_opcode_fields(fetched(s), 0xF, x as int, 0x33);
}

/// An opcode outside the instruction table fails with `InvalidInstruction` and changes
/// nothing.
pub proof fn lemma_invalid_opcode_changes_nothing(
    s: CpuState,
    keys: Seq<String>,
    random: u8,
    elapsed_millis: u128,
)
    requires
        s.wf(),
        s.waiting is None,
        decoded(fetched(s)) is None,
    ensures
        stepped(s, keys, random, elapsed_millis) == (s, Err::<(), Chip8Error>(
            Chip8Error::InvalidInstruction,
        )),
{
}

/// A step that fails leaves the whole state as it was.
pub proof fn lemma_failed_step_changes_nothing(
    s: CpuState,
    keys: Seq<String>,
    random: u8,
    elapsed_millis: u128,
)
    requires
        s.wf(),
    ensures
        stepped(s, keys, random, elapsed_millis).1 is Err ==> stepped(
            s,
            keys,
            random,
            elapsed_millis,
        ).0 == s,
{
}

/// `Fx0A` starts a key wait on Vx, remembering the keys held, and moves on.
pub proof fn lemma_wait_key_starts_waiting(
    s: CpuState,
    x: u8,
    keys: Seq<String>,
    random: u8,
    elapsed_millis: u128,
)
    requires
        s.wf(),
        x < 16,
        holds_opcode(s, 0xF0 + x, 0x0A),
    ensures
        stepped(s, keys, random, elapsed_millis) == (
            CpuState { waiting: Some((x, keys)), pc: (s.pc + 2) as u16, ..s },
            Ok::<(), Chip8Error>(()),
        ),
{
    lemma_opcode_fields(fetched(s), 0xF, x as int, 0x0A);
}

/// While a key wait is pending, a step without the confirm key changes nothing; a step
/// with it writes 1 to the waiting register and ends the wait, and does nothing else.
pub proof fn lemma_waiting_for_confirm_key(
    s: CpuState,
    keys: Seq<String>,
    random: u8,
    elapsed_millis: u128,
)
    requires
        s.wf(),
        s.waiting is Some,
    ensures
        !key_pressed(keys, consts::CONFIRM_KEY_NAME@) ==> stepped(s, keys, random, elapsed_millis)
            == (s, Ok::<(), Chip8Error>(())),
        key_pressed(keys, consts::CONFIRM_KEY_NAME@) ==> stepped(s, keys, random, elapsed_millis)
            == (
            CpuState {
                registers: s.registers.update(s.waiting.unwrap().0 as int, 1),
                waiting: None,
                ..s
            },
            Ok::<(), Chip8Error>(()),
        ),
{
}

/// A step only appends to the queue of surface operations, and a surface that mirrors the
/// framebuffer before the step and carries out what was appended mirrors it after.
pub proof fn lemma_step_keeps_surface_mirrored(
    s: CpuState,
    keys: Seq<String>,
    random: u8,
    elapsed_millis: u128,
)
    requires
        s.wf(),
    ensures
        ({
            let t = stepped(s, keys, random, elapsed_millis).0;
            &&& s.render.len() <= t.render.len()
            &&& t.render.subrange(0, s.render.len() as int) == s.render
            &&& replayed(s.display, t.render.subrange(s.render.len() as int, t.render.len() as int))
                == t.display
        }),
{
    let t = stepped(s, keys, random, elapsed_millis).0;
    let n0 = s.render.len() as int;
    let added = t.render.subrange(n0, t.render.len() as int);
    if s.waiting is None {
        match decoded(fetched(s)) {
            Some(Instruction::Draw { x, y, n }) => {
                let sprite = sprite_at(s, n);
                let vx = s.registers[x as int];
                let vy = s.registers[y as int];
                lemma_draw_commands_mirror(s.display, sprite, vx, vy);
                assert(added =~= draw_commands(s.display, sprite, vx, vy));
            },
            Some(Instruction::ClearScreen) => {
                assert(added =~= seq![RenderCommand::Clear]);
                assert(added.drop_last() =~= Seq::<RenderCommand>::empty());
                assert(replayed(s.display, added.drop_last()) == s.display);
                assert(replayed(s.display, added) =~= t.display);
            },
            _ => {
                assert(added =~= Seq::<RenderCommand>::empty());
            },
        }
    } else {
        assert(added =~= Seq::<RenderCommand>::empty());
    }
    assert(t.render.subrange(0, n0) =~= s.render);
}

} // verus!
