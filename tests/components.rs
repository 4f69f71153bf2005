use chip8::consts::{font_content, get_chip_to_real_key_map, PROGRAM_MEMORY_ADDR};
use chip8::cpu::{alu, keys_contain};
use chip8::delay_timer::DelayTimer;
use chip8::display::{sprite_pixels, xor_sprite, RenderCommand};
use chip8::errors::Chip8Error;
use chip8::instruction::{decode, AluOp, Instruction};
use chip8::memory::Memory;
use chip8::sound_timer::SoundTimer;
use chip8::stack::Stack;
use chip8::types::{Byte, Double};

#[test]
fn stack_pops_in_reverse_order() {
    let mut stack = Stack::new();
    stack.push(0x200);
    stack.push(0x300);
    assert_eq!(stack.get_sp(), 2);
    assert_eq!(stack.pop().unwrap(), 0x300);
    assert_eq!(stack.pop().unwrap(), 0x200);
    assert_eq!(stack.get_sp(), 0);
}

#[test]
fn stack_pop_on_empty_fails() {
    let mut stack = Stack::new();
    assert!(matches!(stack.pop(), Err(Chip8Error::TriedPoppingEmptyStack)));
    assert_eq!(stack.get_sp(), 0);
}

#[test]
fn stack_depth_truncates_to_a_byte() {
    let mut stack = Stack::new();
    let mut i: u32 = 0;
    while i < 257 {
        stack.push(0x200);
        i += 1;
    }
    assert_eq!(stack.get_sp(), 1);
}

#[test]
fn memory_loads_rom_and_font() {
    let mem = Memory::new_from_rom(vec![0x12, 0x34, 0x56]);
    assert_eq!(mem.get_value(0x200), 0x12);
    assert_eq!(mem.get_value(0x201), 0x34);
    assert_eq!(mem.get_value(0x202), 0x56);
    assert_eq!(mem.get_value(0x203), 0x00);
    assert_eq!(mem.get_value(0), 0xF0);
    assert_eq!(mem.get_value(79), 0x80);
    assert_eq!(mem.get_value(80), 0x00);
    assert_eq!(mem.get_value(0xFFF), 0x00);
}

#[test]
fn memory_accepts_largest_rom() {
    let rom = vec![0xAB; 4096 - PROGRAM_MEMORY_ADDR];
    let mem = Memory::new_from_rom(rom);
    assert_eq!(mem.get_value(0x200), 0xAB);
    assert_eq!(mem.get_value(0xFFF), 0xAB);
}

#[test]
fn memory_font_addresses() {
    let mem = Memory::new_from_rom(vec![]);
    assert_eq!(mem.get_font_addr(0).unwrap(), 0);
    assert_eq!(mem.get_font_addr(0xA).unwrap(), 50);
    assert_eq!(mem.get_font_addr(0xF).unwrap(), 75);
    assert!(matches!(mem.get_font_addr(16), Err(Chip8Error::InvalidKeycode(16))));
}

#[test]
fn memory_set_then_get() {
    let mut mem = Memory::new();
    mem.set_value(0x345, 0x77);
    assert_eq!(mem.get_value(0x345), 0x77);
    assert_eq!(mem.get_value(0x346), 0x00);
}

#[test]
fn memory_load_font_fills_glyphs() {
    let mut mem = Memory::new();
    assert_eq!(mem.get_font_addr(3).unwrap(), 0);
    mem.load_font();
    assert_eq!(mem.get_font_addr(3).unwrap(), 15);
    assert_eq!(mem.get_value(15), 0xF0);
    assert_eq!(mem.get_value(16), 0x10);
}

#[test]
fn font_has_sixteen_glyphs() {
    let font = font_content();
    assert_eq!(font.len(), 80);
    assert_eq!(&font[5..10], &[0x20, 0x60, 0x20, 0x20, 0x70]);
}

#[test]
fn key_map_layout() {
    let map = get_chip_to_real_key_map();
    assert_eq!(map.len(), 16);
    assert_eq!(map[&0x1], "1");
    assert_eq!(map[&0xC], "4");
    assert_eq!(map[&0x4], "Q");
    assert_eq!(map[&0x0], "X");
    assert_eq!(map[&0xF], "V");
    assert!(map.get(&0x10).is_none());
}

#[test]
fn keys_contain_by_name() {
    let keys = vec!["Q".to_string(), "Return".to_string()];
    assert!(keys_contain(&keys, "Return"));
    assert!(keys_contain(&keys, "Q"));
    assert!(!keys_contain(&keys, "W"));
    assert!(!keys_contain(&vec![], "Return"));
}

#[test]
fn decode_table() {
    assert_eq!(decode(0x00E0), Some(Instruction::ClearScreen));
    assert_eq!(decode(0x00EE), Some(Instruction::Return));
    assert_eq!(decode(0x1ABC), Some(Instruction::Jump { addr: 0xABC }));
    assert_eq!(decode(0x6A42), Some(Instruction::LoadImm { x: 0xA, kk: 0x42 }));
    assert_eq!(decode(0x8AB4), Some(Instruction::Alu { op: AluOp::Add, x: 0xA, y: 0xB }));
    assert_eq!(decode(0x812E), Some(Instruction::Alu { op: AluOp::ShiftLeft, x: 1, y: 2 }));
    assert_eq!(decode(0xD125), Some(Instruction::Draw { x: 1, y: 2, n: 5 }));
    assert_eq!(decode(0xE39E), Some(Instruction::SkipKeyPressed { x: 3 }));
    assert_eq!(decode(0xF433), Some(Instruction::StoreBcd { x: 4 }));
}

#[test]
fn decode_rejects_unknown_opcodes() {
    assert_eq!(decode(0x5001), None);
    assert_eq!(decode(0x9AB1), None);
    assert_eq!(decode(0x8AB8), None);
    assert_eq!(decode(0xE1A2), None);
    assert_eq!(decode(0xF1FF), None);
    assert_eq!(decode(0x0123), None);
}

#[test]
fn alu_add_carries() {
    assert_eq!(alu(AluOp::Add, 0xFF, 0x02), (0x01, Some(1)));
    assert_eq!(alu(AluOp::Add, 0x10, 0x20), (0x30, Some(0)));
    assert_eq!(alu(AluOp::Add, 0x80, 0x80), (0x00, Some(1)));
}

#[test]
fn alu_sub_borrows() {
    assert_eq!(alu(AluOp::Sub, 0x05, 0x03), (0x02, Some(1)));
    assert_eq!(alu(AluOp::Sub, 0x01, 0x02), (0xFF, Some(0)));
    assert_eq!(alu(AluOp::Sub, 0x07, 0x07), (0x00, Some(0)));
    assert_eq!(alu(AluOp::SubN, 0x03, 0x05), (0x02, Some(1)));
    assert_eq!(alu(AluOp::SubN, 0x02, 0x01), (0xFF, Some(0)));
}

#[test]
fn alu_bitwise_and_shifts() {
    assert_eq!(alu(AluOp::Assign, 0x12, 0x34), (0x34, None));
    assert_eq!(alu(AluOp::Or, 0xF0, 0x0F), (0xFF, None));
    assert_eq!(alu(AluOp::And, 0xF3, 0x3F), (0x33, None));
    assert_eq!(alu(AluOp::Xor, 0xFF, 0x0F), (0xF0, None));
    assert_eq!(alu(AluOp::ShiftRight, 0x03, 0), (0x01, Some(1)));
    assert_eq!(alu(AluOp::ShiftRight, 0x04, 0), (0x02, Some(0)));
    assert_eq!(alu(AluOp::ShiftLeft, 0x81, 0), (0x02, Some(1)));
    assert_eq!(alu(AluOp::ShiftLeft, 0x41, 0), (0x82, Some(0)));
}

#[test]
fn delay_timer_counts_down_by_ticks() {
    let mut timer = DelayTimer::init_timer();
    timer.set_value(10);
    assert_eq!(timer.get_value_at(0), 10);
    assert_eq!(timer.get_value_at(4), 9);
    assert_eq!(timer.get_value_at(39), 1);
    assert_eq!(timer.get_value_at(40), 0);
    assert_eq!(timer.get_value_at(100000), 0);
}

#[test]
fn delay_timer_reading_never_goes_up() {
    let mut timer = DelayTimer::init_timer();
    timer.set_value(200);
    assert_eq!(timer.get_value_at(400), 98);
    assert_eq!(timer.get_value_at(0), 98);
    timer.set_value(5);
    assert_eq!(timer.get_value_at(0), 5);
}

#[test]
fn delay_timer_reads_its_value_right_after_set() {
    let mut timer = DelayTimer::init_timer();
    assert_eq!(timer.get_value(), 0);
    timer.set_value(10);
    assert_eq!(timer.get_value(), 10);
}

#[test]
fn xor_sprite_turns_pixel_on_then_off() {
    let mut pixels = vec![false; 64 * 32];
    let mut commands: Vec<RenderCommand> = Vec::new();
    xor_sprite(&mut pixels, &mut commands, &vec![0b1000_0000], 0, 0);
    assert!(pixels[0]);
    assert_eq!(pixels.iter().filter(|p| **p).count(), 1);
    assert_eq!(commands.len(), 9);
    assert_eq!(commands[0], RenderCommand::SetPixel { x: 0, y: 0, on: true });
    assert_eq!(commands[1], RenderCommand::SetPixel { x: 1, y: 0, on: false });
    assert_eq!(commands[8], RenderCommand::Present);
    xor_sprite(&mut pixels, &mut commands, &vec![0b1000_0000], 0, 0);
    assert!(!pixels[0]);
    assert_eq!(pixels.iter().filter(|p| **p).count(), 0);
    assert_eq!(commands[9], RenderCommand::SetPixel { x: 0, y: 0, on: false });
}

#[test]
fn xor_sprite_wraps_both_coordinates() {
    let mut pixels = vec![false; 64 * 32];
    let mut commands: Vec<RenderCommand> = Vec::new();
    xor_sprite(&mut pixels, &mut commands, &vec![0b1100_0001, 0b1000_0000], 63, 31);
    assert!(pixels[31 * 64 + 63]);
    assert!(pixels[31 * 64]);
    assert!(pixels[31 * 64 + 6]);
    assert!(pixels[63]);
    assert_eq!(pixels.iter().filter(|p| **p).count(), 4);
    assert_eq!(commands[1], RenderCommand::SetPixel { x: 0, y: 31, on: true });
    assert_eq!(commands[8], RenderCommand::SetPixel { x: 63, y: 0, on: true });
}

#[test]
fn xor_sprite_wraps_large_coordinates() {
    let mut pixels = vec![false; 64 * 32];
    let mut commands: Vec<RenderCommand> = Vec::new();
    xor_sprite(&mut pixels, &mut commands, &vec![0b1000_0000], 200, 100);
    assert!(pixels[(100 % 32) * 64 + 200 % 64]);
}

#[test]
fn sprite_pixels_paints_bits() {
    let cmds = sprite_pixels(&vec![0b1010_0000], 62, 5);
    assert_eq!(cmds.len(), 8);
    assert_eq!(cmds[0], RenderCommand::SetPixel { x: 62, y: 5, on: true });
    assert_eq!(cmds[1], RenderCommand::SetPixel { x: 63, y: 5, on: false });
    assert_eq!(cmds[2], RenderCommand::SetPixel { x: 0, y: 5, on: true });
    assert_eq!(cmds[3], RenderCommand::SetPixel { x: 1, y: 5, on: false });
}

#[test]
fn byte_and_double_conversions() {
    let b = Byte::new(0xAB);
    assert_eq!(b.get_raw_value(), 0xAB);
    assert_eq!(usize::from(b), 0xAB);
    assert_eq!(u16::from(b), 0xAB);
    assert_eq!(Double::from(b).get_raw_value(), 0xAB);
    assert_eq!(Byte::from(0x1234usize).get_raw_value(), 0x34);
    let d = Double::new_u16(0x1234);
    assert_eq!(Byte::from(d).get_raw_value(), 0x34);
    assert_eq!(Double::new_usize(0xFFFF).get_raw_value(), 0xFFFF);
    assert_eq!(Double::from(0x12345usize).get_raw_value(), 0x2345);
    assert_eq!((d + 0x10).get_raw_value(), 0x1244);
}

#[test]
fn sound_timer_constructs() {
    let _timer = SoundTimer::init_timer();
}
