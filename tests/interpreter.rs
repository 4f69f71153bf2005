use chip8::consts::get_chip_to_real_key_map;
use chip8::cpu::CPU;
use chip8::display::RenderCommand;
use chip8::errors::Chip8Error;
use chip8::memory::Memory;

fn cpu_with(rom: Vec<u8>) -> CPU {
    CPU::new(Memory::new_from_rom(rom), get_chip_to_real_key_map())
}

fn no_keys() -> Vec<String> {
    Vec::new()
}

fn keys(names: &[&str]) -> Vec<String> {
    names.iter().map(|n| n.to_string()).collect()
}

fn run(cpu: &mut CPU, steps: usize) {
    let mut i = 0;
    while i < steps {
        cpu.step(no_keys(), 0, 0).unwrap();
        i += 1;
    }
}

#[test]
fn starts_at_program_address() {
    let cpu = cpu_with(vec![]);
    assert_eq!(cpu.get_program_counter(), 0x200);
    assert_eq!(cpu.get_index_register(), 0);
    assert_eq!(cpu.get_register(0), 0);
    assert!(!cpu.is_awaiting_key());
}

#[test]
fn load_immediate_sets_register_and_advances() {
    let mut cpu = cpu_with(vec![0x6A, 0x42]);
    assert!(cpu.step(no_keys(), 0, 0).is_ok());
    assert_eq!(cpu.get_register(0xA), 0x42);
    assert_eq!(cpu.get_program_counter(), 0x202);
}

#[test]
fn add_immediate_wraps_without_flag() {
    let mut cpu = cpu_with(vec![0x60, 0xFF, 0x70, 0x02]);
    run(&mut cpu, 2);
    assert_eq!(cpu.get_register(0), 0x01);
    assert_eq!(cpu.get_register(0xF), 0);
    assert_eq!(cpu.get_program_counter(), 0x204);
}

#[test]
fn add_registers_sets_carry() {
    let mut cpu = cpu_with(vec![0x60, 0xFF, 0x61, 0x02, 0x80, 0x14]);
    run(&mut cpu, 3);
    assert_eq!(cpu.get_register(0), 0x01);
    assert_eq!(cpu.get_register(0xF), 1);
}

#[test]
fn add_registers_clears_carry() {
    let mut cpu = cpu_with(vec![0x6F, 0x01, 0x60, 0x10, 0x61, 0x20, 0x80, 0x14]);
    run(&mut cpu, 4);
    assert_eq!(cpu.get_register(0), 0x30);
    assert_eq!(cpu.get_register(0xF), 0);
}

#[test]
fn sub_registers_borrow_flag() {
    let mut cpu = cpu_with(vec![0x60, 0x01, 0x61, 0x02, 0x80, 0x15, 0x62, 0x05, 0x63, 0x03, 0x82, 0x35]);
    run(&mut cpu, 3);
    assert_eq!(cpu.get_register(0), 0xFF);
    assert_eq!(cpu.get_register(0xF), 0);
    run(&mut cpu, 3);
    assert_eq!(cpu.get_register(2), 0x02);
    assert_eq!(cpu.get_register(0xF), 1);
}

#[test]
fn shift_left_flag_is_high_bit() {
    let mut cpu = cpu_with(vec![0x60, 0x81, 0x80, 0x0E]);
    run(&mut cpu, 2);
    assert_eq!(cpu.get_register(0), 0x02);
    assert_eq!(cpu.get_register(0xF), 1);
}

#[test]
fn call_then_return_resumes_after_call() {
    let mut cpu = cpu_with(vec![0x22, 0x04, 0x00, 0x00, 0x00, 0xEE]);
    cpu.step(no_keys(), 0, 0).unwrap();
    assert_eq!(cpu.get_program_counter(), 0x204);
    assert_eq!(cpu.get_stack_depth(), 1);
    cpu.step(no_keys(), 0, 0).unwrap();
    assert_eq!(cpu.get_program_counter(), 0x202);
    assert_eq!(cpu.get_stack_depth(), 0);
}

#[test]
fn return_without_call_underflows() {
    let mut cpu = cpu_with(vec![0x00, 0xEE]);
    let r = cpu.step(no_keys(), 0, 0);
    assert!(matches!(r, Err(Chip8Error::TriedPoppingEmptyStack)));
    assert_eq!(cpu.get_program_counter(), 0x200);
}

#[test]
fn jump_and_jump_with_offset() {
    let mut cpu = cpu_with(vec![0x12, 0x04, 0x00, 0x00, 0x60, 0x04, 0xB3, 0x00]);
    cpu.step(no_keys(), 0, 0).unwrap();
    assert_eq!(cpu.get_program_counter(), 0x204);
    run(&mut cpu, 2);
    assert_eq!(cpu.get_program_counter(), 0x304);
}

#[test]
fn skips_on_equal_and_not_equal() {
    let mut cpu = cpu_with(vec![0x60, 0x05, 0x30, 0x05, 0x00, 0x00, 0x40, 0x05, 0x61, 0x05, 0x50, 0x10, 0x00, 0x00, 0x90, 0x10]);
    run(&mut cpu, 2);
    assert_eq!(cpu.get_program_counter(), 0x206);
    run(&mut cpu, 1);
    assert_eq!(cpu.get_program_counter(), 0x208);
    run(&mut cpu, 2);
    assert_eq!(cpu.get_program_counter(), 0x20E);
    run(&mut cpu, 1);
    assert_eq!(cpu.get_program_counter(), 0x210);
}

#[test]
fn draw_twice_turns_pixel_back_off() {
    let mut cpu = cpu_with(vec![0xA2, 0x06, 0xD0, 0x01, 0xD0, 0x01, 0x80]);
    run(&mut cpu, 2);
    assert!(cpu.get_pixel(0, 0));
    assert!(!cpu.get_pixel(1, 0));
    let commands = cpu.take_render_commands();
    assert_eq!(commands.len(), 9);
    assert_eq!(commands[0], RenderCommand::SetPixel { x: 0, y: 0, on: true });
    assert_eq!(commands[8], RenderCommand::Present);
    run(&mut cpu, 1);
    assert!(!cpu.get_pixel(0, 0));
    let commands = cpu.take_render_commands();
    assert_eq!(commands[0], RenderCommand::SetPixel { x: 0, y: 0, on: false });
}

#[test]
fn draw_wraps_at_the_edges() {
    let mut cpu = cpu_with(vec![0x60, 0x3F, 0x61, 0x1F, 0xA2, 0x0A, 0xD0, 0x12, 0x00, 0x00, 0xC0, 0x80]);
    run(&mut cpu, 4);
    assert!(cpu.get_pixel(63, 31));
    assert!(cpu.get_pixel(0, 31));
    assert!(cpu.get_pixel(63, 0));
    assert!(!cpu.get_pixel(0, 0));
    assert!(!cpu.get_pixel(1, 31));
}

#[test]
fn clear_screen_turns_everything_off() {
    let mut cpu = cpu_with(vec![0xA2, 0x06, 0xD0, 0x01, 0x00, 0xE0, 0xFF]);
    run(&mut cpu, 2);
    assert!(cpu.get_pixel(7, 0));
    run(&mut cpu, 1);
    assert!(!cpu.get_pixel(7, 0));
    let commands = cpu.take_render_commands();
    assert_eq!(commands[commands.len() - 1], RenderCommand::Clear);
    assert_eq!(cpu.get_program_counter(), 0x206);
}

#[test]
fn store_bcd_of_234() {
    let mut cpu = cpu_with(vec![0x63, 0xEA, 0xA3, 0x00, 0xF3, 0x33]);
    run(&mut cpu, 3);
    assert_eq!(cpu.get_memory_value(0x300), 0);
    assert_eq!(cpu.get_memory_value(0x301), 2);
    assert_eq!(cpu.get_memory_value(0x302), 3);
    assert_eq!(cpu.get_memory_value(0x303), 4);
    assert_eq!(cpu.get_memory_value(0x304), 0);
}

#[test]
fn unknown_opcode_changes_nothing() {
    let mut cpu = cpu_with(vec![0x50, 0x01]);
    let r = cpu.step(keys(&["Return"]), 7, 0);
    assert!(matches!(r, Err(Chip8Error::InvalidInstruction)));
    assert_eq!(cpu.get_program_counter(), 0x200);
    assert_eq!(cpu.get_index_register(), 0);
    assert_eq!(cpu.get_register(0), 0);
    assert_eq!(cpu.get_memory_value(0x200), 0x50);
    let r = cpu.step(no_keys(), 0, 0);
    assert!(matches!(r, Err(Chip8Error::InvalidInstruction)));
}

#[test]
fn key_wait_ends_on_confirm_key() {
    let mut cpu = cpu_with(vec![0xF5, 0x0A, 0x60, 0x07]);
    cpu.step(keys(&["A"]), 0, 0).unwrap();
    assert!(cpu.is_awaiting_key());
    assert_eq!(cpu.get_program_counter(), 0x202);
    cpu.step(keys(&["A", "Q"]), 0, 0).unwrap();
    assert!(cpu.is_awaiting_key());
    assert_eq!(cpu.get_register(5), 0);
    assert_eq!(cpu.get_program_counter(), 0x202);
    assert_eq!(cpu.get_register(0), 0);
    cpu.step(keys(&["Return"]), 0, 0).unwrap();
    assert!(!cpu.is_awaiting_key());
    assert_eq!(cpu.get_register(5), 1);
    assert_eq!(cpu.get_program_counter(), 0x202);
    assert_eq!(cpu.get_register(0), 0);
    cpu.step(no_keys(), 0, 0).unwrap();
    assert_eq!(cpu.get_register(0), 7);
}

#[test]
fn skip_if_key_pressed() {
    let mut cpu = cpu_with(vec![0x60, 0x01, 0xE0, 0x9E, 0x00, 0x00, 0xE0, 0x9E]);
    run(&mut cpu, 1);
    cpu.step(keys(&["1"]), 0, 0).unwrap();
    assert_eq!(cpu.get_program_counter(), 0x206);
    cpu.step(keys(&["2"]), 0, 0).unwrap();
    assert_eq!(cpu.get_program_counter(), 0x208);
}

#[test]
fn skip_if_key_not_pressed() {
    let mut cpu = cpu_with(vec![0x60, 0x0F, 0xE0, 0xA1, 0x00, 0x00, 0xE0, 0xA1]);
    run(&mut cpu, 1);
    cpu.step(keys(&["1"]), 0, 0).unwrap();
    assert_eq!(cpu.get_program_counter(), 0x206);
    cpu.step(keys(&["V"]), 0, 0).unwrap();
    assert_eq!(cpu.get_program_counter(), 0x208);
}

#[test]
fn skip_on_unmapped_key_fails() {
    let mut cpu = cpu_with(vec![0x60, 0x20, 0xE0, 0x9E]);
    run(&mut cpu, 1);
    let r = cpu.step(no_keys(), 0, 0);
    assert!(matches!(r, Err(Chip8Error::InvalidKeycode(0x20))));
    assert_eq!(cpu.get_program_counter(), 0x202);
}

#[test]
fn font_address_of_digit() {
    let mut cpu = cpu_with(vec![0x60, 0x0A, 0xF0, 0x29, 0x60, 0x10, 0xF0, 0x29]);
    run(&mut cpu, 2);
    assert_eq!(cpu.get_index_register(), 50);
    run(&mut cpu, 1);
    let r = cpu.step(no_keys(), 0, 0);
    assert!(matches!(r, Err(Chip8Error::InvalidKeycode(0x10))));
}

#[test]
fn sound_timer_is_unimplemented() {
    let mut cpu = cpu_with(vec![0xF0, 0x18]);
    let r = cpu.step(no_keys(), 0, 0);
    assert!(matches!(r, Err(Chip8Error::UnimplementedInstruction)));
    assert_eq!(cpu.get_program_counter(), 0x200);
}

#[test]
fn delay_timer_instructions() {
    let mut cpu = cpu_with(vec![0x60, 0x0A, 0xF0, 0x15, 0xF1, 0x07, 0xF2, 0x07]);
    run(&mut cpu, 2);
    cpu.step(no_keys(), 0, 0).unwrap();
    assert_eq!(cpu.get_register(1), 10);
    cpu.step(no_keys(), 0, 40).unwrap();
    assert_eq!(cpu.get_register(2), 0);
}

#[test]
fn random_is_masked() {
    let mut cpu = cpu_with(vec![0xC0, 0x0F, 0xC1, 0x00]);
    cpu.step(no_keys(), 0xAB, 0).unwrap();
    assert_eq!(cpu.get_register(0), 0x0B);
    cpu.execute_instruction(no_keys()).unwrap();
    assert_eq!(cpu.get_register(1), 0);
}

#[test]
fn add_to_index_and_load_index() {
    let mut cpu = cpu_with(vec![0xAF, 0xF0, 0x60, 0x20, 0xF0, 0x1E]);
    run(&mut cpu, 3);
    assert_eq!(cpu.get_index_register(), 0x1010);
}

#[test]
fn store_and_load_register_block() {
    let mut cpu = cpu_with(vec![
        0x60, 0x11, 0x61, 0x22, 0x62, 0x33, 0xA3, 0x00, 0xF2, 0x55, 0x60, 0x00, 0x61, 0x00, 0x62,
        0x00, 0xA3, 0x00, 0xF1, 0x65,
    ]);
    run(&mut cpu, 5);
    assert_eq!(cpu.get_memory_value(0x300), 0x11);
    assert_eq!(cpu.get_memory_value(0x301), 0x22);
    assert_eq!(cpu.get_memory_value(0x302), 0x33);
    assert_eq!(cpu.get_index_register(), 0x303);
    run(&mut cpu, 5);
    assert_eq!(cpu.get_register(0), 0x11);
    assert_eq!(cpu.get_register(1), 0x22);
    assert_eq!(cpu.get_register(2), 0x00);
    assert_eq!(cpu.get_index_register(), 0x302);
}

#[test]
fn step_in_memory_detects_overrun() {
    let mut cpu = cpu_with(vec![0xAF, 0xFF, 0xD0, 0x02]);
    assert!(cpu.step_in_memory());
    run(&mut cpu, 1);
    assert!(!cpu.step_in_memory());
}

#[test]
fn draw_sprite_directly() {
    let mut cpu = cpu_with(vec![]);
    cpu.draw_sprite(vec![0xFF], 60, 3);
    assert!(cpu.get_pixel(60, 3));
    assert!(cpu.get_pixel(3, 3));
    assert!(!cpu.get_pixel(4, 3));
}

fn replay(surface: &mut Vec<bool>, commands: &[RenderCommand]) {
    for command in commands {
        match command {
            RenderCommand::Clear => {
                for p in surface.iter_mut() {
                    *p = false;
                }
            }
            RenderCommand::SetPixel { x, y, on } => {
                surface[*y as usize * 64 + *x as usize] = *on;
            }
            RenderCommand::Present => {}
        }
    }
}

#[test]
fn surface_mirrors_framebuffer() {
    let mut cpu = cpu_with(vec![
        0x60, 0x3C, 0x61, 0x1E, 0xA2, 0x10, 0xD0, 0x13, 0xD1, 0x03, 0x00, 0xE0, 0xD0, 0x12, 0x00,
        0x00, 0xF0, 0x99, 0x3C,
    ]);
    let mut surface = vec![false; 64 * 32];
    let mut step: usize = 0;
    while step < 7 {
        cpu.step(no_keys(), 0, 0).unwrap();
        replay(&mut surface, &cpu.take_render_commands());
        let mut y: u8 = 0;
        while y < 32 {
            let mut x: u8 = 0;
            while x < 64 {
                assert_eq!(surface[y as usize * 64 + x as usize], cpu.get_pixel(x, y));
                x += 1;
            }
            y += 1;
        }
        step += 1;
    }
}
