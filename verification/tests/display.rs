use chip8::cpu::Cpu;
use chip8::keyboard::Keyboard;
use chip8::machine::{Fault, FaultKind};
use chip8::renderer::{PixelRect, Renderer, COLUMNS, MAX_SCALE, ROWS};

fn machine() -> Cpu {
    Cpu::new(Renderer::new(12, Keyboard::new()))
}

fn lit(cpu: &Cpu) -> Vec<(usize, usize)> {
    let mut places = Vec::new();
    for (place, pixel) in cpu.renderer.display.iter().enumerate() {
        if *pixel {
            places.push((place % COLUMNS, place / COLUMNS));
        }
    }
    places
}

#[test]
fn a_new_display_is_dark() {
    let renderer = Renderer::new(3, Keyboard::new());
    assert_eq!(renderer.display.len(), ROWS * COLUMNS);
    assert_eq!(renderer.display.len(), 2048);
    assert!(renderer.display.iter().all(|pixel| !*pixel));
    assert_eq!(renderer.scale, 3);
    assert!(renderer.render().is_empty());
}

#[test]
fn set_pixel_flips_and_reports_the_new_state() {
    let mut renderer = Renderer::new(1, Keyboard::new());
    assert!(renderer.set_pixel(5, 2));
    assert!(renderer.display[2 * 64 + 5]);
    assert_eq!(renderer.display.iter().filter(|pixel| **pixel).count(), 1);
    assert!(!renderer.set_pixel(5, 2));
    assert!(renderer.display.iter().all(|pixel| !*pixel));
}

#[test]
fn set_pixel_wraps_on_both_axes() {
    let mut renderer = Renderer::new(1, Keyboard::new());
    assert!(renderer.set_pixel(64, 32));
    assert!(renderer.display[0]);
    assert!(renderer.set_pixel(65, 0));
    assert!(renderer.display[1]);
    assert!(renderer.set_pixel(130, 70));
    assert!(renderer.display[6 * 64 + 2]);
    assert!(renderer.set_pixel(-1, -1));
    assert!(renderer.display[31 * 64 + 63]);
    assert!(renderer.set_pixel(-64, -32 - 3));
    assert!(renderer.display[29 * 64]);
    assert!(!renderer.set_pixel(63, 31 + 32));
    assert!(!renderer.display[31 * 64 + 63]);
}

#[test]
fn clear_makes_the_display_dark() {
    let mut renderer = Renderer::new(2, Keyboard::new());
    renderer.set_pixel(1, 1);
    renderer.set_pixel(63, 31);
    renderer.keyboard.on_key_down('q' as i32);
    renderer.clear();
    assert_eq!(renderer.display.len(), 2048);
    assert!(renderer.display.iter().all(|pixel| !*pixel));
    assert_eq!(renderer.scale, 2);
    assert_eq!(renderer.keyboard.keys_pressed, vec![4]);
}

#[test]
fn render_gives_one_square_for_each_lit_pixel() {
    let mut renderer = Renderer::new(12, Keyboard::new());
    renderer.set_pixel(63, 31);
    renderer.set_pixel(3, 2);
    renderer.set_pixel(0, 0);
    assert_eq!(
        renderer.render(),
        vec![
            PixelRect { x: 0, y: 0, width: 12, height: 12 },
            PixelRect { x: 36, y: 24, width: 12, height: 12 },
            PixelRect { x: 756, y: 372, width: 12, height: 12 },
        ]
    );
}

#[test]
fn render_at_the_largest_scale() {
    let mut renderer = Renderer::new(MAX_SCALE, Keyboard::new());
    renderer.set_pixel(63, 31);
    assert_eq!(
        renderer.render(),
        vec![PixelRect { x: 2113929153, y: 1040187361, width: 33554431, height: 33554431 }]
    );
}

#[test]
fn clear_instruction_makes_the_display_dark() {
    let mut cpu = machine();
    cpu.renderer.set_pixel(7, 7);
    assert_eq!(cpu.execute_instruction(0x00E0), Ok(()));
    assert!(lit(&cpu).is_empty());
    assert_eq!(cpu.pc, 0x202);
}

#[test]
fn draw_puts_the_highest_bit_leftmost() {
    let mut cpu = machine();
    cpu.i = 0x300;
    cpu.memory[0x300] = 0b1010_0001;
    cpu.memory[0x301] = 0b0100_0000;
    cpu.v[1] = 10;
    cpu.v[2] = 5;
    assert_eq!(cpu.execute_instruction(0xD122), Ok(()));
    assert_eq!(lit(&cpu), vec![(10, 5), (12, 5), (17, 5), (11, 6)]);
    assert_eq!(cpu.v[0xF], 0);
    assert_eq!(cpu.pc, 0x202);
    assert_eq!(cpu.i, 0x300);
}

#[test]
fn draw_a_glyph_of_the_font() {
    let mut cpu = machine();
    cpu.load_sprites();
    cpu.v[0] = 1;
    assert_eq!(cpu.execute_instruction(0xF029), Ok(()));
    cpu.v[1] = 0;
    cpu.v[2] = 0;
    assert_eq!(cpu.execute_instruction(0xD125), Ok(()));
    assert_eq!(lit(&cpu), vec![(2, 0), (1, 1), (2, 1), (2, 2), (2, 3), (1, 4), (2, 4), (3, 4)]);
}

#[test]
fn drawing_twice_restores_the_display() {
    let mut cpu = machine();
    cpu.load_sprites();
    cpu.renderer.set_pixel(20, 11);
    cpu.renderer.set_pixel(40, 3);
    let before = cpu.renderer.display.clone();
    cpu.i = 10;
    cpu.v[1] = 18;
    cpu.v[2] = 9;
    assert_eq!(cpu.execute_instruction(0xD125), Ok(()));
    assert_ne!(cpu.renderer.display, before);
    assert_eq!(cpu.execute_instruction(0xD125), Ok(()));
    assert_eq!(cpu.renderer.display, before);
    assert_eq!(cpu.v[0xF], 1);
}

#[test]
fn drawing_over_a_lit_pixel_sets_the_flag() {
    let mut cpu = machine();
    cpu.i = 0x300;
    cpu.memory[0x300] = 0xFF;
    cpu.memory[0x301] = 0x01;
    cpu.renderer.set_pixel(7, 1);
    assert_eq!(cpu.execute_instruction(0xD012), Ok(()));
    assert_eq!(cpu.v[0xF], 1);
    assert_eq!(lit(&cpu).len(), 8);
    assert!(!cpu.renderer.display[64 + 7]);
}

#[test]
fn a_collision_in_an_early_row_is_kept() {
    let mut cpu = machine();
    cpu.i = 0x300;
    cpu.memory[0x300] = 0x80;
    cpu.memory[0x301] = 0x80;
    cpu.memory[0x302] = 0x80;
    cpu.renderer.set_pixel(0, 0);
    assert_eq!(cpu.execute_instruction(0xD013), Ok(()));
    assert_eq!(cpu.v[0xF], 1);
    assert_eq!(lit(&cpu), vec![(0, 1), (0, 2)]);
}

#[test]
fn drawing_beside_a_lit_pixel_clears_the_flag() {
    let mut cpu = machine();
    cpu.i = 0x300;
    cpu.memory[0x300] = 0b1011_1111;
    cpu.renderer.set_pixel(1, 0);
    cpu.v[0xF] = 1;
    assert_eq!(cpu.execute_instruction(0xD011), Ok(()));
    assert_eq!(cpu.v[0xF], 0);
    assert_eq!(lit(&cpu).len(), 8);
}

#[test]
fn draw_wraps_around_the_edges() {
    let mut cpu = machine();
    cpu.i = 0x300;
    cpu.memory[0x300] = 0xC3;
    cpu.memory[0x301] = 0x81;
    cpu.v[1] = 60;
    cpu.v[2] = 31;
    assert_eq!(cpu.execute_instruction(0xD122), Ok(()));
    assert_eq!(lit(&cpu), vec![(3, 0), (60, 0), (2, 31), (3, 31), (60, 31), (61, 31)]);
}

#[test]
fn draw_wraps_coordinates_beyond_the_display() {
    let mut cpu = machine();
    cpu.i = 0x300;
    cpu.memory[0x300] = 0x80;
    cpu.v[1] = 200;
    cpu.v[2] = 100;
    assert_eq!(cpu.execute_instruction(0xD121), Ok(()));
    assert_eq!(lit(&cpu), vec![(8, 4)]);
}

#[test]
fn draw_without_rows_changes_only_the_flag() {
    let mut cpu = machine();
    cpu.renderer.set_pixel(0, 0);
    cpu.v[0xF] = 1;
    cpu.i = 0xFFF;
    assert_eq!(cpu.execute_instruction(0xD000), Ok(()));
    assert_eq!(lit(&cpu), vec![(0, 0)]);
    assert_eq!(cpu.v[0xF], 0);
    assert_eq!(cpu.pc, 0x202);
}

#[test]
fn draw_reads_its_position_before_it_writes_the_flag() {
    let mut cpu = machine();
    cpu.i = 0x300;
    cpu.memory[0x300] = 0x80;
    cpu.v[0xF] = 9;
    cpu.v[2] = 4;
    assert_eq!(cpu.execute_instruction(0xDF21), Ok(()));
    assert_eq!(lit(&cpu), vec![(9, 4)]);
    assert_eq!(cpu.v[0xF], 0);
}

#[test]
fn a_sprite_behind_memory_is_refused() {
    let mut cpu = machine();
    cpu.i = 0xFFE;
    cpu.memory[0xFFE] = 0xFF;
    assert_eq!(
        cpu.execute_instruction(0xD003),
        Err(Fault { kind: FaultKind::OutOfBounds, opcode: 0xD003, pc: 0x200 })
    );
    assert!(lit(&cpu).is_empty());
    assert_eq!(cpu.execute_instruction(0xD002), Ok(()));
    assert_eq!(lit(&cpu).len(), 8);
}
