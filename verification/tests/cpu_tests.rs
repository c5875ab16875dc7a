use gbemu::cpu::cpu::CPU;
use gbemu::cpu::register::{ByteRegister, WordRegister};
use gbemu::memory::memory::{FlatMemory, Memory};
use gbemu::time::time::ClockAware;
use gbemu::util::bit_util::BitUtil;

fn new_cpu() -> CPU<FlatMemory> {
    CPU::new(FlatMemory::new(0x10000))
}

fn ticks(cpu: &mut CPU<FlatMemory>, number_of_ticks: u32) {
    for _ in 0..number_of_ticks {
        cpu.tick();
    }
}

#[test]
fn reg_to_reg_ld() {
  let mut cpu = new_cpu();
  cpu.memory.write(0x0000, 0x45);
  cpu.registers.write_byte(ByteRegister::LowerHL, 0xAB);
  cpu.tick();
  assert_eq!(cpu.registers.read_byte(ByteRegister::B), 0xAB);
}
#[test]
fn immediate_to_reg_ld() {
  let mut cpu = new_cpu();
  cpu.memory.write(0x0000, 0x06);
  cpu.memory.write(0x0001, 0xAB);
  ticks(&mut cpu, 2);
  assert_eq!(cpu.registers.read_byte(ByteRegister::B), 0xAB);
}
#[test]
fn indirect_to_reg_ld() {
  let mut cpu = new_cpu();
  cpu.memory.write(0x0000, 0x6E);
  cpu.memory.write(0xABCD, 0xEF);
  cpu.registers.write_word(WordRegister::HL, 0xABCD);
  ticks(&mut cpu, 2);
  assert_eq!(cpu.registers.read_byte(ByteRegister::LowerHL), 0xEF);
}
#[test]
fn reg_to_indirect_ld() {
  let mut cpu = new_cpu();
  cpu.registers.write_word(WordRegister::HL, 0xABCD);
  cpu.registers.write_byte(ByteRegister::A, 0xEF);
  cpu.memory.write(0x0000, 0x77);
  ticks(&mut cpu, 2);
  assert_eq!(cpu.memory.read(0xABCD), 0xEF);
}
#[test]
fn immediate_to_indirect_ld() {
  let mut cpu = new_cpu();
  cpu.registers.write_word(WordRegister::HL, 0xABCD);
  cpu.memory.write(0x0000, 0x36);
  cpu.memory.write(0x0001, 0xEF);
  ticks(&mut cpu, 3);
  assert_eq!(cpu.memory.read(0xABCD), 0xEF);
}
#[test]
fn indirect_bc_to_reg_a_ld() {
  let mut cpu = new_cpu();
  cpu.registers.write_word(WordRegister::BC, 0xABCD);
  cpu.memory.write(0x0000, 0x0A);
  cpu.memory.write(0xABCD, 0x5A);
  ticks(&mut cpu, 2);
  assert_eq!(cpu.registers.read_byte(ByteRegister::A), 0x5A);
}
#[test]
fn indirect_de_to_reg_a_ld() {
  let mut cpu = new_cpu();
  cpu.registers.write_word(WordRegister::DE, 0xABCD);
  cpu.memory.write(0x0000, 0x1A);
  cpu.memory.write(0xABCD, 0x5A);
  ticks(&mut cpu, 2);
  assert_eq!(cpu.registers.read_byte(ByteRegister::A), 0x5A);
}
#[test]
fn indirect_c_with_offset_to_reg_a_ld() {
  let mut cpu = new_cpu();
  cpu.registers.write_byte(ByteRegister::C, 0xCD);
  cpu.memory.write(0x0000, 0xF2);
  cpu.memory.write(0xFFCD, 0x5A);
  ticks(&mut cpu, 2);
  assert_eq!(cpu.registers.read_byte(ByteRegister::A), 0x5A);
}
#[test]
fn reg_a_to_indirect_c_with_offset_ld() {
  let mut cpu = new_cpu();
  cpu.registers.write_byte(ByteRegister::A, 0x5A);
  cpu.registers.write_byte(ByteRegister::C, 0xCD);
  cpu.memory.write(0x0000, 0xE2);
  ticks(&mut cpu, 2);
  assert_eq!(cpu.memory.read(0xFFCD), 0x5A);
}
#[test]
fn immediate_indirect_with_offset_to_reg_a_ld() {
  let mut cpu = new_cpu();
  cpu.memory.write(0x0000, 0xF0);
  cpu.memory.write(0x0001, 0xCD);
  cpu.memory.write(0xFFCD, 0x5A);
  ticks(&mut cpu, 3);
  assert_eq!(cpu.registers.read_byte(ByteRegister::A), 0x5A);
}
#[test]
fn reg_a_to_immediate_indirect_with_offset_ld() {
  let mut cpu = new_cpu();
  cpu.registers.write_byte(ByteRegister::A, 0x5A);
  cpu.memory.write(0x0000, 0xE0);
  cpu.memory.write(0x0001, 0xCD);
  ticks(&mut cpu, 3);
  assert_eq!(cpu.memory.read(0xFFCD), 0x5A);
}
#[test]
fn immediate_indirect_to_reg_a_ld() {
  let mut cpu = new_cpu();
  cpu.memory.write(0x0000, 0xFA);
  cpu.memory.write(0x0001, 0xCD);
  cpu.memory.write(0x0002, 0xAB);
  cpu.memory.write(0xABCD, 0x5A);
  ticks(&mut cpu, 4);
  assert_eq!(cpu.registers.read_byte(ByteRegister::A), 0x5A);
}
#[test]
fn reg_a_to_immediate_indirect_ld() {
  let mut cpu = new_cpu();
  cpu.registers.write_byte(ByteRegister::A, 0x5A);
  cpu.memory.write(0x0000, 0xEA);
  cpu.memory.write(0x0001, 0xCD);
  cpu.memory.write(0x0002, 0xAB);
  ticks(&mut cpu, 4);
  assert_eq!(cpu.memory.read(0xABCD), 0x5A);
}
#[test]
fn indirect_hl_to_reg_a_ld_and_increment() {
  let mut cpu = new_cpu();
  cpu.registers.write_word(WordRegister::HL, 0xABCD);
  cpu.memory.write(0x0000, 0x2A);
  cpu.memory.write(0xABCD, 0x5A);
  ticks(&mut cpu, 2);
  assert_eq!(cpu.memory.read(0xABCD), 0x5A);
  assert_eq!(cpu.registers.read_word(WordRegister::HL), 0xABCE);
}
#[test]
fn indirect_hl_to_reg_a_ld_and_decrement() {
  let mut cpu = new_cpu();
  cpu.registers.write_word(WordRegister::HL, 0xABCD);
  cpu.memory.write(0x0000, 0x3A);
  cpu.memory.write(0xABCD, 0x5A);
  ticks(&mut cpu, 2);
  assert_eq!(cpu.memory.read(0xABCD), 0x5A);
  assert_eq!(cpu.registers.read_word(WordRegister::HL), 0xABCC);
}
#[test]
fn reg_a_to_indirect_bc_ld() {
  let mut cpu = new_cpu();
  cpu.registers.write_byte(ByteRegister::A, 0x5A);
  cpu.registers.write_word(WordRegister::BC, 0xABCD);
  cpu.memory.write(0x0000, 0x02);
  ticks(&mut cpu, 2);
  assert_eq!(cpu.memory.read(0xABCD), 0x5A);
}
#[test]
fn reg_a_to_indirect_de_ld() {
  let mut cpu = new_cpu();
  cpu.registers.write_byte(ByteRegister::A, 0x5A);
  cpu.registers.write_word(WordRegister::DE, 0xABCD);
  cpu.memory.write(0x0000, 0x12);
  ticks(&mut cpu, 2);
  assert_eq!(cpu.memory.read(0xABCD), 0x5A);
}
#[test]
fn reg_a_to_indirect_hl_ld_and_increment() {
  let mut cpu = new_cpu();
  cpu.registers.write_byte(ByteRegister::A, 0x5A);
  cpu.registers.write_word(WordRegister::HL, 0xABCD);
  cpu.memory.write(0x0000, 0x22);
  ticks(&mut cpu, 2);
  assert_eq!(cpu.memory.read(0xABCD), 0x5A);
  assert_eq!(cpu.registers.read_word(WordRegister::HL), 0xABCE);
}
#[test]
fn reg_a_to_indirect_hl_ld_and_decrement() {
  let mut cpu = new_cpu();
  cpu.registers.write_byte(ByteRegister::A, 0x5A);
  cpu.registers.write_word(WordRegister::HL, 0xABCD);
  cpu.memory.write(0x0000, 0x32);
  ticks(&mut cpu, 2);
  assert_eq!(cpu.memory.read(0xABCD), 0x5A);
  assert_eq!(cpu.registers.read_word(WordRegister::HL), 0xABCC);
}
#[test]
fn immediate_to_reg_pair_ld() {
  let mut cpu = new_cpu();
  cpu.registers.write_byte(ByteRegister::A, 0x5A);
  cpu.memory.write(0x0000, 0x21);
  cpu.memory.write(0x0001, 0x5A);
  cpu.memory.write(0x0002, 0x7B);
  ticks(&mut cpu, 3);
  assert_eq!(cpu.registers.read_word(WordRegister::HL), 0x7B5A);
}
#[test]
fn reg_hl_to_reg_sp_ld() {
  let mut cpu = new_cpu();
  cpu.registers.write_word(WordRegister::HL, 0xABCD);
  cpu.memory.write(0x0000, 0xF9);
  ticks(&mut cpu, 2);
  assert_eq!(cpu.registers.read_word(WordRegister::SP), 0xABCD);
}
#[test]
fn push_reg_pair_to_stack() {
  let mut cpu = new_cpu();
  cpu.registers.write_word(WordRegister::SP, 0xFFFE);
  cpu.registers.write_word(WordRegister::DE, 0xABCD);
  cpu.memory.write(0x0000, 0xD5);
  ticks(&mut cpu, 4);
  assert_eq!(cpu.memory.read(0xFFFD), 0xAB);
  assert_eq!(cpu.memory.read(0xFFFC), 0xCD);
  assert_eq!(cpu.registers.read_word(WordRegister::SP), 0xFFFC);
}
#[test]
fn pop_stack_to_reg_pair() {
  let mut cpu = new_cpu();
  cpu.registers.write_word(WordRegister::SP, 0xFFFC);
  cpu.memory.write(0x0000, 0xD1);
  cpu.memory.write(0xFFFC, 0xCD);
  cpu.memory.write(0xFFFD, 0xAB);
  ticks(&mut cpu, 3);
  assert_eq!(cpu.registers.read_word(WordRegister::DE), 0xABCD);
  assert_eq!(cpu.registers.read_word(WordRegister::SP), 0xFFFE);
}
#[test]
fn reg_sp_plus_signed_immediate_to_hl_ld_writes_correct_result() {
  let mut cpu = new_cpu();
  // Check if carry flag is set correctly
  cpu.registers.write_word(WordRegister::SP, 0x0005);
  cpu.memory.write(0x0000, 0xF8);
  cpu.memory.write(0x0001, 0xFD);
  ticks(&mut cpu, 3);
  assert_eq!(cpu.registers.read_word(WordRegister::HL), 0x0002);
}
#[test]
fn reg_sp_to_immediate_indirect_ld() {
  let mut cpu = new_cpu();
  cpu.registers.write_word(WordRegister::SP, 0x7B5A);
  cpu.memory.write(0x0000, 0x08);
  cpu.memory.write(0x0001, 0xCD);
  cpu.memory.write(0x0002, 0xAB);
  ticks(&mut cpu, 5);
  assert_eq!(cpu.memory.read(0xABCD), 0x5A);
  assert_eq!(cpu.memory.read(0xABCE), 0x7B);
}
#[test]
fn rotate_reg_a_left() {
  let mut cpu = new_cpu();
  cpu.registers.write_byte(ByteRegister::A, 0xCA);
  cpu.memory.write(0x0000, 0x07);
  cpu.tick();
  assert_eq!(cpu.registers.read_byte(ByteRegister::A), 0x95);
  assert_eq!(cpu.registers.read_byte(ByteRegister::F), 0x10);
}
#[test]
fn rotate_reg_a_right() {
  let mut cpu = new_cpu();
  cpu.registers.write_byte(ByteRegister::A, 0x53);
  cpu.memory.write(0x0000, 0x0F);
  cpu.tick();
  assert_eq!(cpu.registers.read_byte(ByteRegister::A), 0xA9);
  assert_eq!(cpu.registers.read_byte(ByteRegister::F), 0x10);
}
#[test]
fn rotate_reg_a_left_through_carry() {
  let mut cpu = new_cpu();
  cpu.registers.write_byte(ByteRegister::A, 0x4A);
  cpu.registers.write_byte(ByteRegister::F, 0x10);
  cpu.memory.write(0x0000, 0x17);
  cpu.tick();
  assert_eq!(cpu.registers.read_byte(ByteRegister::A), 0x95);
  assert_eq!(cpu.registers.read_byte(ByteRegister::F), 0x00);
}
#[test]
fn rotate_reg_a_right_through_carry() {
  let mut cpu = new_cpu();
  cpu.registers.write_byte(ByteRegister::A, 0x52);
  cpu.registers.write_byte(ByteRegister::F, 0x10);
  cpu.memory.write(0x0000, 0x1F);
  cpu.tick();
  assert_eq!(cpu.registers.read_byte(ByteRegister::A), 0xA9);
  assert_eq!(cpu.registers.read_byte(ByteRegister::F), 0x00);
}
#[test]
fn get_reg_bit() {
  let mut cpu = new_cpu();
  cpu.registers.write_byte(ByteRegister::D, 0xA5);
  let bits: Vec<(bool, u8)> = (0u8..8u8).map(|bit| {
    cpu.memory.write((2 * bit) as u16, 0xCB);
    cpu.memory.write((2 * bit + 1) as u16, 0x42 | (bit << 3));
    ticks(&mut cpu, 2);
    (!cpu.registers.read_byte(ByteRegister::F).get_bit(7), bit)
  }).collect();
  let result = u8::compose(&bits);
  assert_eq!(result, 0xA5);
  assert_eq!(cpu.registers.read_byte(ByteRegister::F), 0x20);
}
#[test]
fn get_indirect_hl_bit() {
  let mut cpu = new_cpu();
  cpu.registers.write_word(WordRegister::HL, 0xABCD);
  cpu.memory.write(0xABCD, 0xA5);
  let bits: Vec<(bool, u8)> = (0u8..8u8).map(|bit| {
    cpu.memory.write((2 * bit) as u16, 0xCB);
    cpu.memory.write((2 * bit + 1) as u16, 0x46 | (bit << 3));
    ticks(&mut cpu, 3);
    (!cpu.registers.read_byte(ByteRegister::F).get_bit(7), bit)
  }).collect();
  let result = u8::compose(&bits);
  assert_eq!(result, 0xA5);
  assert_eq!(cpu.registers.read_byte(ByteRegister::F), 0x20);
}
#[test]
fn set_reg_bit() {
  let mut cpu = new_cpu();
  cpu.registers.write_byte(ByteRegister::F, 0xB0);
  [0, 2, 5, 7].iter().enumerate().for_each(|(index, bit)| {
    cpu.memory.write((2 * index) as u16, 0xCB);
    cpu.memory.write((2 * index + 1) as u16, 0xC2 | (bit << 3));
    ticks(&mut cpu, 2);
  });
  assert_eq!(cpu.registers.read_byte(ByteRegister::D), 0xA5);
  assert_eq!(cpu.registers.read_byte(ByteRegister::F), 0xB0);
}
#[test]
fn set_indirect_hl_bit() {
  let mut cpu = new_cpu();
  cpu.registers.write_word(WordRegister::HL, 0xABCD);
  cpu.registers.write_byte(ByteRegister::F, 0xB0);
  [0, 2, 5, 7].iter().enumerate().for_each(|(index, bit)| {
    cpu.memory.write((2 * index) as u16, 0xCB);
    cpu.memory.write((2 * index + 1) as u16, 0xC6 | (bit << 3));
    ticks(&mut cpu, 4);
  });
  assert_eq!(cpu.memory.read(0xABCD), 0xA5);
  assert_eq!(cpu.registers.read_byte(ByteRegister::F), 0xB0);
}
#[test]
fn reset_reg_bit() {
  let mut cpu = new_cpu();
  cpu.registers.write_byte(ByteRegister::D, 0xFF);
  cpu.registers.write_byte(ByteRegister::F, 0xB0);
  [1, 3, 4, 6].iter().enumerate().for_each(|(index, bit)| {
    cpu.memory.write((2 * index) as u16, 0xCB);
    cpu.memory.write((2 * index + 1) as u16, 0x82 | (bit << 3));
    ticks(&mut cpu, 2);
  });
  assert_eq!(cpu.registers.read_byte(ByteRegister::D), 0xA5);
  assert_eq!(cpu.registers.read_byte(ByteRegister::F), 0xB0);
}
#[test]
fn reset_indirect_hl_bit() {
  let mut cpu = new_cpu();
  cpu.registers.write_word(WordRegister::HL, 0xABCD);
  cpu.memory.write(0xABCD, 0xFF);
  cpu.registers.write_byte(ByteRegister::F, 0xB0);
  [1, 3, 4, 6].iter().enumerate().for_each(|(index, bit)| {
    cpu.memory.write((2 * index) as u16, 0xCB);
    cpu.memory.write((2 * index + 1) as u16, 0x86 | (bit << 3));
    ticks(&mut cpu, 4);
  });
  assert_eq!(cpu.memory.read(0xABCD), 0xA5);
  assert_eq!(cpu.registers.read_byte(ByteRegister::F), 0xB0);
}
#[test]
fn jump() {
  let mut cpu = new_cpu();
  cpu.memory.write(0x0000, 0xC3);
  cpu.memory.write(0x0001, 0xCD);
  cpu.memory.write(0x0002, 0xAB);
  ticks(&mut cpu, 4);

  assert_eq!(cpu.registers.read_word(WordRegister::PC), 0xABCD);
}
#[test]
fn jump_relative() {
  let mut cpu = new_cpu();
  cpu.memory.write(0x0000, 0x18);
  cpu.memory.write(0x0001, 0x08);
  cpu.memory.write(0x000A, 0x18);
  cpu.memory.write(0x000B, 0xFC);
  ticks(&mut cpu, 6);

  assert_eq!(cpu.registers.read_word(WordRegister::PC), 0x0008);
}
#[test]
fn jump_indirect_hl() {
  let mut cpu = new_cpu();
  cpu.registers.write_word(WordRegister::HL, 0xABCD);
  cpu.memory.write(0x0000, 0xE9);
  cpu.tick();

  assert_eq!(cpu.registers.read_word(WordRegister::PC), 0xABCD);
}
#[test]
fn call() {
  let mut cpu = new_cpu();
  cpu.registers.write_word(WordRegister::SP, 0xFFFE);
  cpu.registers.write_word(WordRegister::PC, 0x1234);
  cpu.memory.write(0x1234, 0xCD);
  cpu.memory.write(0x1235, 0xCD);
  cpu.memory.write(0x1236, 0xAB);
  ticks(&mut cpu, 6);

  assert_eq!(cpu.registers.read_word(WordRegister::SP), 0xFFFC);
  assert_eq!(cpu.memory.read(0xFFFD), 0x12);
  assert_eq!(cpu.memory.read(0xFFFC), 0x37);
  assert_eq!(cpu.registers.read_word(WordRegister::PC), 0xABCD);
}
#[test]
fn return_from_call() {
  let mut cpu = new_cpu();
  cpu.registers.write_word(WordRegister::SP, 0xFFFE);
  cpu.registers.write_word(WordRegister::PC, 0x1234);
  cpu.memory.write(0x1234, 0xCD);
  cpu.memory.write(0x1235, 0xCD);
  cpu.memory.write(0x1236, 0xAB);
  cpu.memory.write(0xABCD, 0xC9);
  ticks(&mut cpu, 6);
  assert_eq!(cpu.registers.read_word(WordRegister::PC), 0xABCD);

  ticks(&mut cpu, 4);
  assert_eq!(cpu.registers.read_word(WordRegister::PC), 0x1237);
  assert_eq!(cpu.registers.read_word(WordRegister::SP), 0xFFFE);
}
#[test]
fn return_from_interrupt() {
  let mut cpu = new_cpu();
  cpu.registers.write_word(WordRegister::SP, 0xFFFE);
  cpu.registers.write_word(WordRegister::PC, 0x1234);
  cpu.memory.write(0x1234, 0xCD);
  cpu.memory.write(0x1235, 0xCD);
  cpu.memory.write(0x1236, 0xAB);
  cpu.memory.write(0xABCD, 0xF3);
  cpu.memory.write(0xABCE, 0xD9);
  ticks(&mut cpu, 6);
  assert_eq!(cpu.registers.read_word(WordRegister::PC), 0xABCD);

  cpu.tick();
  assert_eq!(cpu.ime, false);

  ticks(&mut cpu, 4);
  assert_eq!(cpu.ime, true);
  assert_eq!(cpu.registers.read_word(WordRegister::PC), 0x1237);
  assert_eq!(cpu.registers.read_word(WordRegister::SP), 0xFFFE);
}
#[test]
fn decimal_adjust_reg_a() {
  let mut cpu = new_cpu();
  let mut instruction_index = 0u16;
  (0u8..99u8).for_each(|x| {
    (0u8..99u8).for_each(|y| {
      let sum = x + y;
      let difference = 100 + x - y;
      let a = (x % 10) | ((x / 10) << 4);
      let d = (y % 10) | ((y / 10) << 4);
      let f = u8::compose(&[(sum % 100 == 0, 7), (sum >= 100, 4)]);
      if a == 0x1 && d == 0x9 {
        println!("Invalid result. A: {:#x}, D: {:#x}, F: {:#x}", a, d, f);
      }

      cpu.registers.write_byte(ByteRegister::A, a);
      cpu.registers.write_byte(ByteRegister::D, d);
      cpu.memory.write(instruction_index, 0x82);
      instruction_index += 1;
      cpu.tick();
      cpu.memory.write(instruction_index, 0x27);
      instruction_index += 1;
      cpu.tick();
      let result_bcd_sum = cpu.registers.read_byte(ByteRegister::A);
      let result_decimal_sum = ((result_bcd_sum & 0xF0) >> 4) * 10 + (result_bcd_sum & 0x0F);
      assert_eq!(result_decimal_sum, sum % 100);
      assert_eq!(cpu.registers.read_byte(ByteRegister::F) & 0xB0, f);

      cpu.registers.write_byte(ByteRegister::A, a);
      cpu.registers.write_byte(ByteRegister::D, d);
      cpu.memory.write(instruction_index, 0x92);
      instruction_index += 1;
      cpu.tick();
      cpu.memory.write(instruction_index, 0x27);
      instruction_index += 1;
      cpu.tick();
      let result_bcd_diff = cpu.registers.read_byte(ByteRegister::A);
      let result_decimal_diff = ((result_bcd_diff & 0xF0) >> 4) * 10 + (result_bcd_diff & 0x0F);
      let f = u8::compose(&[(difference % 100 == 0, 7), (difference < 100, 4)]);
      assert_eq!(cpu.registers.read_byte(ByteRegister::F) & 0xB0, f);
      assert_eq!(result_decimal_diff, difference % 100);
    })
  })
}
#[test]
fn ones_complement_reg_a() {
  let mut cpu = new_cpu();
  cpu.registers.write_byte(ByteRegister::A, 0xA6);
  cpu.registers.write_byte(ByteRegister::F, 0x90);
  cpu.memory.write(0x0000, 0x2F);
  cpu.tick();

  assert_eq!(cpu.registers.read_byte(ByteRegister::A), 0x59);
  assert_eq!(cpu.registers.read_byte(ByteRegister::F), 0xF0);
}
#[test]
fn flip_carry() {
  let mut cpu = new_cpu();
  cpu.registers.write_byte(ByteRegister::F, 0x80);
  cpu.memory.write(0x0000, 0x3F);
  cpu.memory.write(0x0001, 0x3F);
  cpu.tick();
  assert_eq!(cpu.registers.read_byte(ByteRegister::F), 0x90);
  cpu.tick();
  assert_eq!(cpu.registers.read_byte(ByteRegister::F), 0x80);
}
#[test]
fn set_carry() {
  let mut cpu = new_cpu();
  cpu.registers.write_byte(ByteRegister::F, 0x80);
  cpu.memory.write(0x0000, 0x37);
  cpu.tick();
  assert_eq!(cpu.registers.read_byte(ByteRegister::F), 0x90);
}
#[test]
fn disable_enable_interrupts() {
  let mut cpu = new_cpu();
  cpu.ime = true;
  cpu.memory.write(0x0000, 0xF3);
  cpu.memory.write(0x0001, 0xFB);
  cpu.tick();
  assert_eq!(cpu.ime, false);
  cpu.tick();
  assert_eq!(cpu.ime, true);
}
#[test]
fn push_then_pop_copies_pair_and_restores_stack_pointer() {
  let mut cpu = new_cpu();
  cpu.registers.write_word(WordRegister::SP, 0xFFFE);
  cpu.registers.write_word(WordRegister::BC, 0x1234);
  cpu.memory.write(0x0000, 0xC5);
  cpu.memory.write(0x0001, 0xE1);
  ticks(&mut cpu, 7);
  assert_eq!(cpu.registers.read_word(WordRegister::HL), 0x1234);
  assert_eq!(cpu.registers.read_word(WordRegister::SP), 0xFFFE);
  assert_eq!(cpu.registers.read_word(WordRegister::PC), 0x0002);
}
#[test]
fn call_then_return_resumes_after_call() {
  let mut cpu = new_cpu();
  cpu.registers.write_word(WordRegister::SP, 0xFFFE);
  cpu.memory.write(0x0000, 0xCD);
  cpu.memory.write(0x0001, 0x34);
  cpu.memory.write(0x0002, 0x12);
  cpu.memory.write(0x1234, 0xC9);
  ticks(&mut cpu, 6);
  assert_eq!(cpu.registers.read_word(WordRegister::PC), 0x1234);
  assert_eq!(cpu.registers.read_word(WordRegister::SP), 0xFFFC);
  ticks(&mut cpu, 4);
  assert_eq!(cpu.registers.read_word(WordRegister::PC), 0x0003);
  assert_eq!(cpu.registers.read_word(WordRegister::SP), 0xFFFE);
}
#[test]
fn add_or_subtract_then_decimal_adjust_gives_bcd() {
  let mut cpu = new_cpu();
  cpu.registers.write_byte(ByteRegister::A, 0x75);
  cpu.registers.write_byte(ByteRegister::D, 0x48);
  cpu.memory.write(0x0000, 0x82);
  cpu.memory.write(0x0001, 0x27);
  ticks(&mut cpu, 2);
  assert_eq!(cpu.registers.read_byte(ByteRegister::A), 0x23);
  assert_eq!(cpu.registers.read_byte(ByteRegister::F) & 0xF0, 0x10);

  let mut cpu = new_cpu();
  cpu.registers.write_byte(ByteRegister::A, 0x20);
  cpu.registers.write_byte(ByteRegister::D, 0x35);
  cpu.memory.write(0x0000, 0x92);
  cpu.memory.write(0x0001, 0x27);
  ticks(&mut cpu, 2);
  assert_eq!(cpu.registers.read_byte(ByteRegister::A), 0x85);
  assert_eq!(cpu.registers.read_byte(ByteRegister::F) & 0xF0, 0x50);
}
