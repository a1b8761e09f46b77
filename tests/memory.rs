use redox_damage::boot::boot_sequence;
use redox_damage::cpu::CPU;
use redox_damage::display::{get_color, map_palette, update_ly_register, ColorPalette, Display};
use redox_damage::instructions::utils::{
    get_e8, get_next_bytes_little_endian, read_byte_from_memory, write_byte_to_memory,
};
use redox_damage::memory::Memory;
use redox_damage::rom::ROM;

#[test]
fn echo_region_round_trip() {
    let mut memory = Memory::default();
    write_byte_to_memory(&mut memory, 0xE010, 0x5C);
    assert_eq!(read_byte_from_memory(&memory, 0xC010), 0x5C);
    assert_eq!(memory.addresses[0xC010], 0x5C);
    assert_eq!(memory.addresses[0xE010], 0x00);
    write_byte_to_memory(&mut memory, 0xC010, 0xA7);
    assert_eq!(read_byte_from_memory(&memory, 0xE010), 0xA7);
}

#[test]
fn echo_region_bounds() {
    let mut memory = Memory::default();
    write_byte_to_memory(&mut memory, 0xE000, 1);
    assert_eq!(memory.addresses[0xC000], 1);
    write_byte_to_memory(&mut memory, 0xFDFE, 2);
    assert_eq!(memory.addresses[0xDDFE], 2);
    write_byte_to_memory(&mut memory, 0xFDFF, 3);
    assert_eq!(memory.addresses[0xFDFF], 3);
    assert_eq!(memory.addresses[0xDDFF], 0);
    write_byte_to_memory(&mut memory, 0xDFFF, 4);
    assert_eq!(read_byte_from_memory(&memory, 0xDFFF), 4);
}

#[test]
fn memory_spans_full_address_space() {
    let mut memory = Memory::default();
    assert_eq!(memory.addresses.len(), 0x10000);
    write_byte_to_memory(&mut memory, 0xFFFF, 9);
    assert_eq!(read_byte_from_memory(&memory, 0xFFFF), 9);
}

#[test]
fn operand_bytes_after_opcode() {
    let mut cpu = CPU::default();
    let mut memory = Memory::default();
    cpu.pc = 0xFFFE;
    memory.addresses[0xFFFF] = 0x34;
    memory.addresses[0x0000] = 0x12;
    assert_eq!(get_next_bytes_little_endian(&cpu, &memory), 0x1234);
    assert_eq!(get_e8(&cpu, &memory), 0x34);
    memory.addresses[0xFFFF] = 0xF6;
    assert_eq!(get_e8(&cpu, &memory), -10);
}

#[test]
fn cartridge_banks_copy_to_same_addresses() {
    let mut rom = vec![0u8; 0x8000];
    rom[0x0000] = 0x11;
    rom[0x3FFF] = 0x22;
    rom[0x4000] = 0x33;
    rom[0x7FFF] = 0x44;
    let cartridge = ROM { data: Some(rom) };
    let mut memory = Memory::default();
    if let Some(ref data) = cartridge.data {
        memory.load_rom_data_into_bank_00(data);
        assert_eq!(memory.addresses[0x4000], 0);
        memory.load_rom_data_into_bank_01(data);
    }
    assert_eq!(memory.addresses[0x0000], 0x11);
    assert_eq!(memory.addresses[0x3FFF], 0x22);
    assert_eq!(memory.addresses[0x4000], 0x33);
    assert_eq!(memory.addresses[0x7FFF], 0x44);
    assert_eq!(memory.addresses[0x8000], 0);
}

#[test]
fn boot_unpacks_logo_and_primes_tile_map() {
    let mut memory = Memory::default();
    memory.addresses[0x0104] = 0xCE;
    memory.addresses[0x0105] = 0xED;
    boot_sequence(&mut memory);
    assert_eq!(memory.addresses[0x8010], 0xF0);
    assert_eq!(memory.addresses[0x8011], 0x00);
    assert_eq!(memory.addresses[0x8012], 0xF0);
    assert_eq!(memory.addresses[0x8013], 0x00);
    assert_eq!(memory.addresses[0x8014], 0xFC);
    assert_eq!(memory.addresses[0x8016], 0xFC);
    assert_eq!(memory.addresses[0x8018], 0xFC);
    assert_eq!(memory.addresses[0x801C], 0xF3);
    assert_eq!(memory.addresses[0x8190], 0x00);
    assert_eq!(memory.addresses[0x9903], 0);
    assert_eq!(memory.addresses[0x9904], 1);
    assert_eq!(memory.addresses[0x990F], 12);
    assert_eq!(memory.addresses[0x9910], 0);
    assert_eq!(memory.addresses[0x9924], 13);
    assert_eq!(memory.addresses[0x992F], 24);
}

#[test]
fn background_decodes_tiles() {
    let mut memory = Memory::default();
    memory.addresses[0x9801] = 2;
    memory.addresses[0x8020] = 0b1000_0001;
    memory.addresses[0x8021] = 0b1100_0000;
    let mut display = Display::default();
    display.construct_vram_content(&memory);
    assert_eq!(display.pixels.len(), 256 * 256);
    assert_eq!(display.pixels[8], 3);
    assert_eq!(display.pixels[9], 1);
    assert_eq!(display.pixels[10], 0);
    assert_eq!(display.pixels[15], 2);
    assert_eq!(display.pixels[0], 0);
    assert_eq!(display.pixels[256 + 8], 0);
}

#[test]
fn palette_and_colors() {
    assert_eq!(map_palette(&0), ColorPalette::Green);
    assert_eq!(map_palette(&3), ColorPalette::Black);
    assert_eq!(get_color(ColorPalette::Green), (155, 188, 15));
    assert_eq!(get_color(map_palette(&2)), (48, 98, 48));
    assert_eq!(get_color(ColorPalette::LightGreen), (139, 172, 15));
    assert_eq!(get_color(ColorPalette::Black), (15, 56, 15));
}

#[test]
fn scanline_counter_steps_and_wraps() {
    let mut memory = Memory::default();
    update_ly_register(&mut memory, 0);
    assert_eq!(memory.addresses[0xFF44], 1);
    update_ly_register(&mut memory, 3);
    assert_eq!(memory.addresses[0xFF44], 1);
    memory.addresses[0xFF44] = 153;
    update_ly_register(&mut memory, 20);
    assert_eq!(memory.addresses[0xFF44], 0);
}
