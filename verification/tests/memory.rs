use hackcat::memory::{RAM16K, ROM32K};

#[test]
fn ram_starts_as_zeros() {
    let ram = RAM16K::new();
    assert_eq!(ram.mem_32.len(), 0x1_0000);
    assert!(ram.mem_32.iter().all(|w| *w == 0));
    assert_eq!(*ram.read_u16(0), 0);
    assert_eq!(*ram.read_u16(0xFFFF), 0);
}

#[test]
fn ram_reads_what_was_written() {
    let mut ram = RAM16K::new();
    ram.write_u16(0, 1);
    ram.write_u16(16384, 0xABCD);
    ram.write_u16(24576, 65);
    ram.write_u16(0xFFFF, 0xFFFF);
    assert_eq!(*ram.read_u16(0), 1);
    assert_eq!(*ram.read_u16(16384), 0xABCD);
    assert_eq!(*ram.read_u16(24576), 65);
    assert_eq!(*ram.read_u16(0xFFFF), 0xFFFF);
    assert_eq!(*ram.read_u16(1), 0);
    assert_eq!(*ram.read_u16(0xFFFE), 0);
    assert_eq!(ram.mem_32.len(), 0x1_0000);
    ram.write_u16(16384, 2);
    assert_eq!(*ram.read_u16(16384), 2);
}

#[test]
fn ram_access_outside_is_harmless() {
    let mut short = RAM16K { mem_32: vec![0; 0xFFFF] };
    short.write_u16(0xFFFF, 9);
    assert_eq!(*short.read_u16(0xFFFF), 0);
    assert_eq!(short.mem_32.len(), 0xFFFF);
    assert!(short.mem_32.iter().all(|w| *w == 0));
    let mut empty = RAM16K { mem_32: Vec::new() };
    empty.write_u16(0, 1);
    assert_eq!(*empty.read_u16(0), 0);
    assert!(empty.mem_32.is_empty());
    let mut small = RAM16K { mem_32: vec![1, 2, 3] };
    small.write_u16(3, 7);
    small.write_u16(2, 8);
    assert_eq!(small.mem_32, vec![1, 2, 8]);
    assert_eq!(*small.read_u16(3), 0);
    assert_eq!(*small.read_u16(0), 1);
}

#[test]
fn rom_starts_as_zeros() {
    let rom = ROM32K::new();
    assert_eq!(rom.raw_program.len(), 0x1_0000);
    assert!(rom.raw_program.iter().all(|b| *b == 0));
    assert_eq!(*rom.read_byte(0xFFFF), 0);
}

#[test]
fn rom_load_replaces_the_whole_content() {
    let mut rom = ROM32K::new();
    rom.load_program(vec![1, 2, 3]);
    assert_eq!(rom.raw_program, vec![1, 2, 3]);
    assert_eq!(*rom.read_byte(0), 1);
    assert_eq!(*rom.read_byte(2), 3);
    rom.load_program(vec![9]);
    assert_eq!(rom.raw_program, vec![9]);
    rom.load_program(Vec::new());
    assert!(rom.raw_program.is_empty());
}

#[test]
fn rom_read_outside_the_program_is_zero() {
    let mut rom = ROM32K::new();
    rom.load_program(vec![1, 2, 3]);
    assert_eq!(*rom.read_byte(3), 0);
    assert_eq!(*rom.read_byte(0xFFFF), 0);
}

#[test]
fn rom_load_cuts_a_program_off_at_capacity() {
    let mut long: Vec<u8> = Vec::new();
    for i in 0..0x1_0005usize {
        long.push((i % 251) as u8);
    }
    let mut rom = ROM32K::new();
    rom.load_program(long.clone());
    assert_eq!(rom.raw_program.len(), 0x1_0000);
    assert_eq!(rom.raw_program[..], long[..0x1_0000]);
    assert_eq!(*rom.read_byte(0xFFFF), (0xFFFFusize % 251) as u8);
    let exact = long[..0x1_0000].to_vec();
    rom.load_program(exact.clone());
    assert_eq!(rom.raw_program, exact);
}

#[test]
fn dump_shows_bytes_in_binary_four_to_a_line() {
    let mut rom = ROM32K::new();
    rom.load_program(vec![0x30, 0x39, 0xFF, 0x00, 0x01]);
    assert_eq!(rom.dump(), "00110000 00111001 11111111 00000000 |\n00000001 ");
    rom.load_program(vec![0x80]);
    assert_eq!(rom.dump(), "10000000 ");
    rom.load_program(Vec::new());
    assert_eq!(rom.dump(), "");
}

#[test]
fn dump_stops_after_forty_bytes() {
    let rom = ROM32K::new();
    let text = rom.dump();
    let mut expected = String::new();
    for i in 0..40 {
        if i % 4 == 0 && i != 0 {
            expected.push_str("|\n");
        }
        expected.push_str("00000000 ");
    }
    assert_eq!(text, expected);
    let mut rom = ROM32K::new();
    rom.load_program((0u8..100).collect());
    let text = rom.dump();
    assert_eq!(text.matches(' ').count(), 40);
    assert!(text.ends_with("00100111 "));
}
