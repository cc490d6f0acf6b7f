use hackcat::cpu::CPU;

fn c_opcode(memory: bool, function: u16, dest: u16, jump: u16) -> u16 {
    0xE000 | ((memory as u16) << 12) | (function << 6) | (dest << 3) | jump
}

fn triple(opcode: u16) -> (String, String, String) {
    CPU::disassemble_c(opcode)
}

fn function_name(memory: bool, function: u16) -> String {
    triple(c_opcode(memory, function, 0, 0)).1
}

#[test]
fn d_gets_d_plus_one_jump_if_greater() {
    // destination D, function D+1, jump JGT
    let opcode: u16 = 0b1110_0111_1101_0001;
    assert_eq!(
        triple(opcode),
        ("D = ".to_string(), "D+1".to_string(), "JGT".to_string())
    );
}

#[test]
fn function_names_with_register_operand() {
    let table: [(u16, &str); 18] = [
        (0b101010, "0"),
        (0b111111, "1"),
        (0b111010, "-1"),
        (0b001100, "D"),
        (0b110000, "A"),
        (0b001101, "!D"),
        (0b110001, "!A"),
        (0b001111, "-D"),
        (0b110011, "-A"),
        (0b011111, "D+1"),
        (0b110111, "A+1"),
        (0b001110, "D-1"),
        (0b110010, "A-1"),
        (0b000010, "D+A"),
        (0b010011, "D-A"),
        (0b000111, "A-D"),
        (0b000000, "D&A"),
        (0b010101, "D|A"),
    ];
    for (code, name) in table {
        assert_eq!(function_name(false, code), name);
    }
}

#[test]
fn function_names_with_memory_operand() {
    let table: [(u16, &str); 18] = [
        (0b101010, "0"),
        (0b111111, "1"),
        (0b111010, "-1"),
        (0b001100, "D"),
        (0b110000, "M"),
        (0b001101, "!D"),
        (0b110001, "!M"),
        (0b001111, "-D"),
        (0b110011, "-M"),
        (0b011111, "D+1"),
        (0b110111, "M+1"),
        (0b001110, "D-1"),
        (0b110010, "M-1"),
        (0b000010, "D+M"),
        (0b010011, "D-M"),
        (0b000111, "M-D"),
        (0b000000, "D&M"),
        (0b010101, "D|M"),
    ];
    for (code, name) in table {
        assert_eq!(function_name(true, code), name);
    }
}

#[test]
fn names_match_what_is_computed() {
    // With D = 3 and A = 5 every name, read as a formula, gives the value
    // that the executor computes for the same function code.
    let table: [(u16, &str, u16); 18] = [
        (0b101010, "0", 0),
        (0b111111, "1", 1),
        (0b111010, "-1", 0xFFFF),
        (0b001100, "D", 3),
        (0b110000, "A", 5),
        (0b001101, "!D", !3),
        (0b110001, "!A", !5),
        (0b001111, "-D", 3u16.wrapping_neg()),
        (0b110011, "-A", 5u16.wrapping_neg()),
        (0b011111, "D+1", 3 + 1),
        (0b110111, "A+1", 5 + 1),
        (0b001110, "D-1", 3 - 1),
        (0b110010, "A-1", 5 - 1),
        (0b000010, "D+A", 3 + 5),
        (0b010011, "D-A", 3u16.wrapping_sub(5)),
        (0b000111, "A-D", 5 - 3),
        (0b000000, "D&A", 3 & 5),
        (0b010101, "D|A", 3 | 5),
    ];
    for (code, name, value) in table {
        assert_eq!(function_name(false, code), name);
        let mut cpu = CPU::new();
        cpu.register_d = 3;
        cpu.register_a = 5;
        cpu.c_instruction(c_opcode(false, code, 0b010, 0));
        assert_eq!(cpu.register_d, value);
    }
}

#[test]
fn every_used_function_code_has_a_name_of_its_own() {
    for memory in [false, true] {
        let mut names: Vec<String> = Vec::new();
        for code in 0u16..64 {
            let name = function_name(memory, code);
            if !name.is_empty() {
                assert!(!names.contains(&name));
                names.push(name);
            }
        }
        assert_eq!(names.len(), 18);
    }
}

#[test]
fn unused_function_code_has_no_name() {
    assert_eq!(function_name(false, 0b000001), "");
    assert_eq!(function_name(true, 0b111110), "");
    assert_eq!(
        triple(c_opcode(false, 0b000001, 0b111, 0b111)),
        ("ADM = ".to_string(), "".to_string(), "JMP".to_string())
    );
}

#[test]
fn destination_prefixes() {
    let table: [(u16, &str); 8] = [
        (0b000, ""),
        (0b001, "M = "),
        (0b010, "D = "),
        (0b011, "DM = "),
        (0b100, "A = "),
        (0b101, "AM = "),
        (0b110, "AD = "),
        (0b111, "ADM = "),
    ];
    for (code, prefix) in table {
        assert_eq!(triple(c_opcode(false, 0b101010, code, 0)).0, prefix);
    }
}

#[test]
fn jump_names() {
    let table: [(u16, &str); 8] = [
        (0b000, ""),
        (0b001, "JGT"),
        (0b010, "JEQ"),
        (0b011, "JGE"),
        (0b100, "JLT"),
        (0b101, "JNE"),
        (0b110, "JLE"),
        (0b111, "JMP"),
    ];
    for (code, name) in table {
        assert_eq!(triple(c_opcode(false, 0b101010, 0, code)).2, name);
    }
}

#[test]
fn listing_has_one_line_for_each_instruction() {
    let mut cpu = CPU::new();
    let words: [u16; 5] = [
        12345,
        0b1110_0111_1101_0001,
        0,
        c_opcode(true, 0b000010, 0b001, 0),
        c_opcode(false, 0b101010, 0, 0b111),
    ];
    let mut bytes = Vec::new();
    for w in words {
        bytes.push((w >> 8) as u8);
        bytes.push((w & 0xFF) as u8);
    }
    cpu.rom.load_program(bytes);
    assert_eq!(
        cpu.disassemble_loaded_rom(),
        vec![
            "0: @12345".to_string(),
            "1: D = D+1; JGT".to_string(),
            "2: @0".to_string(),
            "3: M = D+M; ".to_string(),
            "4: 0; JMP".to_string(),
        ]
    );
    // The machine is as it was.
    assert_eq!(cpu.pc, 0);
    assert_eq!(cpu.cc, 0);
    assert_eq!(cpu.register_a, 0);
}

#[test]
fn listing_leaves_out_a_trailing_half_instruction() {
    let mut cpu = CPU::new();
    cpu.rom.load_program(vec![0x7F, 0xFF, 0x12]);
    assert_eq!(cpu.disassemble_loaded_rom(), vec!["0: @32767".to_string()]);
    cpu.rom.load_program(vec![0x12]);
    assert!(cpu.disassemble_loaded_rom().is_empty());
    cpu.rom.load_program(Vec::new());
    assert!(cpu.disassemble_loaded_rom().is_empty());
}

#[test]
fn listing_of_a_new_machine_covers_the_whole_rom() {
    let cpu = CPU::new();
    let lines = cpu.disassemble_loaded_rom();
    assert_eq!(lines.len(), 32768);
    assert_eq!(lines[0], "0: @0");
    assert_eq!(lines[9], "9: @0");
    assert_eq!(lines[10], "10: @0");
    assert_eq!(lines[32767], "32767: @0");
}

#[test]
fn listing_line_is_what_execute_runs_at_that_slot() {
    let mut cpu = CPU::new();
    cpu.rom.load_program(vec![0x00, 0x00, 0x00, 0x2A]);
    assert_eq!(cpu.disassemble_loaded_rom()[1], "1: @42");
    cpu.pc = 2;
    cpu.execute();
    assert_eq!(cpu.register_a, 42);
}
