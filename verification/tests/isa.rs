use hackcat::isa::{AluOp, Computation, Dest, Jump};

#[test]
fn function_table_has_eighteen_entries() {
    let mut seen: Vec<AluOp> = Vec::new();
    for code in 0u16..64 {
        if let Some(op) = AluOp::from_code(code) {
            assert!(!seen.contains(&op));
            seen.push(op);
        }
    }
    assert_eq!(seen.len(), 18);
    assert_eq!(AluOp::from_code(64), None);
    assert_eq!(AluOp::from_code(0b101010 + 64), None);
    assert_eq!(AluOp::from_code(0xFFFF), None);
}

#[test]
fn function_table_entries() {
    assert_eq!(AluOp::from_code(0b101010), Some(AluOp::Zero));
    assert_eq!(AluOp::from_code(0b111111), Some(AluOp::One));
    assert_eq!(AluOp::from_code(0b111010), Some(AluOp::MinusOne));
    assert_eq!(AluOp::from_code(0b001100), Some(AluOp::D));
    assert_eq!(AluOp::from_code(0b110000), Some(AluOp::X));
    assert_eq!(AluOp::from_code(0b001101), Some(AluOp::NotD));
    assert_eq!(AluOp::from_code(0b110001), Some(AluOp::NotX));
    assert_eq!(AluOp::from_code(0b001111), Some(AluOp::NegD));
    assert_eq!(AluOp::from_code(0b110011), Some(AluOp::NegX));
    assert_eq!(AluOp::from_code(0b011111), Some(AluOp::IncD));
    assert_eq!(AluOp::from_code(0b110111), Some(AluOp::IncX));
    assert_eq!(AluOp::from_code(0b001110), Some(AluOp::DecD));
    assert_eq!(AluOp::from_code(0b110010), Some(AluOp::DecX));
    assert_eq!(AluOp::from_code(0b000010), Some(AluOp::Add));
    assert_eq!(AluOp::from_code(0b010011), Some(AluOp::DMinusX));
    assert_eq!(AluOp::from_code(0b000111), Some(AluOp::XMinusD));
    assert_eq!(AluOp::from_code(0b000000), Some(AluOp::And));
    assert_eq!(AluOp::from_code(0b010101), Some(AluOp::Or));
    assert_eq!(AluOp::from_code(0b000001), None);
}

#[test]
fn apply_agrees_with_wrapping_arithmetic() {
    let samples: [u16; 9] = [0, 1, 2, 3, 5, 0x7FFF, 0x8000, 0xFFFE, 0xFFFF];
    for d in samples {
        for x in samples {
            assert_eq!(AluOp::apply(None, d, x), 0);
            assert_eq!(AluOp::apply(Some(AluOp::Zero), d, x), 0);
            assert_eq!(AluOp::apply(Some(AluOp::One), d, x), 1);
            assert_eq!(AluOp::apply(Some(AluOp::MinusOne), d, x), 0xFFFF);
            assert_eq!(AluOp::apply(Some(AluOp::D), d, x), d);
            assert_eq!(AluOp::apply(Some(AluOp::X), d, x), x);
            assert_eq!(AluOp::apply(Some(AluOp::NotD), d, x), !d);
            assert_eq!(AluOp::apply(Some(AluOp::NotX), d, x), !x);
            assert_eq!(AluOp::apply(Some(AluOp::NegD), d, x), (!d).wrapping_add(1));
            assert_eq!(AluOp::apply(Some(AluOp::NegX), d, x), (!x).wrapping_add(1));
            assert_eq!(AluOp::apply(Some(AluOp::IncD), d, x), d.wrapping_add(1));
            assert_eq!(AluOp::apply(Some(AluOp::IncX), d, x), x.wrapping_add(1));
            assert_eq!(AluOp::apply(Some(AluOp::DecD), d, x), d.wrapping_add(0xFFFF));
            assert_eq!(AluOp::apply(Some(AluOp::DecX), d, x), x.wrapping_add(0xFFFF));
            assert_eq!(AluOp::apply(Some(AluOp::Add), d, x), d.wrapping_add(x));
            assert_eq!(
                AluOp::apply(Some(AluOp::DMinusX), d, x),
                d.wrapping_add((!x).wrapping_add(1))
            );
            assert_eq!(
                AluOp::apply(Some(AluOp::XMinusD), d, x),
                x.wrapping_add((!d).wrapping_add(1))
            );
            assert_eq!(AluOp::apply(Some(AluOp::And), d, x), d & x);
            assert_eq!(AluOp::apply(Some(AluOp::Or), d, x), d | x);
        }
    }
}

#[test]
fn destination_table_entries() {
    for code in 0u16..8 {
        let dest = Dest::from_code(code);
        assert_eq!(dest.a, code & 4 != 0);
        assert_eq!(dest.d, code & 2 != 0);
        assert_eq!(dest.m, code & 1 != 0);
    }
    assert_eq!(Dest::from_code(0b010), Dest { a: false, d: true, m: false });
    // Only the low three bits count.
    assert_eq!(Dest::from_code(0b1010), Dest::from_code(0b010));
}

#[test]
fn jump_table_entries() {
    assert_eq!(Jump::from_code(0b000), Jump::Never);
    assert_eq!(Jump::from_code(0b001), Jump::Greater);
    assert_eq!(Jump::from_code(0b010), Jump::Equal);
    assert_eq!(Jump::from_code(0b011), Jump::GreaterEqual);
    assert_eq!(Jump::from_code(0b100), Jump::Less);
    assert_eq!(Jump::from_code(0b101), Jump::NotEqual);
    assert_eq!(Jump::from_code(0b110), Jump::LessEqual);
    assert_eq!(Jump::from_code(0b111), Jump::Always);
    assert_eq!(Jump::from_code(0b1001), Jump::Greater);
}

#[test]
fn jump_conditions_read_the_value_as_signed() {
    let table: [(Jump, [bool; 5]); 8] = [
        //             -32768  -1     0      1      32767
        (Jump::Never, [false, false, false, false, false]),
        (Jump::Greater, [false, false, false, true, true]),
        (Jump::Equal, [false, false, true, false, false]),
        (Jump::GreaterEqual, [false, false, true, true, true]),
        (Jump::Less, [true, true, false, false, false]),
        (Jump::NotEqual, [true, true, false, true, true]),
        (Jump::LessEqual, [true, true, true, false, false]),
        (Jump::Always, [true, true, true, true, true]),
    ];
    let values: [u16; 5] = [0x8000, 0xFFFF, 0, 1, 0x7FFF];
    for (jump, expected) in table {
        for (value, taken) in values.iter().zip(expected) {
            assert_eq!(jump.holds(*value), taken);
        }
    }
}

#[test]
fn decode_splits_the_word_into_its_fields() {
    // D = D+1; JGT
    let c = Computation::decode(0b1110_0111_1101_0001);
    assert_eq!(
        c,
        Computation {
            function: Some(AluOp::IncD),
            memory: false,
            dest: Dest { a: false, d: true, m: false },
            jump: Jump::Greater,
        }
    );
    // AM = M-1; JMP
    let c = Computation::decode(0b1111_1100_1010_1111);
    assert_eq!(
        c,
        Computation {
            function: Some(AluOp::DecX),
            memory: true,
            dest: Dest { a: true, d: false, m: true },
            jump: Jump::Always,
        }
    );
    // The top three bits play no part.
    assert_eq!(Computation::decode(0b0000_0111_1101_0001), Computation::decode(0b1110_0111_1101_0001));
    // An unused function code.
    assert_eq!(Computation::decode(0b1110_0000_0100_0000).function, None);
}
