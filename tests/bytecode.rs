use evm::bytecode::{parse, Bytecode};
use evm::error::Error;
use evm::operations::Operation;
use evm::encoding::parse_trimmed_hex;
use evm::parse_hex;

#[test]
fn test_some_bytecode() {
    let input = "0x7f00000000000000000000000000000000000000000000000000000000000000017f000000000000000000000000000000000000000000000000000000000000000201";
    let bytecode = Bytecode::try_from(input).unwrap();
    println!("{:?}", bytecode);
}

#[test]
fn some_bytecode_decodes_to_three_instructions() {
    let input = "0x7f00000000000000000000000000000000000000000000000000000000000000017f000000000000000000000000000000000000000000000000000000000000000201";
    let bytecode = Bytecode::try_from(input).unwrap();
    let mut one = [0u8; 32];
    one[31] = 1;
    let mut two = [0u8; 32];
    two[31] = 2;
    assert_eq!(
        bytecode.0,
        vec![Operation::Push32(one), Operation::Push32(two), Operation::Add]
    );
}

#[test]
fn every_fixed_opcode_decodes_alone() {
    let mut count = 0;
    for byte in 0u16..=255 {
        let byte = byte as u8;
        if (0x5f..=0x7f).contains(&byte) {
            continue;
        }
        if let Ok(ops) = parse(&[byte]) {
            assert_eq!(ops.len(), 1);
            assert_eq!(ops[0].get_push_size(), None);
            assert_eq!(ops[0].program_counter_increment(), 1);
            count += 1;
        } else {
            assert_eq!(parse(&[byte]), Err(Error::InvalidOpcode(byte)));
        }
    }
    assert_eq!(count, 111);
}

#[test]
fn opcode_0x02_is_mul() {
    assert_eq!(parse(&[0x01]), Ok(vec![Operation::Add]));
    assert_eq!(parse(&[0x02]), Ok(vec![Operation::Mul]));
}

#[test]
fn truncated_push_is_zero_padded() {
    assert_eq!(parse(&[0x60]), Ok(vec![Operation::Push1(0)]));
    assert_eq!(parse(&[0x61, 0xab]), Ok(vec![Operation::Push2([0xab, 0])]));
    assert_eq!(parse(&[0x5f]), Ok(vec![Operation::Push0]));
}

#[test]
fn push20_and_push26_decode() {
    let mut input = vec![0x73];
    input.extend(1..=20u8);
    let ops = parse(&input).unwrap();
    assert_eq!(ops.len(), 1);
    assert_eq!(ops[0].get_push_size(), Some(20));
    let mut input = vec![0x79];
    input.extend(1..=26u8);
    input.push(0x01);
    let ops = parse(&input).unwrap();
    assert_eq!(ops.len(), 2);
    assert_eq!(ops[0].get_push_size(), Some(26));
    assert_eq!(ops[1], Operation::Add);
}

#[test]
fn unknown_opcode_fails_whole_decode() {
    assert_eq!(parse(&[0x01, 0x01, 0xef]), Err(Error::InvalidOpcode(0xef)));
    assert_eq!(parse(&[0xef, 0x01]), Err(Error::InvalidOpcode(0xef)));
}

#[test]
fn unknown_byte_inside_immediate_is_data() {
    assert_eq!(parse(&[0x60, 0xef]), Ok(vec![Operation::Push1(0xef)]));
}

#[test]
fn empty_code_decodes_to_nothing() {
    assert_eq!(parse(&[]), Ok(vec![]));
}

#[test]
fn hex_text_forms() {
    assert_eq!(parse_hex("0x0102").unwrap(), vec![1, 2]);
    assert_eq!(parse_hex("  0a0B\n").unwrap(), vec![10, 11]);
    assert_eq!(parse_hex(" 0xff ").unwrap(), vec![255]);
    assert_eq!(parse_hex("").unwrap(), Vec::<u8>::new());
}

#[test]
fn malformed_hex_is_rejected() {
    assert!(matches!(
        parse_hex("abc"),
        Err(Error::Hex(hex::FromHexError::OddLength))
    ));
    assert!(matches!(
        parse_hex("zz"),
        Err(Error::Hex(hex::FromHexError::InvalidHexCharacter { .. }))
    ));
    assert!(matches!(Bytecode::try_from("0x0"), Err(Error::Hex(_))));
}

#[test]
fn bytecode_text_with_unknown_opcode() {
    assert!(matches!(
        Bytecode::try_from("0x01ef"),
        Err(Error::InvalidOpcode(0xef))
    ));
}

#[test]
fn first_unknown_opcode_is_reported() {
    assert_eq!(parse(&[0xef, 0xfb]), Err(Error::InvalidOpcode(0xef)));
    assert_eq!(parse(&[0x60, 0xfb, 0xfc, 0xef]), Err(Error::InvalidOpcode(0xfc)));
}

#[test]
fn bytecode_text_errors_pass_through() {
    assert!(matches!(Bytecode::try_from("0xzz"), Err(Error::Hex(_))));
    assert!(matches!(
        Bytecode::try_from("ef"),
        Err(Error::InvalidOpcode(0xef))
    ));
}

#[test]
fn trimmed_hex_text() {
    assert_eq!(parse_trimmed_hex("0x01ff").unwrap(), vec![0x01, 0xff]);
    assert_eq!(parse_trimmed_hex("01FF").unwrap(), vec![0x01, 0xff]);
    assert!(matches!(parse_trimmed_hex(" 01"), Err(Error::Hex(_))));
    assert!(matches!(parse_trimmed_hex("0x0g"), Err(Error::Hex(_))));
}

#[test]
fn unicode_white_space_is_trimmed() {
    assert_eq!(parse_hex("\u{3000}0x01\u{a0}\t").unwrap(), vec![1]);
    assert_eq!(parse_hex("  0x01ff  ").unwrap(), vec![0x01, 0xff]);
}
