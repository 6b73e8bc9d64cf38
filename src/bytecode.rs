use crate::encoding::{hex_bytes, hex_digits_of, is_hex_text, parse_hex};
use crate::error::Error;
use crate::operations::{decode_fixed, fixed_operation, lemma_fixed_operation_opcode, Operation};
use crate::primitives::zero_bytes;
use vstd::prelude::*;

verus! {

/// Decoded program code: one operation per instruction.
#[derive(Debug)]
pub struct Bytecode(pub Vec<Operation>);

impl View for Bytecode {
    type V = Seq<Operation>;

    open spec fn view(&self) -> Seq<Operation> {
        self.0@
    }
}

impl Bytecode {
    /// Code with no instructions.
    pub fn new() -> (r: Bytecode)
        ensures
            r@.len() == 0,
    {
        Bytecode(Vec::new())
    }

    /// Decodes bytecode text (see `parse_hex`) into instructions.
    pub fn try_from(value: &str) -> (r: Result<Bytecode, Error>)
        ensures
            r is Ok <==> is_hex_text(hex_digits_of(value@)) && decodable_from(
                hex_bytes(hex_digits_of(value@)),
                0,
            ),
            r matches Ok(code) ==> decodes_from(hex_bytes(hex_digits_of(value@)), 0, code@),
            r matches Err(e) ==> (e is Hex <==> !is_hex_text(hex_digits_of(value@))),
            is_hex_text(hex_digits_of(value@)) ==> (r matches Err(e) ==> e == Error::InvalidOpcode(
                first_unknown_opcode(hex_bytes(hex_digits_of(value@)), 0)->0,
            )),
    {
        let input = match parse_hex(value) {
            Ok(bytes) => bytes,
            Err(e) => return Err(e),
        };
        match parse(input.as_slice()) {
            Ok(operations) => Ok(Bytecode(operations)),
            Err(e) => Err(e),
        }
    }
}

/// Opcodes `0x5f..=0x7f` push the `byte - 0x5f` bytes that follow them.
pub open spec fn is_push_opcode(byte: u8) -> bool {
    0x5f <= byte <= 0x7f
}

/// How many immediate bytes follow `byte`.
pub open spec fn immediate_size(byte: u8) -> nat {
    if is_push_opcode(byte) {
        (byte - 0x5f) as nat
    } else {
        0
    }
}

pub open spec fn is_known_opcode(byte: u8) -> bool {
    is_push_opcode(byte) || fixed_operation(byte) is Some
}

/// The `n` bytes of `bytes` from `start` on, with zeros past its end.
pub open spec fn padded_immediate(bytes: Seq<u8>, start: int, n: nat) -> Seq<u8> {
    Seq::new(n, |k: int| if start + k < bytes.len() { bytes[start + k] } else { 0u8 })
}

/// Where the instruction after the one at `i` starts, or the end of `bytes`.
pub open spec fn next_offset(bytes: Seq<u8>, i: int) -> int {
    let end = i + 1 + immediate_size(bytes[i]);
    if end < bytes.len() {
        end
    } else {
        bytes.len() as int
    }
}

/// `op` is the instruction encoded at offset `i` of `bytes`.
pub open spec fn decodes_at(bytes: Seq<u8>, i: int, op: Operation) -> bool {
    let byte = bytes[i];
    if is_push_opcode(byte) {
        op.opcode() == byte && op.push_immediate() == Some(
            padded_immediate(bytes, i + 1, immediate_size(byte)),
        )
    } else {
        fixed_operation(byte) == Some(op)
    }
}

/// Every instruction of `bytes` from offset `i` on starts with a known opcode.
pub open spec fn decodable_from(bytes: Seq<u8>, i: int) -> bool
    decreases bytes.len() - i,
{
    if i < 0 || i >= bytes.len() {
        true
    } else {
        is_known_opcode(bytes[i]) && decodable_from(bytes, next_offset(bytes, i))
    }
}

/// The first byte from offset `i` on that starts an instruction and is not an opcode.
pub open spec fn first_unknown_opcode(bytes: Seq<u8>, i: int) -> Option<u8>
    decreases bytes.len() - i,
{
    if i < 0 || i >= bytes.len() {
        None
    } else if !is_known_opcode(bytes[i]) {
        Some(bytes[i])
    } else {
        first_unknown_opcode(bytes, next_offset(bytes, i))
    }
}

/// `ops` are the instructions of `bytes` from offset `i` on, in order.
pub open spec fn decodes_from(bytes: Seq<u8>, i: int, ops: Seq<Operation>) -> bool
    decreases bytes.len() - i,
{
    if i < 0 || i >= bytes.len() {
        ops.len() == 0
    } else {
        &&& ops.len() > 0
        &&& decodes_at(bytes, i, ops[0])
        &&& decodes_from(bytes, next_offset(bytes, i), ops.skip(1))
    }
}

/// Offset `j` of `bytes` starts an instruction when decoding from offset `i`.
pub open spec fn is_instruction_start(bytes: Seq<u8>, i: int, j: int) -> bool
    decreases bytes.len() - i,
{
    if i == j {
        0 <= j < bytes.len()
    } else if 0 <= i < j && i < bytes.len() {
        is_instruction_start(bytes, next_offset(bytes, i), j)
    } else {
        false
    }
}

/// A single byte that is a fixed-arity opcode decodes to exactly one instruction, the one
/// it encodes, with no immediate.
pub proof fn lemma_single_byte_decodes(byte: u8, ops: Seq<Operation>)
    requires
        fixed_operation(byte) is Some,
    ensures
        decodable_from(seq![byte], 0),
        decodes_from(seq![byte], 0, ops) <==> ops == seq![fixed_operation(byte)->0],
        fixed_operation(byte)->0.opcode() == byte,
        fixed_operation(byte)->0.push_immediate() is None,
{
    lemma_fixed_operation_opcode(byte);
    let bytes = seq![byte];
    assert(next_offset(bytes, 0) == 1);
    assert(decodable_from(bytes, 1));
    if decodes_from(bytes, 0, ops) {
        assert(decodes_from(bytes, 1, ops.skip(1)));
        assert(ops.skip(1).len() == 0);
        assert(ops =~= seq![fixed_operation(byte)->0]);
    }
    if ops == seq![fixed_operation(byte)->0] {
        assert(ops.skip(1) =~= Seq::<Operation>::empty());
        assert(decodes_from(bytes, 1, ops.skip(1)));
        assert(decodes_at(bytes, 0, ops[0]));
    }
}

/// A push opcode followed by fewer bytes than it takes decodes to one push whose
/// immediate is those bytes followed by zeros.
pub proof fn lemma_push_zero_padding(byte: u8, tail: Seq<u8>, ops: Seq<Operation>)
    requires
        is_push_opcode(byte),
        tail.len() < immediate_size(byte),
        decodes_from(seq![byte] + tail, 0, ops),
    ensures
        decodable_from(seq![byte] + tail, 0),
        ops.len() == 1,
        ops[0].opcode() == byte,
        ops[0].push_immediate() == Some(tail + zero_bytes((immediate_size(byte) - tail.len()) as nat)),
{
    let bytes = seq![byte] + tail;
    assert(bytes[0] == byte);
    assert(next_offset(bytes, 0) == bytes.len());
    assert(decodable_from(bytes, bytes.len() as int));
    assert(decodes_from(bytes, bytes.len() as int, ops.skip(1)));
    assert(ops.skip(1).len() == 0);
    assert(padded_immediate(bytes, 1, immediate_size(byte)) =~= tail + zero_bytes(
        (immediate_size(byte) - tail.len()) as nat,
    ));
}

/// Decoding fails when an instruction starts with a byte that is not an opcode, however
/// valid the instructions before it are.
pub proof fn lemma_unknown_opcode_rejected(bytes: Seq<u8>, i: int, j: int)
    requires
        is_instruction_start(bytes, i, j),
        !is_known_opcode(bytes[j]),
    ensures
        !decodable_from(bytes, i),
    decreases bytes.len() - i,
{
    if i != j {
        lemma_unknown_opcode_rejected(bytes, next_offset(bytes, i), j);
    }
}

/// `0xef` is not an opcode.
pub proof fn lemma_0xef_unknown()
    ensures
        !is_known_opcode(0xef),
{
}

/// Copies the `N` bytes of `input` from `start` on, padding with zeros past its end.
fn read_immediate<const N: usize>(input: &[u8], start: usize) -> (r: [u8; N])
    ensures
        r@ == padded_immediate(input@, start as int, N as nat),
{
    let mut out = [0u8; N];
    let mut k: usize = 0;
    while k < N
        invariant
            0 <= k <= N,
            out@.len() == N,
            forall|j: int| 0 <= j < k ==> out@[j] == padded_immediate(input@, start as int, N as nat)[j],
            forall|j: int| k <= j < N ==> out@[j] == 0u8,
        decreases N - k,
    {
        if start < input.len() && k < input.len() - start {
            out[k] = input[start + k];
        }
        k = k + 1;
    }
    assert(out@ =~= padded_immediate(input@, start as int, N as nat));
    out
}

/// Builds the push instruction of `opcode` from the bytes of `input` that follow it.
fn parse_push(opcode: u8, input: &[u8], start: usize) -> (r: Operation)
    requires
        is_push_opcode(opcode),
    ensures
        r.opcode() == opcode,
        r.push_immediate() == Some(padded_immediate(input@, start as int, immediate_size(opcode))),
{
    let immediate_size: u8 = opcode - 0x5f;
    let r = match immediate_size {
        0 => Operation::Push0,
        1 => Operation::Push1(if start < input.len() { input[start] } else { 0 }),
        2 => Operation::Push2(read_immediate(input, start)),
        3 => Operation::Push3(read_immediate(input, start)),
        4 => Operation::Push4(read_immediate(input, start)),
        5 => Operation::Push5(read_immediate(input, start)),
        6 => Operation::Push6(read_immediate(input, start)),
        7 => Operation::Push7(read_immediate(input, start)),
        8 => Operation::Push8(read_immediate(input, start)),
        9 => Operation::Push9(read_immediate(input, start)),
        10 => Operation::Push10(read_immediate(input, start)),
        11 => Operation::Push11(read_immediate(input, start)),
        12 => Operation::Push12(read_immediate(input, start)),
        13 => Operation::Push13(read_immediate(input, start)),
        14 => Operation::Push14(read_immediate(input, start)),
        15 => Operation::Push15(read_immediate(input, start)),
        16 => Operation::Push16(read_immediate(input, start)),
        17 => Operation::Push17(read_immediate(input, start)),
        18 => Operation::Push18(read_immediate(input, start)),
        19 => Operation::Push19(read_immediate(input, start)),
        20 => Operation::Push20(read_immediate(input, start)),
        21 => Operation::Push21(read_immediate(input, start)),
        22 => Operation::Push22(read_immediate(input, start)),
        23 => Operation::Push23(read_immediate(input, start)),
        24 => Operation::Push24(read_immediate(input, start)),
        25 => Operation::Push25(read_immediate(input, start)),
        26 => Operation::Push26(read_immediate(input, start)),
        27 => Operation::Push27(read_immediate(input, start)),
        28 => Operation::Push28(read_immediate(input, start)),
        29 => Operation::Push29(read_immediate(input, start)),
        30 => Operation::Push30(read_immediate(input, start)),
        31 => Operation::Push31(read_immediate(input, start)),
        32 => Operation::Push32(read_immediate(input, start)),
        _ => Operation::Push32(read_immediate(input, start)),
    };
    proof {
        if immediate_size == 0 {
            assert(padded_immediate(input@, start as int, 0) =~= Seq::<u8>::empty());
        }
        if immediate_size == 1 {
            assert(padded_immediate(input@, start as int, 1) =~= r.push_immediate()->0);
        }
    }
    r
}

/// Decodes raw code into instructions, failing on the first unknown opcode.
pub fn parse(input: &[u8]) -> (r: Result<Vec<Operation>, Error>)
    ensures
        r is Ok <==> decodable_from(input@, 0),
        r matches Ok(ops) ==> decodes_from(input@, 0, ops@),
        r matches Err(e) ==> e == Error::InvalidOpcode(first_unknown_opcode(input@, 0)->0),
{
    let mut operations: Vec<Operation> = Vec::new();
    let n = input.len();
    let mut pos: usize = 0;
    while pos < n
        invariant
            n == input@.len(),
            0 <= pos <= n,
            first_unknown_opcode(input@, 0) == first_unknown_opcode(input@, pos as int),
            decodable_from(input@, 0) <==> decodable_from(input@, pos as int),
            forall|rest: Seq<Operation>|
                decodes_from(input@, pos as int, rest) ==> decodes_from(
                    input@,
                    0,
                    operations@ + rest,
                ),
        decreases n - pos,
    {
        let byte = input[pos];
        let operation;
        let next: usize;
        if 0x5f <= byte && byte <= 0x7f {
            let size: usize = (byte - 0x5f) as usize;
            operation = parse_push(byte, input, pos + 1);
            next = if size < n - pos - 1 {
                pos + 1 + size
            } else {
                n
            };
        } else {
            match decode_fixed(byte) {
                Some(op) => {
                    operation = op;
                },
                None => {
                    return Err(Error::InvalidOpcode(byte));
                },
            }
            next = pos + 1;
        }
        proof {
            assert(next == next_offset(input@, pos as int));
            assert(decodes_at(input@, pos as int, operation));
            assert forall|rest: Seq<Operation>|
                decodes_from(input@, next as int, rest) implies decodes_from(
                    input@,
                    0,
                    operations@.push(operation) + rest,
                ) by {
                let longer = seq![operation] + rest;
                assert(longer.skip(1) =~= rest);
                assert(decodes_from(input@, pos as int, longer));
                assert(operations@ + longer =~= operations@.push(operation) + rest);
            }
        }
        operations.push(operation);
        pos = next;
    }
    proof {
        assert(decodes_from(input@, pos as int, Seq::<Operation>::empty()));
        assert(operations@ + Seq::<Operation>::empty() =~= operations@);
    }
    Ok(operations)
}

} // verus!
