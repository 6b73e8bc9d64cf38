use evm::bytecode::{parse, Bytecode};
use evm::context::{Block, Context, Precompiles, State, Transaction};
use evm::error::Error;
use evm::interpreter::{Account, Frame, Interpreter, Memory, Stack, StackError};
use evm::operations::{Operation, OperationResult};
use evm::primitives::{Address, Word};
use evm::storage::Storage;

fn context_with_code(code: Bytecode) -> Context {
    let transaction = Transaction {
        gas_limit: Word::zero(),
        gas_price: Word::zero(),
        sender: Address::zero(),
        recipient: Address::zero(),
        value: Word::zero(),
        input: vec![],
    };
    let mut state = State::new();
    let mut account = Account::new();
    account.code = code;
    state.insert(transaction.recipient, account);
    Context {
        block: Block {},
        transaction,
        precompiles: Precompiles {},
        state,
    }
}

fn empty_context() -> Context {
    context_with_code(Bytecode::new())
}

fn word_with_low_byte(b: u8) -> Word {
    let mut bytes = [0u8; 32];
    bytes[31] = b;
    Word { bytes }
}

#[test]
fn push32_pushes_big_endian_value() {
    let mut input = vec![0x7f];
    input.extend([0u8; 31]);
    input.push(0x01);
    let ops = parse(&input).unwrap();
    assert_eq!(ops.len(), 1);
    let mut stack = Stack::new();
    let mut memory = Memory::new();
    let context = empty_context();
    let result = ops[0].apply(&mut stack, &mut memory, &context).unwrap();
    assert_eq!(stack.len(), 1);
    assert_eq!(stack.get(0), Word::from_u64(1));
    assert_eq!(result.gas_used, Word::from_u64(3));
    assert_eq!(result.program_counter_increment, 33);
}

#[test]
fn push1_pushes_its_byte() {
    let mut stack = Stack::new();
    let mut memory = Memory::new();
    let context = empty_context();
    Operation::Push1(0xab)
        .apply(&mut stack, &mut memory, &context)
        .unwrap();
    assert_eq!(stack.get(0), Word::from_u64(0xab));
    Operation::Push2([0x01, 0x02])
        .apply(&mut stack, &mut memory, &context)
        .unwrap();
    assert_eq!(stack.get(1), Word::from_u64(0x0102));
}

#[test]
fn add_sums_two_words() {
    let mut stack = Stack::new();
    stack.push(Word::from_u64(2)).unwrap();
    stack.push(Word::from_u64(3)).unwrap();
    let result = Operation::Add.do_add(&mut stack).unwrap();
    assert_eq!(stack.len(), 1);
    assert_eq!(stack.get(0), Word::from_u64(5));
    assert_eq!(result.gas_used, Word::from_u64(3));
    assert_eq!(result.program_counter_increment, 1);
}

#[test]
fn add_wraps_modulo_word_size() {
    let mut stack = Stack::new();
    stack.push(Word::max_value()).unwrap();
    stack.push(Word::from_u64(2)).unwrap();
    Operation::Add.do_add(&mut stack).unwrap();
    assert_eq!(stack.len(), 1);
    assert_eq!(stack.get(0), Word::from_u64(1));
}

#[test]
fn add_underflows_on_short_stack() {
    let mut stack = Stack::new();
    assert!(matches!(
        Operation::Add.do_add(&mut stack),
        Err(Error::Stack(StackError::Underflow))
    ));
    stack.push(Word::from_u64(7)).unwrap();
    assert!(matches!(
        Operation::Add.do_add(&mut stack),
        Err(Error::Stack(StackError::Underflow))
    ));
    assert_eq!(stack.len(), 1);
    assert_eq!(stack.get(0), Word::from_u64(7));
}

#[test]
fn underflow_leaves_frame_counters_unchanged() {
    let context = empty_context();
    let mut frame = Frame::from_context(&context);
    frame.stack.push(Word::from_u64(1)).unwrap();
    let result = frame.dispatch_operation(Operation::Add, &context);
    assert!(matches!(result, Err(Error::Stack(StackError::Underflow))));
    assert_eq!(frame.gas_used, Word::zero());
    assert_eq!(frame.program_counter, 0);
    assert_eq!(frame.operation_counter, 0);
}

#[test]
fn end_to_end_push_push_add() {
    let code = Bytecode::try_from(
        "7f00000000000000000000000000000000000000000000000000000000000000017f000000000000000000000000000000000000000000000000000000000000000201",
    )
    .unwrap();
    let context = context_with_code(code);
    let execution = Interpreter::new().execute(context).unwrap();
    let (stack, output) = execution.output();
    assert_eq!(stack.len(), 1);
    assert_eq!(stack.get(0), Word::from_u64(3));
    assert!(output.is_empty());
    assert_eq!(execution.frame.gas_used, Word::from_u64(9));
    assert_eq!(execution.frame.program_counter, 67);
    assert_eq!(execution.frame.operation_counter, 3);
}

#[test]
fn missing_account_runs_no_code() {
    let mut context = empty_context();
    context.transaction.recipient = Address { bytes: [7u8; 20] };
    let execution = Interpreter::new().execute(context).unwrap();
    assert_eq!(execution.output().0.len(), 0);
    assert_eq!(execution.frame.account, None);
}

#[test]
fn unimplemented_operation_fails_loudly() {
    let context = context_with_code(Bytecode(vec![Operation::Push1(1), Operation::Mul]));
    let result = Interpreter::new().execute(context);
    assert!(matches!(result, Err(Error::Unimplemented(Operation::Mul))));
}

#[test]
fn run_without_frame_is_frame_underflow() {
    let context = empty_context();
    let mut interpreter = Interpreter::new();
    assert!(matches!(
        interpreter.run(&context),
        Err(Error::FrameUnderflow)
    ));
}

#[test]
fn gas_accounting_overflow_is_signalled() {
    let context = empty_context();
    let mut frame = Frame::from_context(&context);
    frame.gas_used = Word::max_value();
    frame.gas_used.bytes[31] = 0xf0;
    let mut applied = 0;
    let outcome = loop {
        let result = OperationResult {
            gas_used: Word::from_u64(3),
            program_counter_increment: 1,
        };
        match frame.apply(result) {
            Ok(()) => applied += 1,
            Err(e) => break e,
        }
    };
    assert_eq!(outcome, Error::GasUsedOverflow);
    assert_eq!(applied, 5);
    assert_eq!(frame.program_counter, 5);
    assert_eq!(frame.operation_counter, 5);
    let mut expected = Word::max_value();
    expected.bytes[31] = 0xff;
    assert_eq!(frame.gas_used, expected);
}

#[test]
fn stack_overflows_past_1024_words() {
    let mut stack = Stack::new();
    for i in 0..1024u64 {
        stack.push(Word::from_u64(i)).unwrap();
    }
    assert_eq!(stack.push(Word::zero()), Err(StackError::Overflow));
    assert_eq!(stack.len(), 1024);
    let mut stack = Stack::new();
    for _ in 0..1024 {
        stack.push(Word::zero()).unwrap();
    }
    assert!(matches!(
        Operation::Push0.apply(&mut stack, &mut Memory::new(), &empty_context()),
        Err(Error::Stack(StackError::Overflow))
    ));
}

#[test]
fn pop_returns_last_pushed() {
    let mut stack = Stack::new();
    assert_eq!(stack.pop(), Err(StackError::Underflow));
    stack.push(Word::from_u64(1)).unwrap();
    stack.push(Word::from_u64(2)).unwrap();
    assert_eq!(stack.pop(), Ok(Word::from_u64(2)));
    assert_eq!(stack.pop(), Ok(Word::from_u64(1)));
}

#[test]
fn gas_tiers() {
    assert_eq!(Operation::Stop.gas_schedule_cost(), Some(0));
    assert_eq!(Operation::Push0.gas_schedule_cost(), Some(2));
    assert_eq!(Operation::Add.gas_schedule_cost(), Some(3));
    assert_eq!(Operation::Push7([0; 7]).gas_schedule_cost(), Some(3));
    assert_eq!(Operation::Dup16.gas_schedule_cost(), Some(3));
    assert_eq!(Operation::Swap1.gas_schedule_cost(), Some(3));
    assert_eq!(Operation::Mul.gas_schedule_cost(), Some(5));
    assert_eq!(Operation::Addmod.gas_schedule_cost(), Some(8));
    assert_eq!(Operation::JumpI.gas_schedule_cost(), Some(10));
    assert_eq!(Operation::Keccack256.gas_schedule_cost(), None);
    assert_eq!(Operation::Keccack256.gas_used(), None);
    assert_eq!(Operation::JumpI.gas_used(), Some(Word::from_u64(10)));
}

#[test]
fn classification() {
    assert_eq!(Operation::Push0.get_push_size(), Some(0));
    assert_eq!(Operation::Push32([0; 32]).get_push_size(), Some(32));
    assert_eq!(Operation::Add.get_push_size(), None);
    assert!(Operation::Push0.is_push());
    assert!(!Operation::Dup1.is_push());
    assert!(Operation::Dup1.is_dup());
    assert!(!Operation::Swap1.is_dup());
    assert!(Operation::Swap16.is_swap());
    assert!(!Operation::Dup16.is_swap());
    assert_eq!(Operation::Push5([0; 5]).program_counter_increment(), 6);
    assert_eq!(Operation::Push0.program_counter_increment(), 1);
    assert_eq!(Operation::Stop.program_counter_increment(), 1);
}

#[test]
fn word_arithmetic() {
    assert_eq!(
        Word::from_u64(u64::MAX).wrapping_add(&Word::from_u64(1)),
        Word::from_be_slice(&[1, 0, 0, 0, 0, 0, 0, 0, 0])
    );
    assert_eq!(Word::max_value().checked_add(&Word::from_u64(1)), None);
    assert_eq!(
        Word::from_u64(40).checked_add(&Word::from_u64(2)),
        Some(Word::from_u64(42))
    );
    assert_eq!(Word::from_be_slice(&[]), Word::zero());
    assert_eq!(word_with_low_byte(9), Word::from_u64(9));
}

#[test]
fn memory_grows_in_words() {
    let mut memory = Memory::new();
    assert_eq!(memory.active_word_count(), 0);
    assert_eq!(memory.read(5, 2), vec![0, 0]);
    assert_eq!(memory.active_word_count(), 1);
    memory.write(31, &[1, 2]);
    assert_eq!(memory.active_word_count(), 2);
    assert_eq!(memory.read(30, 4), vec![0, 1, 2, 0]);
    assert_eq!(memory.read(100, 0), Vec::<u8>::new());
    assert_eq!(memory.active_word_count(), 2);
    memory.expand(65);
    assert_eq!(memory.active_word_count(), 3);
}

#[test]
fn storage_keeps_last_value_per_key() {
    let mut storage = Storage::new();
    assert_eq!(storage.get(&Word::from_u64(1)), None);
    storage.insert(Word::from_u64(1), Word::from_u64(10));
    storage.insert(Word::from_u64(2), Word::from_u64(20));
    storage.insert(Word::from_u64(1), Word::from_u64(11));
    assert_eq!(storage.get(&Word::from_u64(1)), Some(Word::from_u64(11)));
    assert_eq!(storage.get(&Word::from_u64(2)), Some(Word::from_u64(20)));
}

#[test]
fn state_lookup_by_address() {
    let mut state = State::new();
    let a = Address { bytes: [1u8; 20] };
    let b = Address { bytes: [2u8; 20] };
    state.insert(a, Account::new());
    state.insert(b, Account::new());
    assert_eq!(state.lookup(&a), Some(0));
    assert_eq!(state.lookup(&b), Some(1));
    assert_eq!(state.lookup(&Address::zero()), None);
    let mut replacement = Account::new();
    replacement.balance = Word::from_u64(5);
    state.insert(b, replacement);
    assert_eq!(state.len(), 2);
    assert_eq!(state.account(1).balance, Word::from_u64(5));
}

#[test]
fn failing_instruction_keeps_earlier_work() {
    let context = context_with_code(Bytecode::try_from("600501").unwrap());
    let mut frame = Frame::from_context(&context);
    let result = frame.run(&context);
    assert!(matches!(result, Err(Error::Stack(StackError::Underflow))));
    assert_eq!(frame.gas_used, Word::from_u64(3));
    assert_eq!(frame.program_counter, 2);
    assert_eq!(frame.operation_counter, 1);
    assert_eq!(frame.stack.len(), 1);
    assert_eq!(frame.stack.get(0), Word::from_u64(5));
}

#[test]
fn execution_keeps_transaction_fields() {
    let mut context = empty_context();
    context.transaction.gas_limit = Word::from_u64(21000);
    context.transaction.value = Word::from_u64(4);
    let execution = Interpreter::new().execute(context).unwrap();
    assert_eq!(execution.frame.gas_limit, Word::from_u64(21000));
    assert_eq!(execution.frame.value, Word::from_u64(4));
    assert_eq!(execution.frame.account, Some(0));
    assert_eq!(execution.frame.gas_used, Word::zero());
}
