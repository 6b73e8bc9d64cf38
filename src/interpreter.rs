use crate::bytecode::Bytecode;
use crate::context::Context;
use crate::error::Error;
use crate::operations::{effect, Operation, OperationResult};
use crate::context::State;
use crate::primitives::{word_modulus, zero_bytes, Address, Word};
use crate::storage::Storage;
use vstd::prelude::*;

verus! {

/// Most words that a stack may hold.
pub const MAXIMUM_STACK_SIZE: usize = 1024;

/// Why a stack operation failed.
#[derive(Clone, Copy, Debug, PartialEq, Eq, Structural)]
pub enum StackError {
    Underflow,
    Overflow,
}

/// The operand stack: at most `MAXIMUM_STACK_SIZE` words, last in, first out.
#[derive(Debug)]
pub struct Stack {
    words: Vec<Word>,
}

impl View for Stack {
    type V = Seq<nat>;

    /// The values on the stack, bottom first.
    closed spec fn view(&self) -> Seq<nat> {
        self.words@.map_values(|w: Word| w@)
    }
}

impl Stack {
    pub fn new() -> (r: Stack)
        ensures
            r@ == Seq::<nat>::empty(),
    {
        let r = Stack { words: Vec::new() };
        assert(r@ =~= Seq::<nat>::empty());
        r
    }

    pub fn len(&self) -> (r: usize)
        ensures
            r == self@.len(),
    {
        self.words.len()
    }

    /// The word at position `i`, counted from the bottom.
    pub fn get(&self, i: usize) -> (r: Word)
        requires
            i < self@.len(),
        ensures
            r@ == self@[i as int],
    {
        self.words[i]
    }

    /// Pushes `word`, or fails with `Overflow` when the stack is full.
    pub fn push(&mut self, word: Word) -> (r: Result<(), StackError>)
        ensures
            old(self)@.len() < MAXIMUM_STACK_SIZE ==> r is Ok && final(self)@ == old(self)@.push(
                word@,
            ),
            old(self)@.len() >= MAXIMUM_STACK_SIZE ==> r == Err::<(), StackError>(
                StackError::Overflow,
            ) && final(self)@ == old(self)@,
    {
        if self.words.len() >= MAXIMUM_STACK_SIZE {
            return Err(StackError::Overflow);
        }
        self.words.push(word);
        assert(self@ =~= old(self)@.push(word@));
        Ok(())
    }

    /// Removes and returns the top word, or fails with `Underflow` when the stack is empty.
    pub fn pop(&mut self) -> (r: Result<Word, StackError>)
        ensures
            old(self)@.len() > 0 ==> (r matches Ok(w) && w@ == old(self)@.last() && final(self)@
                == old(self)@.drop_last()),
            old(self)@.len() == 0 ==> r == Err::<Word, StackError>(StackError::Underflow)
                && final(self)@ == old(self)@,
    {
        match self.words.pop() {
            Some(w) => {
                assert(self@ =~= old(self)@.drop_last());
                Ok(w)
            },
            None => Err(StackError::Underflow),
        }
    }
}

/// Byte-addressed scratch memory that grows in 32-byte words.
#[derive(Debug)]
pub struct Memory {
    data: Vec<u8>,
    active_word_count: usize,
}

impl View for Memory {
    type V = Seq<u8>;

    /// The bytes of memory allocated so far.
    closed spec fn view(&self) -> Seq<u8> {
        self.data@
    }
}

/// The length of memory of `len` bytes after an access that ends at byte `end`: the
/// smallest multiple of 32 that covers `end`, where that is more than `len`.
pub open spec fn grown_len(len: nat, end: nat) -> nat {
    if end <= len {
        len
    } else {
        ((end + 31) / 32 * 32) as nat
    }
}

/// Memory `m` after an access that ends at byte `end`: zero bytes appended up to `grown_len`.
pub open spec fn grown(m: Seq<u8>, end: nat) -> Seq<u8> {
    m + zero_bytes((grown_len(m.len(), end) - m.len()) as nat)
}

impl Memory {
    /// Memory is whole words, and the active word count is their number.
    pub closed spec fn wf(&self) -> bool {
        &&& self.data@.len() % 32 == 0
        &&& self.active_word_count == self.data@.len() / 32
    }

    pub fn new() -> (r: Memory)
        ensures
            r.wf(),
            r@.len() == 0,
    {
        Memory { data: Vec::new(), active_word_count: 0 }
    }

    /// The number of 32-byte words in use.
    pub fn active_word_count(&self) -> (r: usize)
        requires
            self.wf(),
        ensures
            r == self@.len() / 32,
    {
        self.active_word_count
    }

    /// Grows memory to cover the bytes before `end`.
    pub fn expand(&mut self, end: usize)
        requires
            old(self).wf(),
            end <= usize::MAX - 31,
        ensures
            final(self).wf(),
            final(self)@ == grown(old(self)@, end as nat),
    {
        let len = self.data.len();
        if end <= len {
            assert(self.data@ =~= grown(old(self)@, end as nat));
            return;
        }
        let target: usize = (end + 31) / 32 * 32;
        while self.data.len() < target
            invariant
                len == old(self).data@.len(),
                len < target,
                self.data@.len() <= target,
                self.data@ == old(self).data@ + zero_bytes((self.data@.len() - len) as nat),
            decreases target - self.data@.len(),
        {
            self.data.push(0);
            assert(self.data@ =~= old(self).data@ + zero_bytes((self.data@.len() - len) as nat));
        }
        self.active_word_count = target / 32;
        assert(self.data@ =~= grown(old(self)@, end as nat));
    }

    /// The `size` bytes from `offset` on, growing memory to cover them; zero where
    /// nothing was written.
    pub fn read(&mut self, offset: usize, size: usize) -> (r: Vec<u8>)
        requires
            old(self).wf(),
            offset + size <= usize::MAX - 31,
        ensures
            final(self).wf(),
            final(self)@ == (if size == 0 {
                old(self)@
            } else {
                grown(old(self)@, (offset + size) as nat)
            }),
            r@.len() == size,
            forall|k: int| 0 <= k < size ==> r@[k] == final(self)@[offset + k],
    {
        let mut out: Vec<u8> = Vec::new();
        if size == 0 {
            return out;
        }
        self.expand(offset + size);
        let mut k: usize = 0;
        while k < size
            invariant
                self.wf(),
                self@.len() >= offset + size,
                offset + size <= usize::MAX - 31,
                0 <= k <= size,
                out@.len() == k,
                forall|j: int| 0 <= j < k ==> out@[j] == self@[offset + j],
            decreases size - k,
        {
            out.push(self.data[offset + k]);
            k = k + 1;
        }
        out
    }

    /// Writes `bytes` from `offset` on, growing memory to cover them.
    pub fn write(&mut self, offset: usize, bytes: &[u8])
        requires
            old(self).wf(),
            offset + bytes@.len() <= usize::MAX - 31,
        ensures
            final(self).wf(),
            ({
                let base = if bytes@.len() == 0 {
                    old(self)@
                } else {
                    grown(old(self)@, (offset + bytes@.len()) as nat)
                };
                &&& final(self)@.len() == base.len()
                &&& forall|k: int|
                    0 <= k < base.len() ==> final(self)@[k] == (if offset <= k < offset
                        + bytes@.len() {
                        bytes@[k - offset]
                    } else {
                        base[k]
                    })
            }),
    {
        let n = bytes.len();
        if n == 0 {
            return;
        }
        self.expand(offset + n);
        let ghost base = self@;
        let mut k: usize = 0;
        while k < n
            invariant
                self.wf(),
                n == bytes@.len(),
                base.len() >= offset + n,
                offset + n <= usize::MAX - 31,
                self@.len() == base.len(),
                0 <= k <= n,
                forall|j: int|
                    0 <= j < base.len() ==> self@[j] == (if offset <= j < offset + k {
                        bytes@[j - offset]
                    } else {
                        base[j]
                    }),
            decreases n - k,
        {
            self.data.set(offset + k, bytes[k]);
            k = k + 1;
        }
    }
}

/// An account: balance, nonce, persistent storage and code.
#[derive(Debug)]
pub struct Account {
    pub balance: Word,
    pub nonce: Word,
    pub storage: Storage,
    pub code: Bytecode,
}

impl Account {
    /// An account with zero balance and nonce, empty storage and no code.
    pub fn new() -> (r: Account)
        ensures
            r.balance@ == 0,
            r.nonce@ == 0,
            r.storage.wf(),
            r.storage@.len() == 0,
            r.code@.len() == 0,
    {
        Account { balance: Word::zero(), nonce: Word::zero(), storage: Storage::new(), code: Bytecode::new() }
    }
}

/// The part of a frame that executing an instruction changes.
pub struct MachineState {
    pub stack: Seq<nat>,
    pub gas_used: nat,
    pub program_counter: nat,
    pub operation_counter: nat,
}

/// Executes `op` in state `s`: its effect on the stack, then its gas and counters.
pub open spec fn step(s: MachineState, op: Operation) -> Result<MachineState, Error> {
    match effect(op, s.stack) {
        Err(e) => Err(e),
        Ok(stack) => {
            let gas_used = s.gas_used + op.gas_cost()->0;
            if gas_used >= word_modulus() {
                Err(Error::GasUsedOverflow)
            } else {
                Ok(
                    MachineState {
                        stack,
                        gas_used,
                        program_counter: s.program_counter + op.pc_increment(),
                        operation_counter: s.operation_counter + 1,
                    },
                )
            }
        },
    }
}

/// Executes `code` from instruction `s.operation_counter` until it runs out or fails.
pub open spec fn run_from(s: MachineState, code: Seq<Operation>) -> Result<MachineState, Error>
    decreases code.len() - s.operation_counter,
{
    if s.operation_counter >= code.len() {
        Ok(s)
    } else {
        match step(s, code[s.operation_counter as int]) {
            Err(e) => Err(e),
            Ok(next) => run_from(next, code),
        }
    }
}

/// The gas that the instructions of `code` from index `i` on cost together.
pub open spec fn gas_sum(code: Seq<Operation>, i: int) -> nat
    decreases code.len() - i,
{
    if i < 0 || i >= code.len() {
        0
    } else {
        code[i].gas_cost()->0 + gas_sum(code, i + 1)
    }
}

/// Gas accounting never wraps: a run that succeeds has added exactly the cost of every
/// instruction it executed, and a run whose costs would take the total past the largest
/// word fails.
pub proof fn lemma_run_gas_checked(s: MachineState, code: Seq<Operation>)
    requires
        s.gas_used < word_modulus(),
    ensures
        run_from(s, code) matches Ok(t) ==> t.gas_used == s.gas_used + gas_sum(
            code,
            s.operation_counter as int,
        ) && t.gas_used < word_modulus(),
        s.gas_used + gas_sum(code, s.operation_counter as int) >= word_modulus() ==> run_from(
            s,
            code,
        ) is Err,
    decreases code.len() - s.operation_counter,
{
    if s.operation_counter < code.len() {
        match step(s, code[s.operation_counter as int]) {
            Err(_) => {},
            Ok(next) => {
                lemma_run_gas_checked(next, code);
            },
        }
    }
}

/// The state that a failing `op` leaves in `s`: an instruction whose effect fails changes
/// nothing; one whose gas no longer fits has changed the stack but no counter.
pub open spec fn failed_step(s: MachineState, op: Operation) -> MachineState {
    match effect(op, s.stack) {
        Err(_) => s,
        Ok(stack) => MachineState { stack, ..s },
    }
}

/// The state in which running `code` from `s` stops: at the end of the code, or where an
/// instruction fails, with the work of the instructions before it kept.
pub open spec fn stop_state(s: MachineState, code: Seq<Operation>) -> MachineState
    decreases code.len() - s.operation_counter,
{
    if s.operation_counter >= code.len() {
        s
    } else {
        match step(s, code[s.operation_counter as int]) {
            Err(_) => failed_step(s, code[s.operation_counter as int]),
            Ok(next) => stop_state(next, code),
        }
    }
}

/// One call's execution context.
#[derive(Debug)]
pub struct Frame {
    pub caller: Address,
    pub value: Word,
    pub gas_limit: Word,
    /// Handle of the account whose code runs; `None` for an account with no code.
    pub account: Option<usize>,
    pub program_counter: usize,
    pub gas_used: Word,
    pub stack: Stack,
    pub memory: Memory,
    pub output: Vec<u8>,
    pub can_modify_state: bool,
    pub operation_counter: usize,
}

/// `a` and `b` agree on everything that running instructions leaves alone.
pub open spec fn same_environment(a: Frame, b: Frame) -> bool {
    &&& a.caller == b.caller
    &&& a.value == b.value
    &&& a.gas_limit == b.gas_limit
    &&& a.account == b.account
    &&& a.memory@ == b.memory@
    &&& a.output@ == b.output@
    &&& a.can_modify_state == b.can_modify_state
}

impl Frame {
    pub open spec fn machine(&self) -> MachineState {
        MachineState {
            stack: self.stack@,
            gas_used: self.gas_used@,
            program_counter: self.program_counter as nat,
            operation_counter: self.operation_counter as nat,
        }
    }

    /// The code that this frame runs, looked up in `state`.
    pub open spec fn code(&self, state: &State) -> Seq<Operation> {
        match self.account {
            Some(i) => if i < state.accounts().len() {
                state.accounts()[i as int].code@
            } else {
                Seq::empty()
            },
            None => Seq::empty(),
        }
    }

    /// The frame that starts a call of the transaction in `context`.
    pub fn from_context(context: &Context) -> (r: Frame)
        requires
            context.state.wf(),
        ensures
            r.machine() == (MachineState {
                stack: Seq::empty(),
                gas_used: 0,
                program_counter: 0,
                operation_counter: 0,
            }),
            r.code(&context.state) == context.recipient_code(),
            r.account is None <==> context.state.handle_of(context.transaction.recipient) is None,
            r.account matches Some(i) ==> context.state.handle_of(context.transaction.recipient)
                == Some(i as int),
            r.caller == context.transaction.sender,
            r.value == context.transaction.value,
            r.gas_limit == context.transaction.gas_limit,
            r.memory@.len() == 0,
            r.output@.len() == 0,
            !r.can_modify_state,
    {
        Frame {
            caller: context.transaction.sender,
            value: context.transaction.value,
            gas_limit: context.transaction.gas_limit,
            account: context.state.lookup(&context.transaction.recipient),
            program_counter: 0,
            gas_used: Word::zero(),
            stack: Stack::new(),
            memory: Memory::new(),
            output: Vec::new(),
            can_modify_state: false,
            operation_counter: 0,
        }
    }

    /// The instruction at the operation counter; `None` past the end of the code.
    pub fn next_operation(&self, context: &Context) -> (r: Option<Operation>)
        requires
            context.state.wf(),
        ensures
            r == (if self.operation_counter < self.code(&context.state).len() {
                Some(self.code(&context.state)[self.operation_counter as int])
            } else {
                None
            }),
            r is Some ==> self.operation_counter < usize::MAX,
    {
        let code = match self.account {
            Some(i) => if i < context.state.len() {
                &context.state.account(i).code
            } else {
                return None;
            },
            None => return None,
        };
        if self.operation_counter < code.0.len() {
            Some(code.0[self.operation_counter])
        } else {
            None
        }
    }

    /// Adds the instruction's gas with checked accounting and advances both counters.
    pub fn apply(&mut self, result: OperationResult) -> (r: Result<(), Error>)
        requires
            old(self).program_counter + result.program_counter_increment <= usize::MAX,
            old(self).operation_counter < usize::MAX,
        ensures
            old(self).gas_used@ + result.gas_used@ < word_modulus() ==> r is Ok
                && final(self).gas_used@ == old(self).gas_used@ + result.gas_used@
                && final(self).program_counter == old(self).program_counter
                + result.program_counter_increment && final(self).operation_counter
                == old(self).operation_counter + 1,
            old(self).gas_used@ + result.gas_used@ >= word_modulus() ==> r == Err::<(), Error>(
                Error::GasUsedOverflow,
            ) && final(self).gas_used == old(self).gas_used && final(self).program_counter
                == old(self).program_counter && final(self).operation_counter
                == old(self).operation_counter,
            final(self).stack@ == old(self).stack@,
            same_environment(*final(self), *old(self)),
    {
        self.gas_used = match self.gas_used.checked_add(&result.gas_used) {
            Some(total) => total,
            None => return Err(Error::GasUsedOverflow),
        };
        self.program_counter = self.program_counter + result.program_counter_increment;
        self.operation_counter = self.operation_counter + 1;
        Ok(())
    }

    /// Runs the frame until its code runs out or an instruction fails.
    pub fn run(&mut self, context: &Context) -> (r: Result<(), Error>)
        requires
            context.state.wf(),
            old(self).stack@.len() <= MAXIMUM_STACK_SIZE,
            old(self).program_counter + 33 * old(self).code(&context.state).len() <= usize::MAX,
        ensures
            match run_from(old(self).machine(), old(self).code(&context.state)) {
                Ok(s) => r is Ok && final(self).machine() == s,
                Err(e) => r == Err::<(), Error>(e),
            },
            final(self).machine() == stop_state(old(self).machine(), old(self).code(&context.state)),
            same_environment(*final(self), *old(self)),
    {
        let ghost code = self.code(&context.state);
        loop
            invariant
                context.state.wf(),
                code == self.code(&context.state),
                self.stack@.len() <= MAXIMUM_STACK_SIZE,
                self.operation_counter < code.len() ==> self.program_counter + 33 * (code.len()
                    - self.operation_counter) <= usize::MAX,
                run_from(self.machine(), code) == run_from(old(self).machine(), code),
                stop_state(self.machine(), code) == stop_state(old(self).machine(), code),
                same_environment(*self, *old(self)),
            decreases (if self.operation_counter < code.len() {
                code.len() - self.operation_counter
            } else {
                0
            }),
        {
            let operation = match self.next_operation(context) {
                Some(op) => op,
                None => return Ok(()),
            };
            let result = match self.dispatch_operation(operation, context) {
                Ok(result) => result,
                Err(e) => return Err(e),
            };
            match self.apply(result) {
                Ok(()) => {},
                Err(e) => return Err(e),
            }
        }
    }

    /// Executes `operation` against this frame's stack and memory.
    pub fn dispatch_operation(&mut self, operation: Operation, context: &Context) -> (r: Result<
        OperationResult,
        Error,
    >)
        requires
            old(self).stack@.len() <= MAXIMUM_STACK_SIZE,
        ensures
            match effect(operation, old(self).stack@) {
                Ok(s) => r matches Ok(res) && final(self).stack@ == s && res.of(operation),
                Err(e) => r == Err::<OperationResult, Error>(e) && final(self).stack@ == old(
                    self,
                ).stack@,
            },
            final(self).gas_used == old(self).gas_used,
            final(self).program_counter == old(self).program_counter,
            final(self).operation_counter == old(self).operation_counter,
            same_environment(*final(self), *old(self)),
    {
        operation.apply(&mut self.stack, &mut self.memory, context)
    }
}

/// The machine state in which every call starts.
pub open spec fn initial_machine() -> MachineState {
    MachineState { stack: Seq::empty(), gas_used: 0, program_counter: 0, operation_counter: 0 }
}

/// Owns the stack of call frames; the last frame is the active one.
#[derive(Debug)]
pub struct Interpreter {
    frames: Vec<Frame>,
}

/// The outcome of an execution: its context and the retired top frame.
#[derive(Debug)]
pub struct Execution {
    pub context: Context,
    pub frame: Frame,
}

impl Execution {
    /// The final stack and the output bytes of the top frame.
    pub fn output(&self) -> (r: (&Stack, &[u8]))
        ensures
            *r.0 == self.frame.stack,
            r.1@ == self.frame.output@,
    {
        (&self.frame.stack, self.frame.output.as_slice())
    }
}

impl Interpreter {
    /// The call frames, the active one last.
    pub closed spec fn frames(&self) -> Seq<Frame> {
        self.frames@
    }

    pub fn new() -> (r: Interpreter)
        ensures
            r.frames().len() == 0,
    {
        Interpreter { frames: Vec::new() }
    }

    /// Runs the transaction of `context` in a new frame and retires that frame.
    pub fn execute(self, context: Context) -> (r: Result<Execution, Error>)
        requires
            context.state.wf(),
            33 * context.recipient_code().len() <= usize::MAX,
        ensures
            match run_from(initial_machine(), context.recipient_code()) {
                Ok(s) => r matches Ok(execution) && execution.frame.machine() == s
                    && execution.context == context && execution.frame.output@.len() == 0
                    && execution.frame.caller == context.transaction.sender
                    && execution.frame.value == context.transaction.value
                    && execution.frame.gas_limit == context.transaction.gas_limit
                    && (execution.frame.account is None <==> context.state.handle_of(
                    context.transaction.recipient,
                ) is None) && (execution.frame.account matches Some(i) ==> context.state.handle_of(
                    context.transaction.recipient,
                ) == Some(i as int)),
                Err(e) => r == Err::<Execution, Error>(e),
            },
    {
        let mut interpreter = self;
        let frame = Frame::from_context(&context);
        interpreter.frames.push(frame);
        match interpreter.run(&context) {
            Ok(()) => {},
            Err(e) => return Err(e),
        }
        match interpreter.frames.pop() {
            Some(frame) => Ok(Execution { context, frame }),
            None => Err(Error::FrameUnderflow),
        }
    }

    /// Runs the active frame to completion; fails with `FrameUnderflow` when there is none.
    pub fn run(&mut self, context: &Context) -> (r: Result<(), Error>)
        requires
            context.state.wf(),
            old(self).frames().len() > 0 ==> old(self).frames().last().stack@.len()
                <= MAXIMUM_STACK_SIZE && old(self).frames().last().program_counter + 33 * old(
                self,
            ).frames().last().code(&context.state).len() <= usize::MAX,
        ensures
            old(self).frames().len() == 0 ==> r == Err::<(), Error>(Error::FrameUnderflow)
                && final(self).frames() == old(self).frames(),
            old(self).frames().len() > 0 ==> {
                let active = old(self).frames().last();
                &&& final(self).frames().len() == old(self).frames().len()
                &&& final(self).frames().drop_last() == old(self).frames().drop_last()
                &&& same_environment(final(self).frames().last(), active)
                &&& final(self).frames().last().machine() == stop_state(
                    active.machine(),
                    active.code(&context.state),
                )
                &&& match run_from(active.machine(), active.code(&context.state)) {
                    Ok(s) => r is Ok && final(self).frames().last().machine() == s,
                    Err(e) => r == Err::<(), Error>(e),
                }
            },
    {
        let mut frame = match self.frames.pop() {
            Some(f) => f,
            None => return Err(Error::FrameUnderflow),
        };
        let r = frame.run(context);
        self.frames.push(frame);
        r
    }
}

} // verus!
