use crate::interpreter::Account;
use crate::operations::Operation;
use crate::primitives::{Address, Word};
use vstd::prelude::*;

verus! {

/// The accounts that an execution sees, each under its own address.
#[derive(Debug)]
pub struct State {
    addresses: Vec<Address>,
    accounts: Vec<Account>,
}

/// The index of the first of `addresses` from `i` on that equals `address`.
pub open spec fn first_match(addresses: Seq<Address>, address: Address, i: int) -> Option<int>
    decreases addresses.len() - i,
{
    if i < 0 || i >= addresses.len() {
        None
    } else if addresses[i].bytes@ == address.bytes@ {
        Some(i)
    } else {
        first_match(addresses, address, i + 1)
    }
}

pub proof fn lemma_first_match_in_range(addresses: Seq<Address>, address: Address, i: int)
    ensures
        first_match(addresses, address, i) matches Some(j) ==> 0 <= i <= j < addresses.len()
            && addresses[j].bytes@ == address.bytes@,
    decreases addresses.len() - i,
{
    if 0 <= i < addresses.len() && addresses[i].bytes@ != address.bytes@ {
        lemma_first_match_in_range(addresses, address, i + 1);
    }
}

impl State {
    /// The addresses, one per account, in the order of insertion.
    pub closed spec fn addresses(&self) -> Seq<Address> {
        self.addresses@
    }

    /// The accounts, each at the index of its address.
    pub closed spec fn accounts(&self) -> Seq<Account> {
        self.accounts@
    }

    /// One account per address, and no address twice.
    pub closed spec fn wf(&self) -> bool {
        &&& self.addresses@.len() == self.accounts@.len()
        &&& forall|i: int, j: int|
            0 <= i < j < self.addresses@.len() ==> self.addresses@[i].bytes@
                != self.addresses@[j].bytes@
    }

    /// The handle of the account at `address`, if there is one.
    pub open spec fn handle_of(&self, address: Address) -> Option<int> {
        first_match(self.addresses(), address, 0)
    }

    pub fn new() -> (r: State)
        ensures
            r.wf(),
            r.addresses().len() == 0,
            r.accounts().len() == 0,
    {
        State { addresses: Vec::new(), accounts: Vec::new() }
    }

    /// The number of accounts.
    pub fn len(&self) -> (r: usize)
        requires
            self.wf(),
        ensures
            r == self.accounts().len(),
    {
        self.accounts.len()
    }

    /// The handle of the account at `address`.
    pub fn lookup(&self, address: &Address) -> (r: Option<usize>)
        requires
            self.wf(),
        ensures
            r is None <==> self.handle_of(*address) is None,
            r matches Some(i) ==> self.handle_of(*address) == Some(i as int) && i < self.accounts().len(),
            r is None ==> forall|k: int|
                0 <= k < self.addresses().len() ==> self.addresses()[k].bytes@ != address.bytes@,
    {
        let mut i: usize = 0;
        while i < self.addresses.len()
            invariant
                self.wf(),
                0 <= i <= self.addresses@.len(),
                first_match(self.addresses@, *address, 0) == first_match(
                    self.addresses@,
                    *address,
                    i as int,
                ),
                forall|k: int| 0 <= k < i ==> self.addresses@[k].bytes@ != address.bytes@,
            decreases self.addresses@.len() - i,
        {
            if self.addresses[i] == *address {
                return Some(i);
            }
            i = i + 1;
        }
        None
    }

    /// The account behind `handle`.
    pub fn account(&self, handle: usize) -> (r: &Account)
        requires
            self.wf(),
            handle < self.accounts().len(),
        ensures
            *r == self.accounts()[handle as int],
    {
        &self.accounts[handle]
    }

    /// Puts `account` at `address`, replacing the account that was there.
    pub fn insert(&mut self, address: Address, account: Account)
        requires
            old(self).wf(),
        ensures
            final(self).wf(),
            match old(self).handle_of(address) {
                Some(i) => final(self).addresses() == old(self).addresses() && final(self).accounts()
                    == old(self).accounts().update(i, account),
                None => final(self).addresses() == old(self).addresses().push(address)
                    && final(self).accounts() == old(self).accounts().push(account),
            },
    {
        proof {
            lemma_first_match_in_range(self.addresses@, address, 0);
        }
        match self.lookup(&address) {
            Some(i) => {
                self.accounts.remove(i);
                self.accounts.insert(i, account);
                assert(self.accounts@ =~= old(self).accounts@.update(i as int, account));
            },
            None => {
                self.addresses.push(address);
                self.accounts.push(account);
            },
        }
    }
}

/// Block metadata.
#[derive(Debug)]
pub struct Block {}

/// The transaction being executed.
#[derive(Debug)]
pub struct Transaction {
    pub gas_limit: Word,
    pub gas_price: Word,
    pub sender: Address,
    pub recipient: Address,
    pub value: Word,
    pub input: Vec<u8>,
}

/// The registry of precompiled contracts.
#[derive(Debug)]
pub struct Precompiles {}

/// Everything one execution reads from its environment.
#[derive(Debug)]
pub struct Context {
    pub block: Block,
    pub transaction: Transaction,
    pub precompiles: Precompiles,
    pub state: State,
}

impl Context {
    /// The code that runs: that of the recipient's account, or none where it has no account.
    pub open spec fn recipient_code(&self) -> Seq<Operation> {
        match self.state.handle_of(self.transaction.recipient) {
            Some(i) => self.state.accounts()[i].code@,
            None => Seq::empty(),
        }
    }
}

} // verus!
