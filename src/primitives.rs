use vstd::arithmetic::div_mod::lemma_fundamental_div_mod_converse_mod;
use vstd::prelude::*;

verus! {

/// Number of bytes in a machine word.
pub const WORD_BYTES: usize = 32;

/// `256^n`.
pub open spec fn pow256(n: nat) -> nat
    decreases n,
{
    if n == 0 {
        1
    } else {
        256 * pow256((n - 1) as nat)
    }
}

/// The number of distinct word values, `2^256`.
pub open spec fn word_modulus() -> nat {
    pow256(32)
}

/// The unsigned integer that a byte sequence denotes, most significant byte first.
pub open spec fn be_value(s: Seq<u8>) -> nat
    decreases s.len(),
{
    if s.len() == 0 {
        0
    } else {
        s[0] as nat * pow256((s.len() - 1) as nat) + be_value(s.skip(1))
    }
}

/// `n` zero bytes.
pub open spec fn zero_bytes(n: nat) -> Seq<u8> {
    Seq::new(n, |i: int| 0u8)
}

pub proof fn lemma_pow256_positive(n: nat)
    ensures
        pow256(n) > 0,
    decreases n,
{
    if n > 0 {
        lemma_pow256_positive((n - 1) as nat);
    }
}

pub proof fn lemma_be_value_bound(s: Seq<u8>)
    ensures
        be_value(s) < pow256(s.len()),
    decreases s.len(),
{
    if s.len() > 0 {
        let p = pow256((s.len() - 1) as nat);
        lemma_be_value_bound(s.skip(1));
        let d = s[0] as nat;
        let rest = be_value(s.skip(1));
        assert(d * p + rest < 256 * p) by (nonlinear_arith)
            requires
                d <= 255,
                rest < p,
        ;
    }
}

/// Leading zero bytes do not change the value.
pub proof fn lemma_be_value_zero_prefix(n: nat, t: Seq<u8>)
    ensures
        be_value(zero_bytes(n) + t) == be_value(t),
    decreases n,
{
    if n > 0 {
        let s = zero_bytes(n) + t;
        assert(s.skip(1) =~= zero_bytes((n - 1) as nat) + t);
        assert(s[0] == 0u8);
        lemma_be_value_zero_prefix((n - 1) as nat, t);
        assert(be_value(s) == 0 * pow256((s.len() - 1) as nat) + be_value(s.skip(1)));
    }
}

/// Splits off the first byte of the suffix of `s` that starts at `i`.
pub proof fn lemma_be_value_suffix(s: Seq<u8>, i: int)
    requires
        0 <= i < s.len(),
    ensures
        be_value(s.subrange(i, s.len() as int)) == s[i] as nat * pow256((s.len() - i - 1) as nat)
            + be_value(s.subrange(i + 1, s.len() as int)),
{
    assert(s.subrange(i, s.len() as int).skip(1) =~= s.subrange(i + 1, s.len() as int));
}

/// A byte sequence of all `0xff` denotes the largest value of its length.
pub proof fn lemma_be_value_all_ones(n: nat)
    ensures
        be_value(Seq::new(n, |i: int| 0xffu8)) + 1 == pow256(n),
    decreases n,
{
    if n > 0 {
        let s = Seq::new(n, |i: int| 0xffu8);
        assert(s.skip(1) =~= Seq::new((n - 1) as nat, |i: int| 0xffu8));
        assert(s[0] == 0xffu8);
        lemma_be_value_all_ones((n - 1) as nat);
        assert(be_value(s) == 255 * pow256((n - 1) as nat) + be_value(s.skip(1)));
    }
}

/// A 256-bit unsigned integer, held as 32 bytes with the most significant first.
#[derive(Clone, Copy, Debug, Hash)]
pub struct Word {
    pub bytes: [u8; 32],
}

impl View for Word {
    type V = nat;

    open spec fn view(&self) -> nat {
        be_value(self.bytes@)
    }
}

impl PartialEq for Word {
    fn eq(&self, other: &Word) -> (r: bool) {
        let mut i: usize = 0;
        while i < WORD_BYTES
            invariant
                0 <= i <= WORD_BYTES,
                forall|k: int| 0 <= k < i ==> self.bytes@[k] == other.bytes@[k],
            decreases WORD_BYTES - i,
        {
            if self.bytes[i] != other.bytes[i] {
                return false;
            }
            i = i + 1;
        }
        assert(self.bytes@ =~= other.bytes@);
        true
    }
}

impl vstd::std_specs::cmp::PartialEqSpecImpl for Word {
    open spec fn obeys_eq_spec() -> bool {
        true
    }

    open spec fn eq_spec(&self, other: &Word) -> bool {
        self.bytes@ == other.bytes@
    }
}

impl Eq for Word {

}

impl Word {
    /// Every word denotes a value below `2^256`.
    pub proof fn lemma_bounded(&self)
        ensures
            self@ < word_modulus(),
    {
        lemma_be_value_bound(self.bytes@);
    }

    /// The word of value zero.
    pub fn zero() -> (r: Word)
        ensures
            r@ == 0,
    {
        let r = Word { bytes: [0u8; 32] };
        proof {
            assert(r.bytes@ =~= zero_bytes(32) + r.bytes@.subrange(32, 32));
            lemma_be_value_zero_prefix(32, r.bytes@.subrange(32, 32));
        }
        r
    }

    /// The largest word, `2^256 - 1`.
    pub fn max_value() -> (r: Word)
        ensures
            r@ + 1 == word_modulus(),
    {
        let r = Word { bytes: [0xffu8; 32] };
        proof {
            assert(r.bytes@ =~= Seq::new(32, |i: int| 0xffu8));
            lemma_be_value_all_ones(32);
        }
        r
    }

    /// The word whose value is the big-endian reading of `bytes`, zero-extended on the left.
    pub fn from_be_slice(bytes: &[u8]) -> (r: Word)
        requires
            bytes@.len() <= 32,
        ensures
            r@ == be_value(bytes@),
    {
        let n = bytes.len();
        let start: usize = WORD_BYTES - n;
        let mut out = [0u8; 32];
        let mut j: usize = 0;
        while j < n
            invariant
                n == bytes@.len(),
                n <= 32,
                start == 32 - n,
                0 <= j <= n,
                forall|k: int| 0 <= k < start ==> out@[k] == 0u8,
                forall|k: int| 0 <= k < j ==> out@[start + k] == bytes@[k],
            decreases n - j,
        {
            out[start + j] = bytes[j];
            j = j + 1;
        }
        assert(out@ =~= zero_bytes(start as nat) + bytes@);
        proof {
            lemma_be_value_zero_prefix(start as nat, bytes@);
        }
        Word { bytes: out }
    }

    /// The word of value `v`.
    pub fn from_u64(v: u64) -> (r: Word)
        ensures
            r@ == v as nat,
    {
        let mut out = [0u8; 32];
        let mut x: u64 = v;
        let mut i: usize = 0;
        assert(out@.subrange(32, 32).len() == 0);
        assert(pow256(0) == 1);
        while i < 8
            invariant
                0 <= i <= 8,
                forall|k: int| 0 <= k < 32 - i ==> out@[k] == 0u8,
                be_value(out@.subrange(32 - i, 32)) + x as nat * pow256(i as nat) == v as nat,
            decreases 8 - i,
        {
            let pos: usize = 31 - i;
            let old_out = out;
            let d: u64 = x % 256;
            out[pos] = d as u8;
            proof {
                assert(out@.subrange(pos + 1, 32) =~= old_out@.subrange(pos + 1, 32));
                lemma_be_value_suffix(out@, pos as int);
                let p = pow256(i as nat);
                assert(pow256((i + 1) as nat) == 256 * p);
                let xn = x as nat;
                assert(d as nat * p + (xn / 256) * (256 * p) == xn * p) by (nonlinear_arith)
                    requires
                        d as nat == xn % 256,
                ;
            }
            x = x / 256;
            i = i + 1;
        }
        proof {
            reveal_with_fuel(pow256, 9);
            assert(pow256(8) == 0x1_0000_0000_0000_0000nat);
            lemma_be_value_bound(out@.subrange(24, 32));
            assert(x == 0) by (nonlinear_arith)
                requires
                    (x as nat) * 0x1_0000_0000_0000_0000nat <= v as nat,
                    v as nat <= 0xffff_ffff_ffff_ffffnat,
            ;
            assert(out@ =~= zero_bytes(24) + out@.subrange(24, 32));
            lemma_be_value_zero_prefix(24, out@.subrange(24, 32));
        }
        Word { bytes: out }
    }

    /// Sum of two words with the carry out of the top byte.
    fn add_with_carry(&self, other: &Word) -> (r: (Word, bool))
        ensures
            r.0@ + (if r.1 {
                word_modulus()
            } else {
                0
            }) == self@ + other@,
    {
        let mut out = [0u8; 32];
        let mut carry: u16 = 0;
        let mut i: usize = WORD_BYTES;
        while i > 0
            invariant
                0 <= i <= 32,
                carry <= 1,
                be_value(out@.subrange(i as int, 32)) + carry as nat * pow256((32 - i) as nat)
                    == be_value(self.bytes@.subrange(i as int, 32)) + be_value(
                    other.bytes@.subrange(i as int, 32),
                ),
            decreases i,
        {
            i = i - 1;
            let s: u16 = self.bytes[i] as u16 + other.bytes[i] as u16 + carry;
            let old_out = out;
            out[i] = (s % 256) as u8;
            proof {
                assert(out@.subrange(i + 1, 32) =~= old_out@.subrange(i + 1, 32));
                lemma_be_value_suffix(out@, i as int);
                lemma_be_value_suffix(self.bytes@, i as int);
                lemma_be_value_suffix(other.bytes@, i as int);
                let p = pow256((32 - i - 1) as nat);
                assert(pow256((32 - i) as nat) == 256 * p);
                let sn = s as nat;
                assert((sn % 256) * p + (sn / 256) * (256 * p) == sn * p) by (nonlinear_arith);
                assert(sn * p == self.bytes@[i as int] as nat * p + other.bytes@[i as int] as nat
                    * p + carry as nat * p) by (nonlinear_arith)
                    requires
                        sn == self.bytes@[i as int] as nat + other.bytes@[i as int] as nat
                            + carry as nat,
                ;
            }
            carry = s / 256;
        }
        proof {
            assert(out@.subrange(0, 32) =~= out@);
            assert(self.bytes@.subrange(0, 32) =~= self.bytes@);
            assert(other.bytes@.subrange(0, 32) =~= other.bytes@);
        }
        (Word { bytes: out }, carry == 1)
    }

    /// Program arithmetic: the sum modulo `2^256`.
    pub fn wrapping_add(&self, other: &Word) -> (r: Word)
        ensures
            r@ == (self@ + other@) % word_modulus(),
    {
        let (sum, carry) = self.add_with_carry(other);
        proof {
            sum.lemma_bounded();
            lemma_pow256_positive(32);
            let q: int = if carry {
                1
            } else {
                0
            };
            lemma_fundamental_div_mod_converse_mod(
                self@ + other@ as int,
                word_modulus() as int,
                q,
                sum@ as int,
            );
        }
        sum
    }

    /// Accounting arithmetic: the sum, or `None` where it does not fit in a word.
    pub fn checked_add(&self, other: &Word) -> (r: Option<Word>)
        ensures
            r is Some <==> self@ + other@ < word_modulus(),
            r matches Some(w) ==> w@ == self@ + other@,
    {
        let (sum, carry) = self.add_with_carry(other);
        proof {
            sum.lemma_bounded();
        }
        if carry {
            None
        } else {
            Some(sum)
        }
    }
}

/// An account address: 20 bytes.
#[derive(Clone, Copy, Debug, Hash)]
pub struct Address {
    pub bytes: [u8; 20],
}

impl PartialEq for Address {
    fn eq(&self, other: &Address) -> (r: bool) {
        let mut i: usize = 0;
        while i < 20
            invariant
                0 <= i <= 20,
                forall|k: int| 0 <= k < i ==> self.bytes@[k] == other.bytes@[k],
            decreases 20 - i,
        {
            if self.bytes[i] != other.bytes[i] {
                return false;
            }
            i = i + 1;
        }
        assert(self.bytes@ =~= other.bytes@);
        true
    }
}

impl vstd::std_specs::cmp::PartialEqSpecImpl for Address {
    open spec fn obeys_eq_spec() -> bool {
        true
    }

    open spec fn eq_spec(&self, other: &Address) -> bool {
        self.bytes@ == other.bytes@
    }
}

impl Eq for Address {

}

impl Address {
    /// The all-zero address.
    pub fn zero() -> (r: Address)
        ensures
            r.bytes@ == zero_bytes(20),
    {
        let r = Address { bytes: [0u8; 20] };
        assert(r.bytes@ =~= zero_bytes(20));
        r
    }
}

} // verus!
