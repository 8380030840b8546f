//! 256-bit values and their big-endian numeric ordering.

use vstd::prelude::*;

verus! {

/// A 256-bit value held as 32 bytes, most significant byte first.
///
/// Values of this type stand for submitted proofs, computed digests and the
/// difficulty target; they compare as big-endian unsigned integers.
#[derive(Debug)]
pub struct H256 {
    bytes: Vec<u8>,
}

/// 256 raised to `n`: the weight of a byte standing `n` places above the
/// least significant one.
pub open spec fn pow256(n: nat) -> nat
    decreases n,
{
    if n == 0 {
        1
    } else {
        256 * pow256((n - 1) as nat)
    }
}

/// The unsigned integer that a byte string denotes when read most
/// significant byte first.
pub open spec fn be_val(s: Seq<u8>) -> nat
    decreases s.len(),
{
    if s.len() == 0 {
        0
    } else {
        (s[0] as nat) * pow256((s.len() - 1) as nat) + be_val(s.skip(1))
    }
}

/// A byte string denotes a value below 256 to the power of its length.
pub proof fn lemma_be_val_bound(s: Seq<u8>)
    ensures
        be_val(s) < pow256(s.len()),
    decreases s.len(),
{
    if s.len() == 0 {
    } else {
        let p = pow256((s.len() - 1) as nat);
        lemma_be_val_bound(s.skip(1));
        assert((s[0] as nat) * p + be_val(s.skip(1)) < 256 * p) by (nonlinear_arith)
            requires
                be_val(s.skip(1)) < p,
                (s[0] as nat) <= 255,
        ;
    }
}

/// If two equally long byte strings agree up to position `i` and differ
/// there, the one with the smaller byte at `i` denotes the smaller value.
pub proof fn lemma_be_val_lt(a: Seq<u8>, b: Seq<u8>, i: int)
    requires
        a.len() == b.len(),
        0 <= i < a.len(),
        forall|j: int| 0 <= j < i ==> a[j] == b[j],
        (a[i] as nat) < (b[i] as nat),
    ensures
        be_val(a) < be_val(b),
    decreases i,
{
    let p = pow256((a.len() - 1) as nat);
    if i == 0 {
        lemma_be_val_bound(a.skip(1));
        assert((a[0] as nat) * p + be_val(a.skip(1)) < (b[0] as nat) * p + be_val(b.skip(1)))
            by (nonlinear_arith)
            requires
                be_val(a.skip(1)) < p,
                (a[0] as nat) < (b[0] as nat),
                be_val(b.skip(1)) >= 0,
        ;
    } else {
        assert(a[0] == b[0]);
        assert(forall|j: int| 0 <= j < i - 1 ==> a.skip(1)[j] == b.skip(1)[j]);
        assert(a.skip(1)[i - 1] == a[i]);
        assert(b.skip(1)[i - 1] == b[i]);
        lemma_be_val_lt(a.skip(1), b.skip(1), i - 1);
    }
}

impl View for H256 {
    type V = Seq<u8>;

    closed spec fn view(&self) -> Seq<u8> {
        self.bytes@
    }
}

impl H256 {
    /// The value holds exactly 32 bytes.
    pub open spec fn wf(&self) -> bool {
        self@.len() == 32
    }

    /// Wraps 32 given bytes, most significant first.
    pub fn from_vec(bytes: Vec<u8>) -> (r: H256)
        requires
            bytes@.len() == 32,
        ensures
            r.wf(),
            r@ == bytes@,
    {
        H256 { bytes }
    }

    /// The value whose 32 bytes all equal `b`.
    pub fn repeat_byte(b: u8) -> (r: H256)
        ensures
            r.wf(),
            forall|i: int| 0 <= i < 32 ==> r@[i] == b,
    {
        let mut bytes: Vec<u8> = Vec::new();
        let mut i: usize = 0;
        while i < 32
            invariant
                i <= 32,
                bytes@.len() == i,
                forall|j: int| 0 <= j < i ==> bytes@[j] == b,
            decreases 32 - i,
        {
            bytes.push(b);
            i = i + 1;
        }
        H256 { bytes }
    }

    /// The bytes, most significant first.
    pub fn as_bytes(&self) -> (r: &Vec<u8>)
        ensures
            r@ == self@,
    {
        &self.bytes
    }

    /// Whether `self`, read as a big-endian unsigned integer, is less than
    /// or equal to `other`. Equality is included.
    pub fn le(&self, other: &H256) -> (r: bool)
        requires
            self.wf(),
            other.wf(),
        ensures
            r == (be_val(self@) <= be_val(other@)),
    {
        let mut i: usize = 0;
        while i < 32
            invariant
                self.wf(),
                other.wf(),
                i <= 32,
                forall|j: int| 0 <= j < i ==> self@[j] == other@[j],
            decreases 32 - i,
        {
            let x = self.bytes[i];
            let y = other.bytes[i];
            if x < y {
                proof {
                    lemma_be_val_lt(self@, other@, i as int);
                }
                return true;
            }
            if x > y {
                proof {
                    lemma_be_val_lt(other@, self@, i as int);
                }
                return false;
            }
            i = i + 1;
        }
        proof {
            assert(self@ =~= other@);
        }
        true
    }
}

impl Clone for H256 {
    /// The copy holds the same bytes.
    fn clone(&self) -> (r: Self)
        ensures
            r@ == self@,
    {
        let mut bytes: Vec<u8> = Vec::new();
        let mut i: usize = 0;
        while i < self.bytes.len()
            invariant
                i <= self.bytes@.len(),
                bytes@ == self.bytes@.subrange(0, i as int),
            decreases self.bytes@.len() - i,
        {
            bytes.push(self.bytes[i]);
            i = i + 1;
            proof {
                assert(bytes@ =~= self.bytes@.subrange(0, i as int));
            }
        }
        proof {
            assert(bytes@ =~= self.bytes@);
        }
        H256 { bytes }
    }
}

impl Default for H256 {
    /// The all-zero 256-bit value.
    fn default() -> (r: H256)
        ensures
            r.wf(),
            forall|i: int| 0 <= i < 32 ==> r@[i] == 0u8,
    {
        H256::repeat_byte(0)
    }
}

impl PartialEq for H256 {
    fn eq(&self, other: &H256) -> (r: bool) {
        let n = self.bytes.len();
        if n != other.bytes.len() {
            return false;
        }
        let mut i: usize = 0;
        while i < n
            invariant
                n == self.bytes@.len(),
                n == other.bytes@.len(),
                i <= n,
                forall|j: int| 0 <= j < i ==> self@[j] == other@[j],
            decreases n - i,
        {
            if self.bytes[i] != other.bytes[i] {
                return false;
            }
            i = i + 1;
        }
        proof {
            assert(self@ =~= other@);
        }
        true
    }
}

impl Eq for H256 {
}

impl vstd::std_specs::cmp::PartialEqSpecImpl for H256 {
    open spec fn obeys_eq_spec() -> bool {
        true
    }

    open spec fn eq_spec(&self, other: &H256) -> bool {
        self@ == other@
    }
}

} // verus!
