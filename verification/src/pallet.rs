//! The submission handler and its ledger state.

use vstd::prelude::*;
use crate::encoder::encode_submission;
use crate::encoder::encode_triple;
use crate::hash256::be_val;
use crate::hash256::H256;
use crate::hasher::blake2_256;
use crate::hasher::blake2_256_of;

verus! {

/// The digest a submission triple resolves to: the blake2b hash of its
/// canonical encoding.
pub open spec fn spec_digest(who: u64, nonce: u64, proof: Seq<u8>) -> Seq<u8> {
    blake2_256_of(encode_triple(who, nonce, proof))
}

/// Whether a submission triple is accepted against `target`: its digest,
/// read as a big-endian unsigned integer, is at most the target. Equality
/// is accepted.
pub open spec fn spec_accepts(target: Seq<u8>, who: u64, nonce: u64, proof: Seq<u8>) -> bool {
    be_val(spec_digest(who, nonce, proof)) <= be_val(target)
}

/// The abstract ledger state: the most recently accepted nonce and the
/// 256-bit value recorded with it.
pub struct LedgerView {
    pub latest_nonce: u64,
    pub last_hash: Seq<u8>,
}

/// The abstract state of the whole pallet: the difficulty target and the
/// ledger.
pub struct PalletView {
    pub target: Seq<u8>,
    pub ledger: LedgerView,
}

/// What one submission does to the pallet: an accepted triple overwrites
/// the ledger with its nonce and proof as one pair; a rejected one leaves
/// everything unchanged.
pub open spec fn spec_submit(v: PalletView, who: u64, nonce: u64, proof: Seq<u8>) -> PalletView {
    if spec_accepts(v.target, who, nonce, proof) {
        PalletView { target: v.target, ledger: LedgerView { latest_nonce: nonce, last_hash: proof } }
    } else {
        v
    }
}

/// The notification raised on an accepted submission.
#[derive(Debug)]
pub enum Event {
    /// A proof was accepted: `who` submitted `nonce`, and the triple
    /// resolved to the digest `hash`.
    ProofSubmitted { who: u64, nonce: u64, hash: H256 },
}

/// The one failure a submission can meet.
#[derive(Clone, Copy, Debug, PartialEq, Eq, Structural)]
pub enum Error {
    /// The digest of the submitted triple exceeds the difficulty target.
    InvalidProof,
}

/// The cost assigned to a call, as the host's scheduler counts it.
#[derive(Clone, Copy, Debug, PartialEq, Eq, Structural)]
pub struct Weight {
    pub ref_time: u64,
    pub proof_size: u64,
}

impl Weight {
    /// A weight of `ref_time` computation units and `proof_size` storage
    /// units.
    pub fn from_parts(ref_time: u64, proof_size: u64) -> (w: Weight)
        ensures
            w.ref_time == ref_time,
            w.proof_size == proof_size,
    {
        Weight { ref_time, proof_size }
    }
}

/// The weights of the pallet's calls.
pub trait WeightInfo {
    /// The cost of one `submit_proof` call.
    fn submit_proof() -> Weight;
}

/// Placeholder weights until measured ones replace them.
pub struct DefaultWeightInfo;

impl WeightInfo for DefaultWeightInfo {
    fn submit_proof() -> Weight {
        Weight::from_parts(10_000, 0)
    }
}

/// The pallet's configuration: what the host must supply to embed it.
pub trait Config {
    /// The weights charged for the pallet's calls.
    type WeightInfo: WeightInfo;
}

/// The persisted ledger state: the most recently accepted submission's
/// nonce and the 256-bit value recorded with it. Both fields change
/// together or neither does.
pub struct LedgerState {
    latest_nonce: u64,
    last_successful_hash: H256,
}

impl View for LedgerState {
    type V = LedgerView;

    closed spec fn view(&self) -> LedgerView {
        LedgerView { latest_nonce: self.latest_nonce, last_hash: self.last_successful_hash@ }
    }
}

impl LedgerState {
    /// The recorded value holds exactly 32 bytes.
    pub open spec fn wf(&self) -> bool {
        self@.last_hash.len() == 32
    }

    /// A fresh ledger: nonce zero, all-zero recorded value.
    pub fn new() -> (r: LedgerState)
        ensures
            r.wf(),
            r@.latest_nonce == 0,
            forall|i: int| 0 <= i < 32 ==> r@.last_hash[i] == 0u8,
    {
        LedgerState { latest_nonce: 0, last_successful_hash: H256::default() }
    }

    /// The nonce of the most recently accepted submission.
    pub fn get_latest_nonce(&self) -> (r: u64)
        ensures
            r == self@.latest_nonce,
    {
        self.latest_nonce
    }

    /// The 256-bit value recorded with the most recently accepted
    /// submission.
    pub fn get_last_successful_hash(&self) -> (r: H256)
        requires
            self.wf(),
        ensures
            r.wf(),
            r@ == self@.last_hash,
    {
        self.last_successful_hash.clone()
    }

    /// Overwrites both fields as one pair.
    pub fn commit(&mut self, nonce: u64, value: &H256)
        requires
            value.wf(),
        ensures
            final(self).wf(),
            final(self)@.latest_nonce == nonce,
            final(self)@.last_hash == value@,
    {
        self.latest_nonce = nonce;
        self.last_successful_hash = value.clone();
    }
}

/// The submission handler: it owns the difficulty target and the ledger
/// state, and verifies and commits submissions.
pub struct Pallet {
    target: H256,
    ledger: LedgerState,
}

impl View for Pallet {
    type V = PalletView;

    closed spec fn view(&self) -> PalletView {
        PalletView { target: self.target@, ledger: self.ledger@ }
    }
}

impl Pallet {
    /// The target and the recorded value each hold exactly 32 bytes.
    pub open spec fn wf(&self) -> bool {
        self@.target.len() == 32 && self@.ledger.last_hash.len() == 32
    }

    /// A pallet with the default difficulty target, 32 bytes of `0xF0`,
    /// over a fresh ledger.
    pub fn new() -> (r: Pallet)
        ensures
            r.wf(),
            forall|i: int| 0 <= i < 32 ==> r@.target[i] == 0xF0u8,
            r@.ledger.latest_nonce == 0,
            forall|i: int| 0 <= i < 32 ==> r@.ledger.last_hash[i] == 0u8,
    {
        Pallet { target: H256::repeat_byte(0xF0), ledger: LedgerState::new() }
    }

    /// A pallet with a caller-chosen difficulty target over a fresh ledger.
    pub fn with_target(target: H256) -> (r: Pallet)
        requires
            target.wf(),
        ensures
            r.wf(),
            r@.target == target@,
            r@.ledger.latest_nonce == 0,
            forall|i: int| 0 <= i < 32 ==> r@.ledger.last_hash[i] == 0u8,
    {
        Pallet { target, ledger: LedgerState::new() }
    }

    /// The nonce of the most recently accepted submission.
    pub fn latest_nonce(&self) -> (r: u64)
        ensures
            r == self@.ledger.latest_nonce,
    {
        self.ledger.get_latest_nonce()
    }

    /// The 256-bit value recorded with the most recently accepted
    /// submission.
    pub fn last_successful_hash(&self) -> (r: H256)
        requires
            self.wf(),
        ensures
            r.wf(),
            r@ == self@.ledger.last_hash,
    {
        self.ledger.get_last_successful_hash()
    }

    /// Verifies one submission and, if it meets the target, commits it.
    ///
    /// The triple is encoded, hashed, and the digest compared against the
    /// target. On acceptance the ledger records the nonce and the raw
    /// submitted proof as one pair — the stored value is the proof itself —
    /// while the returned event carries the freshly computed digest; the
    /// two differ. On rejection the ledger keeps its prior value and no
    /// event arises.
    pub fn submit_proof(&mut self, who: u64, nonce: u64, proof: &H256) -> (r: Result<Event, Error>)
        requires
            old(self).wf(),
            proof.wf(),
        ensures
            final(self).wf(),
            final(self)@ == spec_submit(old(self)@, who, nonce, proof@),
            r is Ok <==> spec_accepts(old(self)@.target, who, nonce, proof@),
            (match r {
                Ok(ev) => (match ev {
                    Event::ProofSubmitted { who: w, nonce: n, hash: h } => w == who && n == nonce
                        && h@ == spec_digest(who, nonce, proof@),
                }),
                Err(e) => e == Error::InvalidProof,
            }),
    {
        let encoded = encode_submission(who, nonce, proof);
        let digest_bytes = blake2_256(&encoded);
        let generated_hash = H256::from_vec(digest_bytes);
        if generated_hash.le(&self.target) {
            self.ledger.commit(nonce, proof);
            proof {
                assert(final(self)@ =~= spec_submit(old(self)@, who, nonce, proof@));
            }
            Ok(Event::ProofSubmitted { who, nonce, hash: generated_hash })
        } else {
            proof {
                assert(final(self)@ =~= spec_submit(old(self)@, who, nonce, proof@));
            }
            Err(Error::InvalidProof)
        }
    }
}

/// An earlier submission never sways a later one: whatever one submission
/// did to the pallet, a triple resolves to the same decision and the same
/// digest afterwards as before, since the target survives every submission
/// and the digest reads nothing but the triple.
pub proof fn lemma_submit_deterministic(
    v: PalletView,
    wa: u64,
    na: u64,
    pa: Seq<u8>,
    who: u64,
    nonce: u64,
    proof: Seq<u8>,
)
    ensures
        spec_accepts(spec_submit(v, wa, na, pa).target, who, nonce, proof) == spec_accepts(
            v.target,
            who,
            nonce,
            proof,
        ),
{
}

/// Last write wins: after two accepted submissions the ledger reflects
/// only the second one's nonce and value.
pub proof fn lemma_last_write_wins(
    v: PalletView,
    wa: u64,
    na: u64,
    pa: Seq<u8>,
    wb: u64,
    nb: u64,
    pb: Seq<u8>,
)
    requires
        spec_accepts(v.target, wa, na, pa),
        spec_accepts(spec_submit(v, wa, na, pa).target, wb, nb, pb),
    ensures
        spec_submit(spec_submit(v, wa, na, pa), wb, nb, pb).ledger.latest_nonce == nb,
        spec_submit(spec_submit(v, wa, na, pa), wb, nb, pb).ledger.last_hash == pb,
{
}

/// The bound is inclusive: a triple whose digest equals the target byte
/// for byte is accepted.
pub proof fn lemma_boundary_inclusive(target: Seq<u8>, who: u64, nonce: u64, proof: Seq<u8>)
    requires
        spec_digest(who, nonce, proof) == target,
    ensures
        spec_accepts(target, who, nonce, proof),
{
}

} // verus!
