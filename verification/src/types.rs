//! Digests, the identifiers built on them, and the watermark evidence that a
//! registration carries.

pub mod artefact;
pub mod block;
pub mod tx;

use vstd::prelude::*;

verus! {

/// Length in bytes of every digest in this crate.
pub const HASH_LEN: usize = 32;

/// The BLAKE3 digest of a byte string, as `blake3::hash` computes it.
pub uninterp spec fn blake3_hash(data: Seq<u8>) -> Seq<u8>;

/// Calls `blake3::hash` and copies out its 32 bytes. The contract names the
/// result: it is the BLAKE3 digest of exactly the bytes handed in.
#[verifier::external_body]
fn blake3_digest(data: &[u8]) -> (out: [u8; 32])
    ensures
        out@ == blake3_hash(data@),
{
    *blake3::hash(data).as_bytes()
}

/// A 256-bit digest. Two digests are equal when their bytes are.
#[derive(Clone, Copy, Debug, Eq, Hash)]
pub struct Hash256(pub [u8; 32]);

impl View for Hash256 {
    type V = Seq<u8>;

    open spec fn view(&self) -> Seq<u8> {
        self.0@
    }
}

impl PartialEq for Hash256 {
    fn eq(&self, other: &Hash256) -> (r: bool) {
        let mut i: usize = 0;
        while i < 32
            invariant
                i <= 32,
                forall|j: int| 0 <= j < i ==> self.0[j] == other.0[j],
            decreases 32 - i,
        {
            if self.0[i] != other.0[i] {
                return false;
            }
            i += 1;
        }
        assert(self.0 =~= other.0);
        true
    }
}

impl vstd::std_specs::cmp::PartialEqSpecImpl for Hash256 {
    open spec fn obeys_eq_spec() -> bool {
        true
    }

    open spec fn eq_spec(&self, other: &Hash256) -> bool {
        *self == *other
    }
}

/// The digest whose bytes are the BLAKE3 digest of `data`.
pub open spec fn digest_of(data: Seq<u8>) -> Hash256 {
    choose|h: Hash256| h@ == blake3_hash(data)
}

/// A digest is determined by its bytes.
pub proof fn lemma_digest_by_bytes(a: Hash256, b: Hash256)
    requires
        a@ == b@,
    ensures
        a == b,
{
    assert(a.0 =~= b.0);
}

impl Hash256 {
    /// The digest of all zero bytes, which stands for "no parent".
    pub open spec fn spec_zero() -> Hash256 {
        Hash256(vstd::array::spec_array_fill_for_copy_type::<u8, 32>(0u8))
    }

    /// The all-zero digest.
    pub fn zero() -> (h: Hash256)
        ensures
            h == Hash256::spec_zero(),
            forall|i: int| 0 <= i < 32 ==> h@[i] == 0u8,
    {
        Hash256([0u8; 32])
    }

    /// The BLAKE3-256 digest of `data`.
    pub fn compute(data: &[u8]) -> (h: Hash256)
        ensures
            h@ == blake3_hash(data@),
            h == digest_of(data@),
    {
        let h = Hash256(blake3_digest(data));
        proof {
            lemma_digest_by_bytes(h, digest_of(data@));
        }
        h
    }

    /// The digest's 32 bytes.
    pub fn as_bytes(&self) -> (b: &[u8; 32])
        ensures
            b@ == self@,
    {
        &self.0
    }
}

/// An account: the digest of a public key's encoding.
#[derive(Clone, Copy, Debug, Eq, Hash)]
pub struct AccountId(pub Hash256);

impl PartialEq for AccountId {
    fn eq(&self, other: &AccountId) -> (r: bool) {
        self.0 == other.0
    }
}

impl vstd::std_specs::cmp::PartialEqSpecImpl for AccountId {
    open spec fn obeys_eq_spec() -> bool {
        true
    }

    open spec fn eq_spec(&self, other: &AccountId) -> bool {
        *self == *other
    }
}

impl AccountId {
    /// The account of the key whose encoding is `pk_bytes`.
    pub fn from_public_key(pk_bytes: &[u8]) -> (id: AccountId)
        ensures
            id == AccountId(digest_of(pk_bytes@)),
    {
        AccountId(Hash256::compute(pk_bytes))
    }

    /// The digest behind this account.
    pub fn as_hash(&self) -> (h: &Hash256)
        ensures
            *h == self.0,
    {
        &self.0
    }
}

/// The bytes of a public key, carried uninterpreted.
#[derive(Debug)]
pub struct PublicKey(pub Vec<u8>);

impl View for PublicKey {
    type V = Seq<u8>;

    open spec fn view(&self) -> Seq<u8> {
        self.0@
    }
}

impl Clone for PublicKey {
    fn clone(&self) -> (r: PublicKey)
        ensures
            r@ == self@,
    {
        PublicKey(self.0.clone())
    }
}

impl PublicKey {
    /// The key's bytes.
    pub fn as_bytes(&self) -> (b: &[u8])
        ensures
            b@ == self@,
    {
        self.0.as_slice()
    }
}

/// The bytes of a signature, carried uninterpreted.
#[derive(Debug)]
pub struct Signature(pub Vec<u8>);

impl View for Signature {
    type V = Seq<u8>;

    open spec fn view(&self) -> Seq<u8> {
        self.0@
    }
}

impl Clone for Signature {
    fn clone(&self) -> (r: Signature)
        ensures
            r@ == self@,
    {
        Signature(self.0.clone())
    }
}

impl Signature {
    /// The signature's bytes.
    pub fn as_bytes(&self) -> (b: &[u8])
        ensures
            b@ == self@,
    {
        self.0.as_slice()
    }
}

/// The digest of an off-chain watermark-evidence payload.
#[derive(Clone, Copy, Debug, Eq, Hash)]
pub struct EvidenceHash(pub Hash256);

impl PartialEq for EvidenceHash {
    fn eq(&self, other: &EvidenceHash) -> (r: bool) {
        self.0 == other.0
    }
}

impl vstd::std_specs::cmp::PartialEqSpecImpl for EvidenceHash {
    open spec fn obeys_eq_spec() -> bool {
        true
    }

    open spec fn eq_spec(&self, other: &EvidenceHash) -> bool {
        *self == *other
    }
}

impl EvidenceHash {
    /// The evidence hash of the payload `bytes`.
    pub fn from_bytes(bytes: &[u8]) -> (h: EvidenceHash)
        ensures
            h == EvidenceHash(digest_of(bytes@)),
    {
        EvidenceHash(Hash256::compute(bytes))
    }

    /// The digest behind this evidence hash.
    pub fn as_hash(&self) -> (h: &Hash256)
        ensures
            *h == self.0,
    {
        &self.0
    }
}

/// A model artefact: the digest of its canonical bytes.
#[derive(Clone, Copy, Debug, Eq, Hash)]
pub struct Aid(pub Hash256);

impl PartialEq for Aid {
    fn eq(&self, other: &Aid) -> (r: bool) {
        self.0 == other.0
    }
}

impl vstd::std_specs::cmp::PartialEqSpecImpl for Aid {
    open spec fn obeys_eq_spec() -> bool {
        true
    }

    open spec fn eq_spec(&self, other: &Aid) -> bool {
        *self == *other
    }
}

impl Aid {
    /// The identifier of the artefact whose canonical bytes are `model_bytes`.
    pub fn from_model_bytes(model_bytes: &[u8]) -> (aid: Aid)
        ensures
            aid == Aid(digest_of(model_bytes@)),
    {
        Aid(Hash256::compute(model_bytes))
    }

    /// The digest behind this identifier.
    pub fn as_hash(&self) -> (h: &Hash256)
        ensures
            *h == self.0,
    {
        &self.0
    }
}

/// Detector thresholds and band bounds of a watermark scheme. Each field
/// holds the IEEE-754 bit pattern of a 32-bit float; the chain carries the
/// four numbers without interpreting them, and two profiles are the same
/// when their bits are.
#[derive(Clone, Copy, Debug, PartialEq, Eq, Structural)]
pub struct WmProfile {
    /// Input-space threshold.
    pub tau_input: u32,
    /// Feature-space threshold.
    pub tau_feat: u32,
    /// Lower bound of the logit band.
    pub logit_band_low: u32,
    /// Upper bound of the logit band.
    pub logit_band_high: u32,
}

/// What an [`EvidenceRef`] holds, as plain values.
pub ghost struct EvidenceRefView {
    pub scheme_id: Seq<char>,
    pub evidence_hash: EvidenceHash,
    pub wm_profile: WmProfile,
}

impl EvidenceRefView {
    /// The scheme tag's length can be written down in 64 bits.
    pub open spec fn fits(self) -> bool {
        vstd::utf8::encode_utf8(self.scheme_id).len() <= u64::MAX
    }
}

/// A reference to off-chain watermark evidence: the scheme's tag, the hash
/// of the evidence and the profile the scheme was tuned with.
#[derive(Debug)]
pub struct EvidenceRef {
    /// Stable tag of the watermarking scheme.
    pub scheme_id: String,
    /// Hash of the evidence payload.
    pub evidence_hash: EvidenceHash,
    /// Thresholds and bands of the scheme.
    pub wm_profile: WmProfile,
}

impl View for EvidenceRef {
    type V = EvidenceRefView;

    open spec fn view(&self) -> EvidenceRefView {
        EvidenceRefView {
            scheme_id: self.scheme_id@,
            evidence_hash: self.evidence_hash,
            wm_profile: self.wm_profile,
        }
    }
}

impl Clone for EvidenceRef {
    fn clone(&self) -> (r: EvidenceRef)
        ensures
            r@ == self@,
    {
        EvidenceRef {
            scheme_id: self.scheme_id.clone(),
            evidence_hash: self.evidence_hash,
            wm_profile: self.wm_profile,
        }
    }
}

} // verus!
