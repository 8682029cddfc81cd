use vstd::prelude::*;

use crate::hashing::append_bytes;

verus! {

/// Length of the hash of a proof's bag of cells.
pub const BOC_HASH_SIZE: usize = 32;

/// The tag that opens every bridge `OP_RETURN` payload.
pub open spec fn bridge_prefix() -> Seq<u8> {
    seq![0x5Au8, 0x4Bu8, 0x42u8, 0x52u8, 0x49u8, 0x44u8, 0x47u8, 0x45u8]
}

/// The proof data of a bridge proof: proof bytes, verification-key hash,
/// public inputs and auxiliary bytes.
#[derive(Clone, Debug)]
pub struct ZkProofBoc {
    pub proof_data: Vec<u8>,
    pub vk_hash: [u8; 32],
    pub public_inputs: Vec<u8>,
    pub auxiliary_data: Vec<u8>,
}

/// The kind of a bridge proof.
#[derive(Clone, Copy, Debug, PartialEq, Eq, Structural)]
pub enum ProofType {
    Deposit,
    Withdrawal,
    Transfer,
}

impl ProofType {
    /// The byte that stands for a proof kind.
    pub open spec fn spec_code(self) -> u8 {
        match self {
            ProofType::Deposit => 1,
            ProofType::Withdrawal => 2,
            ProofType::Transfer => 3,
        }
    }

    /// The byte that stands for this proof kind: 1, 2 or 3.
    pub fn code(&self) -> (r: u8)
        ensures
            r == self.spec_code(),
    {
        match self {
            ProofType::Deposit => 1,
            ProofType::Withdrawal => 2,
            ProofType::Transfer => 3,
        }
    }

    /// The proof kind a byte stands for; refused for any byte but 1, 2, 3.
    pub fn try_from_u8(value: u8) -> (r: Result<ProofType, String>)
        ensures
            1 <= value <= 3 ==> (r matches Ok(t) && t.spec_code() == value),
            !(1 <= value <= 3) ==> r is Err,
    {
        match value {
            1 => Ok(ProofType::Deposit),
            2 => Ok(ProofType::Withdrawal),
            3 => Ok(ProofType::Transfer),
            _ => Err("Invalid proof type".to_owned()),
        }
    }
}

/// The block heights a proof is valid between.
#[derive(Clone, Copy, Debug, PartialEq, Eq, Structural)]
pub struct HeightBounds {
    pub min_height: u32,
    pub max_height: u32,
}

/// A proof's version, kind and height bounds.
#[derive(Clone, Copy, Debug, PartialEq, Eq, Structural)]
pub struct ProofMetadata {
    pub version: u8,
    pub proof_type: ProofType,
    pub height_bounds: HeightBounds,
}

/// What goes on chain for a proof: the hash of its bag of cells and its
/// metadata.
#[derive(Clone, Copy, Debug)]
pub struct ZkProofSlice {
    pub boc_hash: [u8; 32],
    pub metadata: ProofMetadata,
}

/// The Keccak-256 digest of a byte string, as the `keccak-hash` crate
/// computes it.
pub uninterp spec fn spec_keccak256(data: Seq<u8>) -> Seq<u8>;

/// Calls `keccak_hash::keccak_256` on `data` into a 32-byte buffer.
/// Claimed: the buffer then holds the Keccak-256 digest of `data` (named
/// `spec_keccak256`), the same for the same bytes.
#[verifier::external_body]
pub(crate) fn keccak256_digest(data: &[u8]) -> (r: [u8; 32])
    ensures
        r@ == spec_keccak256(data@),
{
    let mut out = [0u8; 32];
    keccak_hash::keccak_256(data, &mut out);
    out
}

/// The bytes of a proof's bag of cells: proof bytes, key hash, public
/// inputs and auxiliary bytes, end to end.
pub open spec fn spec_serialize_boc(boc: ZkProofBoc) -> Seq<u8> {
    boc.proof_data@ + boc.vk_hash@ + boc.public_inputs@ + boc.auxiliary_data@
}

/// The `OP_RETURN` payload of a slice: the bridge tag, the hash, the
/// version byte, the kind byte, then the two heights little-endian.
pub open spec fn spec_op_return(s: ZkProofSlice) -> Seq<u8> {
    bridge_prefix() + s.boc_hash@ + seq![s.metadata.version, s.metadata.proof_type.spec_code()]
        + vstd::bytes::spec_u32_to_le_bytes(s.metadata.height_bounds.min_height)
        + vstd::bytes::spec_u32_to_le_bytes(s.metadata.height_bounds.max_height)
}

/// Builds proof slices for the bridge.
pub struct ZkProofManager {}

impl ZkProofManager {
    /// A manager.
    pub fn new() -> (r: Self) {
        ZkProofManager {  }
    }

    /// The bytes of a proof's bag of cells.
    pub fn serialize(&self, boc: &ZkProofBoc) -> (r: Vec<u8>)
        ensures
            r@ == spec_serialize_boc(*boc),
    {
        let mut data: Vec<u8> = Vec::new();
        append_bytes(&mut data, boc.proof_data.as_slice());
        append_bytes(&mut data, boc.vk_hash.as_slice());
        append_bytes(&mut data, boc.public_inputs.as_slice());
        append_bytes(&mut data, boc.auxiliary_data.as_slice());
        data
    }

    /// The Keccak-256 digest of `data`.
    pub fn calculate_hash(&self, data: &[u8]) -> (r: [u8; 32])
        ensures
            r@ == spec_keccak256(data@),
    {
        keccak256_digest(data)
    }

    /// The slice for an encoded amount: the hash of a bag of cells whose proof
    /// bytes are the encoded amount, with a zero key hash and nothing else.
    pub fn create_proof_slice(&self, encoded_amount: &Vec<u8>, metadata: ProofMetadata) -> (r: Result<
        ZkProofSlice,
        String,
    >)
        ensures
            r matches Ok(s) && s.metadata == metadata && s.boc_hash@ == spec_keccak256(
                encoded_amount@ + crate::boc::zero_hash(),
            ),
    {
        let boc = ZkProofBoc {
            proof_data: crate::btc::copy_bytes(encoded_amount),
            vk_hash: crate::boc::zero_bytes32(),
            public_inputs: Vec::new(),
            auxiliary_data: Vec::new(),
        };
        let boc_data = self.serialize(&boc);
        proof {
            assert(boc_data@ =~= encoded_amount@ + crate::boc::zero_hash());
        }
        let boc_hash = self.calculate_hash(boc_data.as_slice());
        Ok(ZkProofSlice { boc_hash, metadata })
    }
}

impl ZkProofSlice {
    /// The `OP_RETURN` payload of this slice.
    pub fn to_op_return(&self) -> (r: Vec<u8>)
        ensures
            r@ == spec_op_return(*self),
    {
        let mut data: Vec<u8> = Vec::new();
        let prefix: [u8; 8] = [0x5A, 0x4B, 0x42, 0x52, 0x49, 0x44, 0x47, 0x45];
        assert(prefix@ =~= bridge_prefix());
        append_bytes(&mut data, prefix.as_slice());
        append_bytes(&mut data, self.boc_hash.as_slice());
        data.push(self.metadata.version);
        data.push(self.metadata.proof_type.code());
        let lo = vstd::bytes::u32_to_le_bytes(self.metadata.height_bounds.min_height);
        append_bytes(&mut data, lo.as_slice());
        let hi = vstd::bytes::u32_to_le_bytes(self.metadata.height_bounds.max_height);
        append_bytes(&mut data, hi.as_slice());
        assert(data@ =~= spec_op_return(*self));
        data
    }
}

} // verus!
