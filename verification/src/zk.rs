//! Types for ZKThunder L2 batch settlement on Mintlayer, and their consensus encoding.
//!
//! The encoding is SCALE: the fields of a struct one after the other, integers in
//! little-endian order, fixed-size hashes as their raw bytes, an enum as its codec index
//! byte, and a byte vector as its compact length followed by its bytes.

use vstd::prelude::*;
use vstd::slice::slice_subrange;

use crate::scale::{
    compact_u32_len,
    lemma_compact_u32_roundtrip, lemma_le_u32_roundtrip, lemma_le_u64_roundtrip,
    decode_u32, decode_u64, encode_u32, encode_u64, le_bytes_u32, le_bytes_u64, le_u32, le_u64,
    compact_len, compact_u32_bytes, compact_u32_decode, decode_compact_u32, encode_compact_u32,
    lemma_compact_u32_decode_len,
};

verus! {

/// Why bytes do not decode.
#[derive(Debug, Clone, Copy, PartialEq, Eq, Structural)]
pub enum DecodeError {
    /// The input ends before a fixed-size field, or before the bytes a length announced.
    UnexpectedEnd,
    /// No valid compact length stands where a byte vector starts: the input ends inside
    /// it, or it is not written in its shortest form.
    BadLengthPrefix,
    /// The byte that selects the proof system names none.
    UnknownProofType(u8),
    /// A value decoded, and bytes are left after it.
    TrailingBytes,
    /// The transaction output's variant tag is not that of a batch settlement.
    OtherOutputVariant(u8),
}

/// The proof system used by the ZKThunder prover for a given protocol version.
#[derive(Debug, Clone, Copy, PartialEq, Eq, PartialOrd, Ord, Hash, Structural)]
pub enum ProofType {
    /// The Fflonk proof system (matter-labs `fflonk`), protocol version >= 29
    Fflonk,
    /// The legacy Plonk proof system (matter-labs `bellman`), protocol version < 29
    Plonk,
}

/// The codec index of each proof system: the byte that encodes it.
pub open spec fn proof_type_index(p: ProofType) -> u8 {
    match p {
        ProofType::Fflonk => 0,
        ProofType::Plonk => 1,
    }
}

/// The proof system that a codec index selects, if any.
pub open spec fn proof_type_of_index(b: u8) -> Option<ProofType> {
    if b == 0 {
        Some(ProofType::Fflonk)
    } else if b == 1 {
        Some(ProofType::Plonk)
    } else {
        None
    }
}

/// Decoding of a whole input as a `ProofType`.
pub open spec fn proof_type_decode_all(s: Seq<u8>) -> Result<ProofType, DecodeError> {
    if s.len() < 1 {
        Err(DecodeError::UnexpectedEnd)
    } else {
        match proof_type_of_index(s[0]) {
            None => Err(DecodeError::UnknownProofType(s[0])),
            Some(p) => if s.len() == 1 {
                Ok(p)
            } else {
                Err(DecodeError::TrailingBytes)
            },
        }
    }
}

impl ProofType {
    /// The codec index of this proof system.
    pub fn codec_index(self) -> (r: u8)
        ensures
            r == proof_type_index(self),
            self == ProofType::Fflonk ==> r == 0,
            self == ProofType::Plonk ==> r == 1,
    {
        match self {
            ProofType::Fflonk => 0,
            ProofType::Plonk => 1,
        }
    }

    /// The proof system whose codec index is `b`, or `None` if there is none.
    pub fn from_codec_index(b: u8) -> (r: Option<ProofType>)
        ensures
            r == proof_type_of_index(b),
            b == 0 ==> r == Some(ProofType::Fflonk),
            b == 1 ==> r == Some(ProofType::Plonk),
            b > 1 ==> r is None,
    {
        if b == 0 {
            Some(ProofType::Fflonk)
        } else if b == 1 {
            Some(ProofType::Plonk)
        } else {
            None
        }
    }

    /// The encoding: the codec index as one byte.
    pub fn encode(&self) -> (r: Vec<u8>)
        ensures
            r@ == seq![proof_type_index(*self)],
            *self == ProofType::Fflonk ==> r@ == seq![0u8],
            *self == ProofType::Plonk ==> r@ == seq![1u8],
    {
        let mut out: Vec<u8> = Vec::new();
        out.push(self.codec_index());
        out
    }

    /// Decodes a proof system from exactly the bytes given.
    pub fn decode_all(bytes: &[u8]) -> (r: Result<ProofType, DecodeError>)
        ensures
            r == proof_type_decode_all(bytes@),
    {
        if bytes.len() < 1 {
            return Err(DecodeError::UnexpectedEnd);
        }
        let b = bytes[0];
        match ProofType::from_codec_index(b) {
            None => Err(DecodeError::UnknownProofType(b)),
            Some(p) => if bytes.len() == 1 {
                Ok(p)
            } else {
                Err(DecodeError::TrailingBytes)
            },
        }
    }
}

/// The encoding of a byte vector: its length in compact form, then its bytes.
pub open spec fn bytes_encoding(b: Seq<u8>) -> Seq<u8> {
    compact_u32_bytes(b.len() as u32) + b
}

/// Decoding of a byte vector at the start of `s`: the bytes and the number of input bytes
/// that held them.
pub open spec fn bytes_decode(s: Seq<u8>) -> Result<(Seq<u8>, int), DecodeError> {
    match compact_u32_decode(s) {
        None => Err(DecodeError::BadLengthPrefix),
        Some((n, k)) => if s.len() - k < n {
            Err(DecodeError::UnexpectedEnd)
        } else {
            Ok((s.subrange(k, k + n), k + n))
        },
    }
}

/// Decoding of a whole input as a byte vector.
pub open spec fn bytes_decode_all(s: Seq<u8>) -> Result<Seq<u8>, DecodeError> {
    match bytes_decode(s) {
        Err(e) => Err(e),
        Ok((b, n)) => if n == s.len() {
            Ok(b)
        } else {
            Err(DecodeError::TrailingBytes)
        },
    }
}

/// Appends the encoding of the byte vector `b` to `out`.
fn push_bytes_encoding(out: &mut Vec<u8>, b: &[u8])
    requires
        b@.len() <= u32::MAX,
    ensures
        final(out)@ == old(out)@ + bytes_encoding(b@),
{
    let mut prefix = encode_compact_u32(b.len() as u32);
    out.append(&mut prefix);
    let ghost start = out@;
    let n = b.len();
    for i in 0..n
        invariant
            n == b@.len(),
            out@ == start + b@.subrange(0, i as int),
    {
        out.push(b[i]);
        assert(b@.subrange(0, i + 1) =~= b@.subrange(0, i as int).push(b@[i as int]));
    }
    assert(b@.subrange(0, n as int) =~= b@);
    assert(out@ =~= old(out)@ + bytes_encoding(b@));
}

/// Decodes a byte vector at the start of `s`.
fn decode_bytes(s: &[u8]) -> (r: Result<(Vec<u8>, usize), DecodeError>)
    ensures
        match r {
            Ok((v, n)) => bytes_decode(s@) == Ok::<(Seq<u8>, int), DecodeError>((v@, n as int)),
            Err(e) => bytes_decode(s@) == Err::<(Seq<u8>, int), DecodeError>(e),
        },
{
    let len = match decode_compact_u32(s) {
        Some(v) => v,
        None => return Err(DecodeError::BadLengthPrefix),
    };
    proof {
        lemma_compact_u32_decode_len(s@);
    }
    let k = compact_len(len);
    let len = len as usize;
    if s.len() - k < len {
        return Err(DecodeError::UnexpectedEnd);
    }
    let end = k + len;
    let mut v: Vec<u8> = Vec::new();
    for i in k..end
        invariant
            k <= end <= s@.len(),
            v@ == s@.subrange(k as int, i as int),
    {
        v.push(s[i]);
        assert(s@.subrange(k as int, i + 1) =~= s@.subrange(k as int, i as int).push(s@[i as int]));
    }
    Ok((v, end))
}

/// A ZKThunder verification key, as embedded in the chain config as a consensus constant.
///
/// The bytes are opaque to Mintlayer; only the `zk-verifier` crate interprets them.
///
/// Security invariant: a verification key must *never* be taken from transaction data;
/// it can only come from the chain config.
#[derive(Debug, Clone, PartialEq, Eq, Hash)]
pub struct ZkVerificationKey(Vec<u8>);

impl View for ZkVerificationKey {
    type V = Seq<u8>;

    closed spec fn view(&self) -> Seq<u8> {
        self.0@
    }
}

impl ZkVerificationKey {
    /// A key holding `bytes`.
    pub fn new(bytes: Vec<u8>) -> (r: Self)
        ensures
            r@ == bytes@,
    {
        Self(bytes)
    }

    /// The key's bytes.
    pub fn as_bytes(&self) -> (r: &[u8])
        ensures
            r@ == self@,
    {
        self.0.as_slice()
    }

    /// The key's bytes, taken out of the key.
    pub fn into_bytes(self) -> (r: Vec<u8>)
        ensures
            r@ == self@,
    {
        self.0
    }

    /// The encoding: the key's bytes as a byte vector.
    pub fn encode(&self) -> (r: Vec<u8>)
        requires
            self@.len() <= u32::MAX,
        ensures
            r@ == bytes_encoding(self@),
            r@.len() == compact_u32_len(self@.len() as u32) + self@.len(),
            r@.subrange(0, compact_u32_len(self@.len() as u32)) == compact_u32_bytes(
                self@.len() as u32,
            ),
            r@.subrange(compact_u32_len(self@.len() as u32), r@.len() as int) == self@,
    {
        let mut out: Vec<u8> = Vec::new();
        push_bytes_encoding(&mut out, self.0.as_slice());
        assert(out@ =~= bytes_encoding(self@));
        proof {
            lemma_compact_u32_roundtrip(self@.len() as u32, Seq::empty());
            let k = compact_u32_len(self@.len() as u32);
            assert(out@.subrange(0, k) =~= compact_u32_bytes(self@.len() as u32));
            assert(out@.subrange(k, out@.len() as int) =~= self@);
        }
        out
    }

    /// Decodes a key from exactly the bytes given.
    pub fn decode_all(bytes: &[u8]) -> (r: Result<ZkVerificationKey, DecodeError>)
        ensures
            match r {
                Ok(k) => bytes_decode_all(bytes@) == Ok::<Seq<u8>, DecodeError>(k@),
                Err(e) => bytes_decode_all(bytes@) == Err::<Seq<u8>, DecodeError>(e),
            },
            r is Ok ==> {
                &&& bytes@.len() == compact_u32_len(r->Ok_0@.len() as u32) + r->Ok_0@.len()
                &&& r->Ok_0@ == bytes@.subrange(bytes@.len() - r->Ok_0@.len(), bytes@.len() as int)
            },
    {
        match decode_bytes(bytes) {
            Err(e) => Err(e),
            Ok((v, n)) => if n == bytes.len() {
                proof {
                    lemma_compact_u32_decode_len(bytes@);
                }
                Ok(ZkVerificationKey(v))
            } else {
                Err(DecodeError::TrailingBytes)
            },
        }
    }
}

/// Data carried by a `TxOutput::ZkBatchSettlement` output.
///
/// The four 32-byte hashes below are the public inputs of the ZKThunder SNARK wrapper proof,
/// carried verbatim.
#[derive(Debug, Clone, PartialEq, Eq)]
pub struct ZkBatchSettlementData {
    /// ZKThunder L2 chain identifier
    pub l2_chain_id: u64,
    /// Monotonically increasing batch number; must be exactly `prev + 1` for this `l2_chain_id`
    pub batch_number: u64,
    /// L2 state root *before* this batch (public input coord; must match the previously settled batch)
    pub prev_state_root: [u8; 32],
    /// L2 state root *after* this batch (public input coord)
    pub state_root: [u8; 32],
    /// Hash of all L2->L1 messages in this batch (public input coord)
    pub l2_to_l1_log_hash: [u8; 32],
    /// Bootloader initial heap contents hash (public input coord)
    pub heap_hash: [u8; 32],
    /// Protocol version of the ZKThunder prover that generated the proof; determines the VK
    pub protocol_version: u32,
    /// The proof system that produced the proof
    pub proof_type: ProofType,
    /// CBOR-serialized `L1BatchProofForL1` as produced by the ZKThunder prover
    pub proof: Vec<u8>,
}

/// The mathematical value of a [`ZkBatchSettlementData`]: the hashes and the proof as
/// byte sequences.
pub struct SettlementDataView {
    pub l2_chain_id: u64,
    pub batch_number: u64,
    pub prev_state_root: Seq<u8>,
    pub state_root: Seq<u8>,
    pub l2_to_l1_log_hash: Seq<u8>,
    pub heap_hash: Seq<u8>,
    pub protocol_version: u32,
    pub proof_type: ProofType,
    pub proof: Seq<u8>,
}

impl SettlementDataView {
    /// Each hash holds 32 bytes, and the proof's length fits the compact length prefix.
    pub open spec fn wf(self) -> bool {
        &&& self.prev_state_root.len() == 32
        &&& self.state_root.len() == 32
        &&& self.l2_to_l1_log_hash.len() == 32
        &&& self.heap_hash.len() == 32
        &&& self.proof.len() <= u32::MAX
    }
}

impl View for ZkBatchSettlementData {
    type V = SettlementDataView;

    open spec fn view(&self) -> SettlementDataView {
        SettlementDataView {
            l2_chain_id: self.l2_chain_id,
            batch_number: self.batch_number,
            prev_state_root: self.prev_state_root@,
            state_root: self.state_root@,
            l2_to_l1_log_hash: self.l2_to_l1_log_hash@,
            heap_hash: self.heap_hash@,
            protocol_version: self.protocol_version,
            proof_type: self.proof_type,
            proof: self.proof@,
        }
    }
}

/// Byte offset of the proof-type discriminant in an encoded settlement: two `u64`s, four
/// 32-byte hashes and a `u32` come before it.
pub open spec fn discriminant_offset() -> int {
    148
}

/// The encoding of the fields that come before the proof-type discriminant.
pub open spec fn settlement_prefix_encoding(d: SettlementDataView) -> Seq<u8> {
    le_bytes_u64(d.l2_chain_id) + le_bytes_u64(d.batch_number) + d.prev_state_root
        + d.state_root + d.l2_to_l1_log_hash + d.heap_hash + le_bytes_u32(d.protocol_version)
}

/// The encoding of a settlement: its fields in declaration order.
pub open spec fn settlement_encoding(d: SettlementDataView) -> Seq<u8> {
    settlement_prefix_encoding(d) + seq![proof_type_index(d.proof_type)] + bytes_encoding(
        d.proof,
    )
}

/// Decoding of a settlement at the start of `s`: the value and the number of bytes it took.
pub open spec fn settlement_decode(s: Seq<u8>) -> Result<(SettlementDataView, int), DecodeError> {
    if s.len() < discriminant_offset() + 1 {
        Err(DecodeError::UnexpectedEnd)
    } else {
        match proof_type_of_index(s[discriminant_offset()]) {
            None => Err(DecodeError::UnknownProofType(s[discriminant_offset()])),
            Some(pt) => match bytes_decode(s.subrange(discriminant_offset() + 1, s.len() as int)) {
                Err(e) => Err(e),
                Ok((proof, n)) => Ok(
                    (
                        SettlementDataView {
                            l2_chain_id: le_u64(s.subrange(0, 8)),
                            batch_number: le_u64(s.subrange(8, 16)),
                            prev_state_root: s.subrange(16, 48),
                            state_root: s.subrange(48, 80),
                            l2_to_l1_log_hash: s.subrange(80, 112),
                            heap_hash: s.subrange(112, 144),
                            protocol_version: le_u32(s.subrange(144, 148)),
                            proof_type: pt,
                            proof,
                        },
                        discriminant_offset() + 1 + n,
                    ),
                ),
            },
        }
    }
}

/// Decoding of a whole input as a settlement: the bytes after the value are an error.
pub open spec fn settlement_decode_all(s: Seq<u8>) -> Result<SettlementDataView, DecodeError> {
    match settlement_decode(s) {
        Err(e) => Err(e),
        Ok((d, n)) => if n == s.len() {
            Ok(d)
        } else {
            Err(DecodeError::TrailingBytes)
        },
    }
}

/// `e` lays out the settlement `d` as the SCALE derive writes it, field by field in
/// declaration order: the two `u64`s little-endian, the four hashes as their raw bytes in
/// order, the `u32` little-endian, the proof type's codec index (`Fflonk` 0, `Plonk` 1), the
/// proof's compact length, and the proof's bytes.
pub open spec fn is_settlement_layout(e: Seq<u8>, d: SettlementDataView) -> bool {
    let k = compact_u32_len(d.proof.len() as u32);
    &&& e.len() == 149 + k + d.proof.len()
    &&& e.subrange(0, 8) == le_bytes_u64(d.l2_chain_id)
    &&& e.subrange(8, 16) == le_bytes_u64(d.batch_number)
    &&& e.subrange(16, 48) == d.prev_state_root
    &&& e.subrange(48, 80) == d.state_root
    &&& e.subrange(80, 112) == d.l2_to_l1_log_hash
    &&& e.subrange(112, 144) == d.heap_hash
    &&& e.subrange(144, 148) == le_bytes_u32(d.protocol_version)
    &&& (d.proof_type == ProofType::Fflonk ==> e[148] == 0)
    &&& (d.proof_type == ProofType::Plonk ==> e[148] == 1)
    &&& e.subrange(149, 149 + k) == compact_u32_bytes(d.proof.len() as u32)
    &&& e.subrange(149 + k, e.len() as int) == d.proof
}

/// `d`, decoded from the first `n` bytes of `s`, holds what those bytes say field by field:
/// the integers read little-endian, the hashes as the raw bytes at their offsets, the proof
/// type by its index byte, and the proof as the last bytes taken.
pub open spec fn is_decoded_layout(s: Seq<u8>, d: SettlementDataView, n: int) -> bool {
    &&& n == 149 + compact_u32_len(d.proof.len() as u32) + d.proof.len()
    &&& n <= s.len()
    &&& d.l2_chain_id == le_u64(s.subrange(0, 8))
    &&& d.batch_number == le_u64(s.subrange(8, 16))
    &&& d.prev_state_root == s.subrange(16, 48)
    &&& d.state_root == s.subrange(48, 80)
    &&& d.l2_to_l1_log_hash == s.subrange(80, 112)
    &&& d.heap_hash == s.subrange(112, 144)
    &&& d.protocol_version == le_u32(s.subrange(144, 148))
    &&& (s[148] == 0 ==> d.proof_type == ProofType::Fflonk)
    &&& (s[148] == 1 ==> d.proof_type == ProofType::Plonk)
    &&& d.proof == s.subrange(n - d.proof.len(), n)
}

/// The encoding of a well-formed settlement holds each field at its offset, as its raw
/// SCALE bytes, in declaration order.
pub proof fn lemma_settlement_encoding_layout(d: SettlementDataView)
    requires
        d.wf(),
    ensures
        is_settlement_layout(settlement_encoding(d), d),
{
    let p = settlement_prefix_encoding(d);
    let c = compact_u32_bytes(d.proof.len() as u32);
    let e = settlement_encoding(d);
    scale_roundtrips(d);
    lemma_compact_u32_roundtrip(d.proof.len() as u32, Seq::empty());
    let k = compact_u32_len(d.proof.len() as u32);
    assert(e =~= p + (seq![proof_type_index(d.proof_type)] + (c + d.proof)));
    assert(e.subrange(0, 8) =~= le_bytes_u64(d.l2_chain_id));
    assert(e.subrange(8, 16) =~= le_bytes_u64(d.batch_number));
    assert(e.subrange(16, 48) =~= d.prev_state_root);
    assert(e.subrange(48, 80) =~= d.state_root);
    assert(e.subrange(80, 112) =~= d.l2_to_l1_log_hash);
    assert(e.subrange(112, 144) =~= d.heap_hash);
    assert(e.subrange(144, 148) =~= le_bytes_u32(d.protocol_version));
    assert(e[148] == proof_type_index(d.proof_type));
    assert(e.subrange(149, 149 + k) =~= c);
    assert(e.subrange(149 + k, e.len() as int) =~= d.proof);
}

/// What decoding a settlement returns is read field by field from the bytes it took.
pub proof fn lemma_settlement_decode_fields(s: Seq<u8>)
    requires
        settlement_decode(s) is Ok,
    ensures
        is_decoded_layout(s, settlement_decode(s)->Ok_0.0, settlement_decode(s)->Ok_0.1),
{
    let t = s.subrange(149, s.len() as int);
    lemma_compact_u32_decode_len(t);
    let (d, n) = settlement_decode(s)->Ok_0;
    let (len, k) = compact_u32_decode(t).unwrap();
    assert(d.proof =~= t.subrange(k, k + len));
    assert(d.proof.len() == len);
    assert(d.proof =~= s.subrange(n - d.proof.len(), n));
}

/// Appends the 32 bytes of `h` to `out`.
fn push_hash(out: &mut Vec<u8>, h: &[u8; 32])
    ensures
        final(out)@ == old(out)@ + h@,
{
    let ghost start = out@;
    for i in 0..32
        invariant
            h@.len() == 32,
            out@ == start + h@.subrange(0, i as int),
    {
        out.push(h[i]);
        assert(h@.subrange(0, i + 1) =~= h@.subrange(0, i as int).push(h@[i as int]));
    }
    assert(h@.subrange(0, 32) =~= h@);
}

/// The 32 bytes of `s` from `pos` on.
fn read_hash(s: &[u8], pos: usize) -> (r: [u8; 32])
    requires
        pos + 32 <= s@.len(),
    ensures
        r@ == s@.subrange(pos as int, pos + 32),
{
    let mut h: [u8; 32] = [0u8; 32];
    let len = s.len();
    for i in 0..32
        invariant
            pos + 32 <= s@.len(),
            len == s@.len(),
            h@.len() == 32,
            forall|j: int| 0 <= j < i ==> h@[j] == s@[pos + j],
    {
        h[i] = s[pos + i];
    }
    assert(h@ =~= s@.subrange(pos as int, pos + 32));
    h
}

impl ZkBatchSettlementData {
    /// The encoding of this settlement.
    pub fn encode(&self) -> (r: Vec<u8>)
        requires
            self.proof@.len() <= u32::MAX,
        ensures
            r@ == settlement_encoding(self@),
            is_settlement_layout(r@, self@),
    {
        let mut out = encode_u64(self.l2_chain_id);
        let mut b = encode_u64(self.batch_number);
        out.append(&mut b);
        push_hash(&mut out, &self.prev_state_root);
        push_hash(&mut out, &self.state_root);
        push_hash(&mut out, &self.l2_to_l1_log_hash);
        push_hash(&mut out, &self.heap_hash);
        let mut v = encode_u32(self.protocol_version);
        out.append(&mut v);
        out.push(self.proof_type.codec_index());
        push_bytes_encoding(&mut out, self.proof.as_slice());
        assert(out@ =~= settlement_encoding(self@));
        proof {
            lemma_settlement_encoding_layout(self@);
        }
        out
    }

    /// Decodes a settlement at the start of `bytes`; returns it and the number of bytes
    /// it took.
    pub fn decode(bytes: &[u8]) -> (r: Result<(ZkBatchSettlementData, usize), DecodeError>)
        ensures
            match r {
                Ok((d, n)) => settlement_decode(bytes@) == Ok::<
                    (SettlementDataView, int),
                    DecodeError,
                >((d@, n as int)),
                Err(e) => settlement_decode(bytes@) == Err::<(SettlementDataView, int), DecodeError>(
                    e,
                ),
            },
            r is Ok ==> is_decoded_layout(bytes@, r->Ok_0.0@, r->Ok_0.1 as int),
    {
        if bytes.len() < 149 {
            return Err(DecodeError::UnexpectedEnd);
        }
        let tag = bytes[148];
        let proof_type = match ProofType::from_codec_index(tag) {
            Some(p) => p,
            None => return Err(DecodeError::UnknownProofType(tag)),
        };
        let (proof, n) = match decode_bytes(slice_subrange(bytes, 149, bytes.len())) {
            Ok(x) => x,
            Err(e) => return Err(e),
        };
        let l2_chain_id = match decode_u64(slice_subrange(bytes, 0, 8)) {
            Some(x) => x,
            None => return Err(DecodeError::UnexpectedEnd),
        };
        let batch_number = match decode_u64(slice_subrange(bytes, 8, 16)) {
            Some(x) => x,
            None => return Err(DecodeError::UnexpectedEnd),
        };
        let protocol_version = match decode_u32(slice_subrange(bytes, 144, 148)) {
            Some(x) => x,
            None => return Err(DecodeError::UnexpectedEnd),
        };
        let d = ZkBatchSettlementData {
            l2_chain_id,
            batch_number,
            prev_state_root: read_hash(bytes, 16),
            state_root: read_hash(bytes, 48),
            l2_to_l1_log_hash: read_hash(bytes, 80),
            heap_hash: read_hash(bytes, 112),
            protocol_version,
            proof_type,
            proof,
        };
        proof {
            assert(bytes@.subrange(0, 8).subrange(0, 8) =~= bytes@.subrange(0, 8));
            assert(bytes@.subrange(8, 16).subrange(0, 8) =~= bytes@.subrange(8, 16));
            assert(bytes@.subrange(144, 148).subrange(0, 4) =~= bytes@.subrange(144, 148));
            lemma_settlement_decode_fields(bytes@);
        }
        Ok((d, 149 + n))
    }

    /// Decodes a settlement from exactly the bytes given.
    pub fn decode_all(bytes: &[u8]) -> (r: Result<ZkBatchSettlementData, DecodeError>)
        ensures
            match r {
                Ok(d) => settlement_decode_all(bytes@) == Ok::<SettlementDataView, DecodeError>(d@),
                Err(e) => settlement_decode_all(bytes@) == Err::<SettlementDataView, DecodeError>(
                    e,
                ),
            },
            r is Ok ==> is_decoded_layout(bytes@, r->Ok_0@, bytes@.len() as int),
    {
        match ZkBatchSettlementData::decode(bytes) {
            Err(e) => Err(e),
            Ok((d, n)) => if n == bytes.len() {
                Ok(d)
            } else {
                Err(DecodeError::TrailingBytes)
            },
        }
    }
}

/// The codec index of a proof system selects it again, and only `0` and `1` select one.
pub proof fn lemma_proof_type_index_roundtrip(p: ProofType, b: u8)
    ensures
        proof_type_of_index(proof_type_index(p)) == Some(p),
        proof_type_of_index(b) is Some <==> b < 2,
        proof_type_of_index(b) is Some ==> proof_type_index(proof_type_of_index(b).unwrap()) == b,
{
}

/// Decoding the encoding of a proof system gives it back.
pub proof fn lemma_proof_type_codec_roundtrip(p: ProofType)
    ensures
        proof_type_decode_all(seq![proof_type_index(p)]) == Ok::<ProofType, DecodeError>(p),
{
}

/// Decoding the encoding of a byte vector gives it back, and takes exactly its encoding,
/// whatever follows.
pub proof fn lemma_bytes_roundtrip(b: Seq<u8>, rest: Seq<u8>)
    requires
        b.len() <= u32::MAX,
    ensures
        bytes_decode(bytes_encoding(b) + rest) == Ok::<(Seq<u8>, int), DecodeError>(
            (b, bytes_encoding(b).len() as int),
        ),
        bytes_decode_all(bytes_encoding(b)) == Ok::<Seq<u8>, DecodeError>(b),
{
    let c = compact_u32_bytes(b.len() as u32);
    lemma_compact_u32_roundtrip(b.len() as u32, b + rest);
    assert(bytes_encoding(b) + rest =~= c + (b + rest));
    let s = bytes_encoding(b) + rest;
    assert(s.subrange(c.len() as int, (c.len() + b.len()) as int) =~= b);
    lemma_compact_u32_roundtrip(b.len() as u32, b);
    assert(bytes_encoding(b) + Seq::<u8>::empty() =~= bytes_encoding(b));
    assert(bytes_encoding(b).subrange(c.len() as int, (c.len() + b.len()) as int) =~= b);
}

/// Decoding the encoding of a settlement gives it back, and takes exactly its encoding,
/// whatever follows.
pub proof fn lemma_settlement_roundtrip(d: SettlementDataView, rest: Seq<u8>)
    requires
        d.wf(),
    ensures
        settlement_decode(settlement_encoding(d) + rest) == Ok::<
            (SettlementDataView, int),
            DecodeError,
        >((d, settlement_encoding(d).len() as int)),
{
    let p = settlement_prefix_encoding(d);
    let be = bytes_encoding(d.proof);
    let s = settlement_encoding(d) + rest;
    scale_roundtrips(d);
    assert(p.len() == 148);
    assert(s =~= p + (seq![proof_type_index(d.proof_type)] + (be + rest)));
    assert(s[148] == proof_type_index(d.proof_type));
    assert(s.subrange(149, s.len() as int) =~= be + rest);
    lemma_bytes_roundtrip(d.proof, rest);
    assert(s.subrange(0, 8) =~= le_bytes_u64(d.l2_chain_id));
    assert(s.subrange(8, 16) =~= le_bytes_u64(d.batch_number));
    assert(s.subrange(16, 48) =~= d.prev_state_root);
    assert(s.subrange(48, 80) =~= d.state_root);
    assert(s.subrange(80, 112) =~= d.l2_to_l1_log_hash);
    assert(s.subrange(112, 144) =~= d.heap_hash);
    assert(s.subrange(144, 148) =~= le_bytes_u32(d.protocol_version));
}

proof fn scale_roundtrips(d: SettlementDataView)
    ensures
        le_u64(le_bytes_u64(d.l2_chain_id)) == d.l2_chain_id,
        le_u64(le_bytes_u64(d.batch_number)) == d.batch_number,
        le_u32(le_bytes_u32(d.protocol_version)) == d.protocol_version,
        le_bytes_u64(d.l2_chain_id).len() == 8,
        le_bytes_u64(d.batch_number).len() == 8,
        le_bytes_u32(d.protocol_version).len() == 4,
{
    lemma_le_u64_roundtrip(d.l2_chain_id);
    lemma_le_u64_roundtrip(d.batch_number);
    lemma_le_u32_roundtrip(d.protocol_version);
}

/// Decoding all of the encoding of a settlement gives it back.
pub proof fn lemma_settlement_decode_all_roundtrip(d: SettlementDataView)
    requires
        d.wf(),
    ensures
        settlement_decode_all(settlement_encoding(d)) == Ok::<SettlementDataView, DecodeError>(d),
{
    lemma_settlement_roundtrip(d, Seq::empty());
    assert(settlement_encoding(d) + Seq::<u8>::empty() =~= settlement_encoding(d));
}

/// Bytes left after an encoded settlement make decoding all of the input fail.
pub proof fn lemma_settlement_trailing_bytes_rejected(d: SettlementDataView, extra: Seq<u8>)
    requires
        d.wf(),
        extra.len() > 0,
    ensures
        settlement_decode_all(settlement_encoding(d) + extra) == Err::<
            SettlementDataView,
            DecodeError,
        >(DecodeError::TrailingBytes),
{
    lemma_settlement_roundtrip(d, extra);
}

/// In an encoded settlement, the fields before the proof type take the first 148 bytes,
/// and the byte at offset 148 is the proof type's codec index.
pub proof fn lemma_discriminant_position(d: SettlementDataView)
    requires
        d.wf(),
    ensures
        settlement_prefix_encoding(d).len() == discriminant_offset(),
        settlement_encoding(d).subrange(0, discriminant_offset()) == settlement_prefix_encoding(
            d,
        ),
        settlement_encoding(d)[discriminant_offset()] == proof_type_index(d.proof_type),
{
    scale_roundtrips(d);
    let p = settlement_prefix_encoding(d);
    let e = settlement_encoding(d);
    assert(e.subrange(0, 148) =~= p);
}

/// Whatever the other bytes, a discriminant byte that names no proof system makes decoding
/// fail with that byte: `prefix` stands for the 148 bytes of the fields before it.
pub proof fn lemma_unknown_discriminant_rejected(prefix: Seq<u8>, b: u8, suffix: Seq<u8>)
    requires
        prefix.len() == discriminant_offset(),
        b >= 2,
    ensures
        settlement_decode(prefix + seq![b] + suffix) == Err::<(SettlementDataView, int), DecodeError>(
            DecodeError::UnknownProofType(b),
        ),
        settlement_decode_all(prefix + seq![b] + suffix) == Err::<SettlementDataView, DecodeError>(
            DecodeError::UnknownProofType(b),
        ),
{
    let s = prefix + seq![b] + suffix;
    assert(s[148] == b);
}

/// The codec index of the `ZkBatchSettlement` variant of a transaction output. Another
/// value would be a consensus-breaking change to the serialization format.
pub const ZK_BATCH_SETTLEMENT_OUTPUT_INDEX: u8 = 12;

/// The encoding of a `TxOutput::ZkBatchSettlement` output: the variant's codec index, then
/// the settlement data.
pub open spec fn settlement_output_encoding(d: SettlementDataView) -> Seq<u8> {
    seq![ZK_BATCH_SETTLEMENT_OUTPUT_INDEX] + settlement_encoding(d)
}

/// Decoding of a whole input as a `TxOutput::ZkBatchSettlement` output.
pub open spec fn settlement_output_decode_all(s: Seq<u8>) -> Result<
    SettlementDataView,
    DecodeError,
> {
    if s.len() < 1 {
        Err(DecodeError::UnexpectedEnd)
    } else if s[0] != ZK_BATCH_SETTLEMENT_OUTPUT_INDEX {
        Err(DecodeError::OtherOutputVariant(s[0]))
    } else {
        settlement_decode_all(s.subrange(1, s.len() as int))
    }
}

/// The encoding of the transaction output `TxOutput::ZkBatchSettlement(data)`.
pub fn encode_settlement_output(data: &ZkBatchSettlementData) -> (r: Vec<u8>)
    requires
        data.proof@.len() <= u32::MAX,
    ensures
        r@ == settlement_output_encoding(data@),
        r@ == seq![ZK_BATCH_SETTLEMENT_OUTPUT_INDEX] + settlement_encoding(data@),
        r@[0] == 12,
        is_settlement_layout(r@.subrange(1, r@.len() as int), data@),
{
    let mut out: Vec<u8> = Vec::new();
    out.push(ZK_BATCH_SETTLEMENT_OUTPUT_INDEX);
    let mut body = data.encode();
    let ghost b = body@;
    out.append(&mut body);
    assert(out@.subrange(1, out@.len() as int) =~= b);
    out
}

/// Decodes exactly the bytes given as a `TxOutput::ZkBatchSettlement` output; an output of
/// another variant is refused with its tag.
pub fn decode_settlement_output(bytes: &[u8]) -> (r: Result<ZkBatchSettlementData, DecodeError>)
    ensures
        match r {
            Ok(d) => settlement_output_decode_all(bytes@) == Ok::<SettlementDataView, DecodeError>(
                d@,
            ),
            Err(e) => settlement_output_decode_all(bytes@) == Err::<SettlementDataView, DecodeError>(
                e,
            ),
        },
        r is Ok ==> {
            &&& bytes@[0] == 12
            &&& settlement_decode_all(bytes@.subrange(1, bytes@.len() as int)) == Ok::<
                SettlementDataView,
                DecodeError,
            >(r->Ok_0@)
            &&& is_decoded_layout(
                bytes@.subrange(1, bytes@.len() as int),
                r->Ok_0@,
                bytes@.len() - 1,
            )
        },
        r is Err ==> {
            ||| bytes@.len() == 0 && r->Err_0 == DecodeError::UnexpectedEnd
            ||| bytes@.len() > 0 && bytes@[0] != 12 && r->Err_0 == DecodeError::OtherOutputVariant(
                bytes@[0],
            )
            ||| bytes@.len() > 0 && bytes@[0] == 12 && settlement_decode_all(
                bytes@.subrange(1, bytes@.len() as int),
            ) == Err::<SettlementDataView, DecodeError>(r->Err_0)
        },
{
    if bytes.len() < 1 {
        return Err(DecodeError::UnexpectedEnd);
    }
    if bytes[0] != ZK_BATCH_SETTLEMENT_OUTPUT_INDEX {
        return Err(DecodeError::OtherOutputVariant(bytes[0]));
    }
    ZkBatchSettlementData::decode_all(slice_subrange(bytes, 1, bytes.len()))
}

/// The encoding of a settlement output is the tag 12 followed by exactly the settlement's own
/// encoding, with every field of the settlement at its place one byte further on; and
/// decoding an output tagged 12 is decoding the settlement bytes after the tag.
pub proof fn lemma_settlement_output_layout(d: SettlementDataView, s: Seq<u8>)
    requires
        d.wf(),
    ensures
        settlement_output_encoding(d) == seq![12u8] + settlement_encoding(d),
        settlement_output_encoding(d)[0] == 12,
        is_settlement_layout(
            settlement_output_encoding(d).subrange(1, settlement_output_encoding(d).len() as int),
            d,
        ),
        s.len() > 0 && s[0] == 12 ==> settlement_output_decode_all(s) == settlement_decode_all(
            s.subrange(1, s.len() as int),
        ),
        s.len() > 0 && s[0] != 12 ==> settlement_output_decode_all(s) == Err::<
            SettlementDataView,
            DecodeError,
        >(DecodeError::OtherOutputVariant(s[0])),
{
    let e = settlement_output_encoding(d);
    assert(e.subrange(1, e.len() as int) =~= settlement_encoding(d));
    lemma_settlement_encoding_layout(d);
}

/// An encoded settlement output starts with the variant's codec index, and decodes back to
/// the settlement.
pub proof fn lemma_settlement_output_roundtrip(d: SettlementDataView)
    requires
        d.wf(),
    ensures
        settlement_output_encoding(d)[0] == ZK_BATCH_SETTLEMENT_OUTPUT_INDEX,
        settlement_output_decode_all(settlement_output_encoding(d)) == Ok::<
            SettlementDataView,
            DecodeError,
        >(d),
{
    let e = settlement_output_encoding(d);
    assert(e.subrange(1, e.len() as int) =~= settlement_encoding(d));
    lemma_settlement_decode_all_roundtrip(d);
}

} // verus!
