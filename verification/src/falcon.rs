//! Falcon-512 public keys and signatures.

use crate::bytes::{bytes_equal, copy_at};
use vstd::prelude::*;
use vstd::slice::slice_subrange;
use vstd::std_specs::cmp::PartialEqSpec;

verus! {

/// Falcon-512 public key size in bytes.
pub const FALCON512_PUBKEY_LEN: usize = 897;

/// Maximum Falcon-512 detached signature size in bytes.
///
/// Falcon signatures are variable-length. On the wire this many bytes are
/// always reserved, and a 2-byte little-endian prefix holds the actual length.
pub const FALCON512_SIG_MAX_LEN: usize = 666;

/// Bytes of a signature on the wire: the length prefix and the reserved bytes.
pub const FALCON512_SIG_WIRE_LEN: usize = 2 + FALCON512_SIG_MAX_LEN;

/// Total bytes of a Falcon signer in the signature section of a transaction:
/// the length prefix, the public key and the reserved signature bytes.
pub const FALCON512_WIRE_LEN: usize = 2 + FALCON512_PUBKEY_LEN + FALCON512_SIG_MAX_LEN;

/// Algorithm identifier for Falcon-512. It is not on the wire: the bit that
/// signals post-quantum signatures is a pure flag, and the algorithm is always
/// this one.
pub const FALCON512_ALGORITHM_ID: u32 = 0;

/// A Falcon-512 public key (897 bytes).
pub struct FalconPublicKey([u8; FALCON512_PUBKEY_LEN]);

impl View for FalconPublicKey {
    type V = Seq<u8>;

    closed spec fn view(&self) -> Seq<u8> {
        self.0@
    }
}

impl FalconPublicKey {
    /// Construct from a 897-byte slice. Returns `None` on wrong length.
    pub fn from_bytes(bytes: &[u8]) -> (key: Option<Self>)
        ensures
            key is Some <==> bytes@.len() == 897,
            key matches Some(k) ==> k@ == bytes@,
    {
        if bytes.len() != FALCON512_PUBKEY_LEN {
            return None;
        }
        let mut buf = [0u8; FALCON512_PUBKEY_LEN];
        copy_at(&mut buf, 0, bytes);
        assert(buf@ =~= bytes@);
        Some(FalconPublicKey(buf))
    }

    /// Raw bytes.
    pub fn as_bytes(&self) -> (bytes: &[u8; FALCON512_PUBKEY_LEN])
        ensures
            bytes@ == self@,
    {
        &self.0
    }
}

impl Clone for FalconPublicKey {
    fn clone(&self) -> (copy: Self)
        ensures
            copy == *self,
    {
        FalconPublicKey(self.0)
    }
}

impl PartialEq for FalconPublicKey {
    fn eq(&self, other: &Self) -> (equal: bool) {
        bytes_equal(self.0.as_slice(), other.0.as_slice())
    }
}

impl vstd::std_specs::cmp::PartialEqSpecImpl for FalconPublicKey {
    open spec fn obeys_eq_spec() -> bool {
        true
    }

    open spec fn eq_spec(&self, other: &Self) -> bool {
        self@ == other@
    }
}

impl Eq for FalconPublicKey {

}

/// A public key always holds 897 bytes.
pub proof fn law_public_key_length(key: FalconPublicKey)
    ensures
        key@.len() == FALCON512_PUBKEY_LEN,
        key@.len() == 897,
{
}

/// The byte strings that can be a signature: not empty, and no longer than
/// the bytes that the wire format reserves.
pub open spec fn is_signature_length(len: nat) -> bool {
    1 <= len <= FALCON512_SIG_MAX_LEN
}

/// A signature filled up with zeros to the reserved size.
pub open spec fn zero_padded(signature: Seq<u8>) -> Seq<u8> {
    signature + Seq::new((FALCON512_SIG_MAX_LEN - signature.len()) as nat, |i: int| 0u8)
}

/// The wire format: the length as two bytes, least significant first, then
/// the zero-padded signature.
pub open spec fn wire_format(signature: Seq<u8>) -> Seq<u8> {
    seq![(signature.len() % 256) as u8, (signature.len() / 256) as u8] + zero_padded(signature)
}

/// The length that the prefix of a wire representation holds.
pub open spec fn wire_length(wire: Seq<u8>) -> nat {
    wire[0] as nat + 256 * wire[1] as nat
}

/// The signature that a wire representation holds.
pub open spec fn wire_signature(wire: Seq<u8>) -> Seq<u8> {
    wire.subrange(2, 2 + wire_length(wire) as int)
}

/// The wire representations that a signature can be read from. What stands
/// after the signature does not matter.
pub open spec fn is_wire_format(wire: Seq<u8>) -> bool {
    wire.len() == FALCON512_SIG_WIRE_LEN && is_signature_length(wire_length(wire))
}

/// A Falcon-512 detached signature (variable length, up to 666 bytes).
///
/// On the wire the signature section always occupies
/// [`FALCON512_SIG_MAX_LEN`] bytes (zero-padded), preceded by a 2-byte
/// little-endian prefix with the actual length.
pub struct FalconSignature {
    buf: [u8; FALCON512_SIG_MAX_LEN],
    len: usize,
}

impl View for FalconSignature {
    type V = Seq<u8>;

    /// The actual signature bytes.
    closed spec fn view(&self) -> Seq<u8> {
        self.buf@.take(self.len as int)
    }
}

impl FalconSignature {
    #[verifier::type_invariant]
    spec fn is_zero_padded(self) -> bool {
        &&& is_signature_length(self.len as nat)
        &&& self.buf@ == zero_padded(self@)
    }

    /// What holds of every signature.
    pub open spec fn wf(self) -> bool {
        is_signature_length(self@.len())
    }

    /// Construct from raw bytes (actual signature, not padded).
    /// Returns `None` if the slice is empty or exceeds 666 bytes.
    pub fn from_bytes(bytes: &[u8]) -> (signature: Option<Self>)
        ensures
            signature is Some <==> is_signature_length(bytes@.len()),
            signature is Some <==> (1 <= bytes@.len() <= 666),
            signature matches Some(s) ==> s.wf() && s@ == bytes@,
    {
        if bytes.is_empty() || bytes.len() > FALCON512_SIG_MAX_LEN {
            return None;
        }
        let mut buf = [0u8; FALCON512_SIG_MAX_LEN];
        copy_at(&mut buf, 0, bytes);
        assert(buf@ =~= zero_padded(bytes@));
        assert(buf@.take(bytes@.len() as int) =~= bytes@);
        Some(FalconSignature { buf, len: bytes.len() })
    }

    /// Construct from the padded wire representation.
    ///
    /// `wire` must be exactly `2 + FALCON512_SIG_MAX_LEN` bytes:
    /// `[actual_len_le16][signature_padded_to_666]`. Returns `None` for any
    /// other length, and if the prefix is zero or exceeds 666. The bytes after
    /// the signature are not looked at.
    pub fn from_wire(wire: &[u8]) -> (signature: Option<Self>)
        ensures
            signature is Some <==> is_wire_format(wire@),
            signature is Some <==> (wire@.len() == 668 && 1 <= wire@[0] + 256 * wire@[1] <= 666),
            signature matches Some(s) ==> s.wf() && s@ == wire_signature(wire@),
            signature matches Some(s) ==> s@.len() == wire@[0] + 256 * wire@[1],
            signature matches Some(s) ==> forall|i: int|
                0 <= i < s@.len() ==> #[trigger] s@[i] == wire@[2 + i],
    {
        if wire.len() != FALCON512_SIG_WIRE_LEN {
            return None;
        }
        let actual_len: usize = wire[0] as usize + 256 * (wire[1] as usize);
        if actual_len == 0 || actual_len > FALCON512_SIG_MAX_LEN {
            return None;
        }
        Self::from_bytes(slice_subrange(wire, 2, 2 + actual_len))
    }

    /// Actual signature bytes (not padded).
    pub fn as_bytes(&self) -> (bytes: &[u8])
        ensures
            bytes@ == self@,
            self.wf(),
    {
        proof {
            use_type_invariant(self);
        }
        let bytes = slice_subrange(self.buf.as_slice(), 0, self.len);
        assert(bytes@ =~= self@);
        bytes
    }

    /// Actual signature length.
    pub fn len(&self) -> (len: usize)
        ensures
            len == self@.len(),
            self.wf(),
    {
        proof {
            use_type_invariant(self);
        }
        self.len
    }

    /// Whether the signature has no bytes, which is never so.
    pub fn is_empty(&self) -> (empty: bool)
        ensures
            empty == (self@.len() == 0),
            !empty,
    {
        proof {
            use_type_invariant(self);
        }
        self.len == 0
    }

    /// Serialize to the wire format: `[actual_len_le16][signature_padded_to_666]`.
    pub fn to_wire(&self) -> (wire: [u8; FALCON512_SIG_WIRE_LEN])
        ensures
            self.wf(),
            wire@ == wire_format(self@),
            wire@[0] + 256 * wire@[1] == self@.len(),
            forall|i: int| 0 <= i < self@.len() ==> wire@[2 + i] == #[trigger] self@[i],
            forall|i: int| 2 + self@.len() <= i < 668 ==> wire@[i] == 0,
    {
        proof {
            use_type_invariant(self);
        }
        let mut out = [0u8; FALCON512_SIG_WIRE_LEN];
        out[0] = (self.len % 256) as u8;
        out[1] = (self.len / 256) as u8;
        copy_at(&mut out, 2, self.buf.as_slice());
        assert(out@ =~= wire_format(self@));
        out
    }
}

impl Clone for FalconSignature {
    fn clone(&self) -> (copy: Self)
        ensures
            copy == *self,
    {
        proof {
            use_type_invariant(self);
        }
        FalconSignature { buf: self.buf, len: self.len }
    }
}

/// What [`FalconSignature::to_wire`] writes, [`FalconSignature::from_wire`]
/// accepts and reads back.
pub proof fn law_wire_read_after_write(signature: FalconSignature)
    requires
        signature.wf(),
    ensures
        is_wire_format(wire_format(signature@)),
        wire_signature(wire_format(signature@)) == signature@,
{
    let wire = wire_format(signature@);
    assert(wire_length(wire) == signature@.len());
    assert(wire_signature(wire) =~= signature@);
}

/// Every zero-padded wire representation that is accepted is written back
/// unchanged.
pub proof fn law_wire_write_after_read(wire: Seq<u8>)
    requires
        is_wire_format(wire),
        forall|i: int| 2 + wire_length(wire) <= i < FALCON512_SIG_WIRE_LEN ==> wire[i] == 0,
    ensures
        wire_format(wire_signature(wire)) == wire,
{
    let len = wire_length(wire);
    assert(wire_signature(wire).len() == len);
    assert(len % 256 == wire[0] && len / 256 == wire[1]);
    assert(wire_format(wire_signature(wire)) =~= wire);
}

/// On the wire the signature section always has the same size, begins with
/// the signature and is zero-padded, wherever the signature came from.
pub proof fn law_wire_is_zero_padded(signature: FalconSignature)
    requires
        signature.wf(),
    ensures
        wire_format(signature@).len() == FALCON512_SIG_WIRE_LEN,
        wire_format(signature@).subrange(2, 2 + signature@.len() as int) == signature@,
        forall|i: int|
            2 + signature@.len() <= i < FALCON512_SIG_WIRE_LEN ==> wire_format(signature@)[i] == 0,
{
    let wire = wire_format(signature@);
    assert(wire.subrange(2, 2 + signature@.len() as int) =~= signature@);
}

/// Two public keys are equal exactly if all their bytes are.
pub proof fn law_public_key_equality(one: FalconPublicKey, other: FalconPublicKey)
    ensures
        one.eq_spec(&other) <==> (forall|i: int| 0 <= i < 897 ==> one@[i] == other@[i]),
{
    if forall|i: int| 0 <= i < 897 ==> one@[i] == other@[i] {
        assert(one@ =~= other@);
    }
}

/// A signature has between 1 and 666 bytes.
pub proof fn law_signature_length(signature: FalconSignature, len: nat)
    ensures
        is_signature_length(len) <==> 1 <= len <= 666,
        signature.wf() <==> 1 <= signature@.len() <= 666,
{
}

/// The bytes on the wire: the length, least significant byte first, the bytes
/// of the signature one by one, and zeros up to the 668th byte.
pub proof fn law_wire_layout(signature: Seq<u8>)
    requires
        1 <= signature.len() <= 666,
    ensures
        wire_format(signature).len() == 668,
        wire_format(signature)[0] + 256 * wire_format(signature)[1] == signature.len(),
        forall|i: int|
            0 <= i < signature.len() ==> wire_format(signature)[2 + i] == #[trigger] signature[i],
        forall|i: int| 2 + signature.len() <= i < 668 ==> wire_format(signature)[i] == 0,
{
}

/// What is read off the wire: as many bytes as the two bytes of the prefix say,
/// least significant byte first, and they are the bytes that follow the prefix.
/// Nothing is read if there are not 668 bytes, or if the prefix says nothing or
/// more than 666.
pub proof fn law_wire_prefix_is_the_length(wire: Seq<u8>)
    ensures
        is_wire_format(wire) <==> (wire.len() == 668 && 1 <= wire[0] + 256 * wire[1] <= 666),
        is_wire_format(wire) ==> wire_signature(wire).len() == wire[0] + 256 * wire[1],
        is_wire_format(wire) ==> forall|i: int|
            0 <= i < wire_signature(wire).len() ==> #[trigger] wire_signature(wire)[i] == wire[2
                + i],
{
}

} // verus!
