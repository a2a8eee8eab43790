//! The point codec: deriving a public key from a private scalar and moving
//! keys to and from their two canonical external representations, the raw
//! 32-byte compressed encoding and its base58 text.
//!
//! The curve library supplies the group arithmetic and decides which byte
//! strings are canonical encodings; the codec models a key by those bytes and
//! validates every decoded input against the library's own check.

use vstd::prelude::*;
use vstd::std_specs::cmp::PartialEqSpec;

verus! {

broadcast use vstd::array::group_array_axioms;

/// The ways decoding an external key representation can fail.
#[derive(Clone, Copy, Debug, PartialEq, Eq, Structural)]
pub enum CodecError {
    /// The byte input is not exactly 32 bytes long.
    InvalidLength,
    /// The input is 32 bytes but not the canonical encoding of a group element.
    InvalidPoint,
    /// The text input is not a base58 string.
    InvalidEncoding,
}

/// The canonical compressed encoding of the public key that the curve library
/// derives from a 32-byte little-endian scalar representative.
pub uninterp spec fn pubkey_bytes(s: Seq<u8>) -> Seq<u8>;

/// Whether 32 bytes are the canonical compressed encoding of a group element.
pub uninterp spec fn is_canonical_point(b: Seq<u8>) -> bool;

/// The base58 text (Bitcoin alphabet, no checksum) of a byte string.
pub uninterp spec fn base58_of(b: Seq<u8>) -> Seq<char>;

/// The integer with the given little-endian bytes.
pub open spec fn le_bytes_to_nat(b: Seq<u8>) -> nat
    decreases b.len(),
{
    if b.len() == 0 {
        0
    } else {
        b[0] as nat + 256 * le_bytes_to_nat(b.subrange(1, b.len() as int))
    }
}

/// The order of the scalar field and of the group: 2^252 plus a 125-bit
/// constant.
pub open spec fn group_order() -> nat {
    0x1000000000000000000000000000000014def9dea2f79cd65812631a5cf5d3ed_nat
}

/// Whether 32 bytes are the canonical representative of a scalar-field
/// element: a little-endian integer below the group order.
pub open spec fn is_reduced_scalar(b: Seq<u8>) -> bool {
    b.len() == 32 && le_bytes_to_nat(b) < group_order()
}

/// Relies on curve25519_dalek: `Scalar::from_bytes_mod_order`, multiplication
/// by `RISTRETTO_BASEPOINT_POINT`, and `RistrettoPoint::compress`. The result
/// depends on the scalar bytes alone, and compressed encodings are canonical:
/// `decompress` accepts exactly the encodings `compress` produces. The last
/// clause is injectivity: the group has prime order, the base point generates
/// it, and no two group elements share an encoding, so scalars with distinct
/// reduced representatives derive points with distinct encodings.
#[verifier::external_body]
fn ristretto_mul_base(s: &[u8; 32]) -> (r: [u8; 32])
    ensures
        r@ == pubkey_bytes(s@),
        is_canonical_point(r@),
        forall|t: Seq<u8>|
            is_reduced_scalar(s@) && is_reduced_scalar(t) && t != s@ ==> pubkey_bytes(t) != r@,
{
    (curve25519_dalek::scalar::Scalar::from_bytes_mod_order(*s)
        * curve25519_dalek::constants::RISTRETTO_BASEPOINT_POINT)
        .compress()
        .to_bytes()
}

/// Relies on curve25519_dalek's `CompressedRistretto::decompress`, which
/// returns `Some` exactly when the 32 bytes are the canonical encoding of a
/// group element.
#[verifier::external_body]
fn ristretto_is_canonical(b: &[u8; 32]) -> (r: bool)
    ensures
        r == is_canonical_point(b@),
{
    curve25519_dalek::ristretto::CompressedRistretto(*b).decompress().is_some()
}

/// Relies on bs58's encoder with its default (Bitcoin) alphabet: the text
/// depends on the input bytes alone.
#[verifier::external_body]
fn bs58_encode_bytes(b: &[u8; 32]) -> (r: String)
    ensures
        r@ == base58_of(b@),
{
    bs58::encode(b).into_string()
}

/// Relies on bs58's decoder with its default (Bitcoin) alphabet. Decoding
/// inverts encoding: it succeeds exactly on the strings the encoder produces,
/// and returns the one byte string whose encoding is the input.
#[verifier::external_body]
fn bs58_decode_str(s: &str) -> (r: Option<Vec<u8>>)
    ensures
        match r {
            Some(v) => base58_of(v@) == s@ && (forall|b: Seq<u8>|
                base58_of(b) == s@ ==> b == v@),
            None => forall|b: Seq<u8>| base58_of(b) != s@,
        },
{
    bs58::decode(s).into_vec().ok()
}

/// The 32-byte little-endian representative of a 64-bit integer.
pub open spec fn u64_le_bytes(v: u64) -> Seq<u8> {
    Seq::new(32, |i: int| if 0 <= i < 8 {
        ((v >> ((8 * i) as u64)) & 0xff) as u8
    } else {
        0u8
    })
}

/// The byte at little-endian position `k` of a 64-bit integer.
fn le_byte_at(v: u64, k: u64) -> (r: u8)
    requires
        k < 8,
    ensures
        r == ((v >> ((8 * k) as u64)) & 0xff) as u8,
{
    let sh: u64 = 8 * k;
    let masked: u64 = (v >> sh) & 0xff;
    proof {
        assert((v >> sh) & 0xff < 256) by (bit_vector);
    }
    masked as u8
}

/// A private scalar, held as its 32-byte little-endian representative.
#[derive(Clone, Copy, Debug)]
pub struct Scalar {
    bytes: [u8; 32],
}

impl View for Scalar {
    type V = Seq<u8>;

    closed spec fn view(&self) -> Seq<u8> {
        self.bytes@
    }
}

impl Scalar {
    /// The scalar with the given small value.
    pub fn from_u64(v: u64) -> (r: Scalar)
        ensures
            r@ == u64_le_bytes(v),
    {
        let mut bytes: [u8; 32] = [0u8; 32];
        let mut k: usize = 0;
        while k < 8
            invariant
                k <= 8,
                forall|j: int| 0 <= j < k ==> bytes@[j] == ((v >> ((8 * j) as u64)) & 0xff) as u8,
                forall|j: int| k <= j < 32 ==> bytes@[j] == 0u8,
            decreases 8 - k,
        {
            bytes[k] = le_byte_at(v, k as u64);
            k = k + 1;
        }
        let r = Scalar { bytes };
        proof {
            assert(r@ =~= u64_le_bytes(v));
        }
        r
    }

    /// The scalar with the given 32-byte little-endian representative.
    pub fn from_bytes_le(bytes: [u8; 32]) -> (r: Scalar)
        ensures
            r@ == bytes@,
    {
        Scalar { bytes }
    }
}

/// A public key: an element of the prime-order group, held by its canonical
/// 32-byte compressed encoding.
#[derive(Clone, Copy, Debug)]
pub struct RistrettoPoint {
    bytes: [u8; 32],
}

impl View for RistrettoPoint {
    type V = Seq<u8>;

    closed spec fn view(&self) -> Seq<u8> {
        self.bytes@
    }
}

impl RistrettoPoint {
    /// Every key value holds the canonical encoding of a group element.
    #[verifier::type_invariant]
    spec fn inv(self) -> bool {
        is_canonical_point(self.bytes@)
    }
}

impl PartialEq for RistrettoPoint {
    fn eq(&self, other: &Self) -> (r: bool) {
        let mut i: usize = 0;
        while i < 32
            invariant
                i <= 32,
                forall|j: int| 0 <= j < i ==> self.bytes@[j] == other.bytes@[j],
            decreases 32 - i,
        {
            if self.bytes[i] != other.bytes[i] {
                return false;
            }
            i = i + 1;
        }
        proof {
            assert(self.bytes@ =~= other.bytes@);
        }
        true
    }
}

impl Eq for RistrettoPoint {
}

impl vstd::std_specs::cmp::PartialEqSpecImpl for RistrettoPoint {
    open spec fn obeys_eq_spec() -> bool {
        true
    }

    open spec fn eq_spec(&self, other: &Self) -> bool {
        self@ == other@
    }
}

/// Two keys are the same group element exactly when their canonical
/// encodings agree.
pub proof fn lemma_key_eq_is_byte_eq(p: &RistrettoPoint, q: &RistrettoPoint)
    ensures
        p.eq_spec(q) <==> p@ == q@,
{
}

/// Every key value is the canonical encoding of a group element, 32 bytes
/// long; byte decoding therefore accepts every encoded key.
pub fn key_is_canonical(p: &RistrettoPoint)
    ensures
        is_canonical_point(p@),
        p@.len() == 32,
{
    proof {
        use_type_invariant(p);
    }
}

/// The capability of deriving a public key from a private value.
pub trait PublicKeyComputable {
    /// The canonical encoding of the derived public key.
    spec fn pubkey_spec(&self) -> Seq<u8>;

    /// Derive the public key: the group's base point multiplied by this value.
    fn compute_pubkey(&self) -> (r: RistrettoPoint)
        ensures
            r@ == self.pubkey_spec(),
    ;
}

impl PublicKeyComputable for Scalar {
    open spec fn pubkey_spec(&self) -> Seq<u8> {
        pubkey_bytes(self@)
    }

    fn compute_pubkey(&self) -> (r: RistrettoPoint) {
        let bytes = ristretto_mul_base(&self.bytes);
        RistrettoPoint { bytes }
    }
}

/// The capability of moving a value to and from its two canonical external
/// representations: a raw 32-byte string, and that string's base58 text.
pub trait LocalByteConvertible: Sized {
    /// The canonical 32-byte representation of this value.
    spec fn key_bytes(&self) -> Seq<u8>;

    /// Which byte strings are the canonical representation of some value.
    spec fn valid_bytes(b: Seq<u8>) -> bool;

    /// The canonical byte representation.
    fn to_bytes(&self) -> (r: [u8; 32])
        ensures
            r@ == self.key_bytes(),
            Self::valid_bytes(r@),
    ;

    /// Decode a byte string, rejecting any input that is not the canonical
    /// representation of a value.
    fn from_bytes(bytes: &[u8]) -> (r: Result<Self, CodecError>)
        ensures
            r is Ok <==> (bytes@.len() == 32 && Self::valid_bytes(bytes@)),
            r matches Ok(p) ==> p.key_bytes() == bytes@,
            bytes@.len() != 32 ==> r == Err::<Self, CodecError>(CodecError::InvalidLength),
            bytes@.len() == 32 && !Self::valid_bytes(bytes@) ==> r == Err::<Self, CodecError>(
                CodecError::InvalidPoint,
            ),
    ;

    /// The base58 text of the canonical byte representation.
    fn to_base58(&self) -> (r: String)
        ensures
            r@ == base58_of(self.key_bytes()),
    ;

    /// Decode base58 text to bytes, then decode the bytes, propagating their
    /// rejection as it stands.
    fn from_base58(input: String) -> (r: Result<Self, CodecError>)
        ensures
            r matches Ok(p) ==> base58_of(p.key_bytes()) == input@ && Self::valid_bytes(
                p.key_bytes(),
            ),
            (forall|b: Seq<u8>| base58_of(b) != input@) <==> r == Err::<Self, CodecError>(
                CodecError::InvalidEncoding,
            ),
            forall|b: Seq<u8>| base58_of(b) == input@ && b.len() != 32 ==> r == Err::<
                Self,
                CodecError,
            >(CodecError::InvalidLength),
            forall|b: Seq<u8>| base58_of(b) == input@ && b.len() == 32 && !Self::valid_bytes(b)
                ==> r == Err::<Self, CodecError>(CodecError::InvalidPoint),
            forall|b: Seq<u8>| base58_of(b) == input@ && b.len() == 32 && Self::valid_bytes(b)
                ==> (r matches Ok(p) && p.key_bytes() == b),
    ;
}

/// A copy of a 32-byte slice into an array.
fn copy32(bytes: &[u8]) -> (r: [u8; 32])
    requires
        bytes@.len() == 32,
    ensures
        r@ == bytes@,
{
    let mut a: [u8; 32] = [0u8; 32];
    let mut i: usize = 0;
    while i < 32
        invariant
            i <= 32,
            bytes@.len() == 32,
            forall|j: int| 0 <= j < i ==> a@[j] == bytes@[j],
        decreases 32 - i,
    {
        a[i] = bytes[i];
        i = i + 1;
    }
    proof {
        assert(a@ =~= bytes@);
    }
    a
}

impl LocalByteConvertible for RistrettoPoint {
    open spec fn key_bytes(&self) -> Seq<u8> {
        self@
    }

    open spec fn valid_bytes(b: Seq<u8>) -> bool {
        is_canonical_point(b)
    }

    fn to_bytes(&self) -> (r: [u8; 32]) {
        proof {
            use_type_invariant(self);
        }
        self.bytes
    }

    fn from_bytes(bytes: &[u8]) -> (r: Result<Self, CodecError>) {
        if bytes.len() != 32 {
            return Err(CodecError::InvalidLength);
        }
        let a = copy32(bytes);
        if ristretto_is_canonical(&a) {
            Ok(RistrettoPoint { bytes: a })
        } else {
            Err(CodecError::InvalidPoint)
        }
    }

    fn to_base58(&self) -> (r: String) {
        bs58_encode_bytes(&self.bytes)
    }

    fn from_base58(input: String) -> (r: Result<Self, CodecError>) {
        match bs58_decode_str(input.as_str()) {
            None => Err(CodecError::InvalidEncoding),
            Some(v) => Self::from_bytes(v.as_slice()),
        }
    }
}

/// Round trip (bytes): re-decoding the canonical byte encoding of any public
/// key — in particular of any derived key — succeeds and returns that key.
pub fn bytes_round_trip(p: &RistrettoPoint) -> (r: RistrettoPoint)
    ensures
        r@ == p@,
{
    proof {
        use_type_invariant(p);
    }
    let encoded = p.to_bytes();
    match RistrettoPoint::from_bytes(encoded.as_slice()) {
        Ok(q) => q,
        Err(_) => vstd::pervasive::unreached(),
    }
}

/// Round trip (base58): re-decoding the base58 text of any public key — in
/// particular of any derived key — succeeds and returns that key.
pub fn base58_round_trip(p: &RistrettoPoint) -> (r: RistrettoPoint)
    ensures
        r@ == p@,
{
    proof {
        use_type_invariant(p);
    }
    let text = p.to_base58();
    let ghost input = text@;
    match RistrettoPoint::from_base58(text) {
        Ok(q) => q,
        Err(_) => {
            proof {
                assert(base58_of(p@) == input);
            }
            vstd::pervasive::unreached()
        },
    }
}

/// Distinctness: two scalars with distinct reduced representatives derive
/// distinct public keys. The group has prime order and the base point
/// generates it, so derivation is injective on reduced scalars — the zero
/// scalar included, whose key (the identity) no other reduced scalar derives.
pub fn derived_keys_distinct(s1: &Scalar, s2: &Scalar) -> (r: (RistrettoPoint, RistrettoPoint))
    requires
        is_reduced_scalar(s1@),
        is_reduced_scalar(s2@),
        s1@ != s2@,
    ensures
        r.0@ == s1.pubkey_spec(),
        r.1@ == s2.pubkey_spec(),
        r.0@ != r.1@,
{
    let b1 = ristretto_mul_base(&s1.bytes);
    let b2 = ristretto_mul_base(&s2.bytes);
    proof {
        assert(pubkey_bytes(s1@) != b2@);
    }
    (RistrettoPoint { bytes: b1 }, RistrettoPoint { bytes: b2 })
}

/// Determinism: derivation and both encodings depend on their inputs' values
/// alone, so repeated calls on equal values give equal results.
pub proof fn lemma_codec_deterministic(s1: Scalar, s2: Scalar, p1: RistrettoPoint, p2: RistrettoPoint)
    requires
        s1@ == s2@,
        p1@ == p2@,
    ensures
        s1.pubkey_spec() == s2.pubkey_spec(),
        p1.key_bytes() == p2.key_bytes(),
        base58_of(p1.key_bytes()) == base58_of(p2.key_bytes()),
{
}

} // verus!
