//! Curve math: integers written as bytes, secp256k1 scalars and points held
//! as plain bytes, and the calls into k256 and the hash crates.

use vstd::prelude::*;
use vstd::slice::slice_subrange;

verus! {

/// The order of the secp256k1 group.
pub open spec fn group_order() -> nat {
    0xFFFF_FFFF_FFFF_FFFF_FFFF_FFFF_FFFF_FFFE * 0x1_0000_0000_0000_0000 * 0x1_0000_0000_0000_0000
        + 0xBAAE_DCE6_AF48_A03B_BFD2_5E8C_D036_4141
}

/// The integer that `s` spells in big-endian order.
pub open spec fn be_value(s: Seq<u8>) -> nat
    decreases s.len(),
{
    if s.len() == 0 {
        0
    } else {
        be_value(s.drop_last()) * 256 + s.last() as nat
    }
}

/// The `len` low-order bytes of `v`, most significant first.
pub open spec fn be_bytes(v: nat, len: nat) -> Seq<u8>
    decreases len,
{
    if len == 0 {
        seq![]
    } else {
        be_bytes(v / 256, (len - 1) as nat).push((v % 256) as u8)
    }
}

/// The SEC1 tag of an uncompressed point.
pub open spec fn sec1_tag_uncompressed() -> u8 {
    4
}

/// What k256 makes of a SEC1 encoding: the uncompressed encoding of the
/// point it denotes, or nothing where it denotes no point of the curve.
pub uninterp spec fn sec1_uncompressed(encoded: Seq<u8>) -> Option<Seq<u8>>;

/// What k256 gives for `root + tweak * G` as an uncompressed SEC1 encoding,
/// where `root` is a SEC1 encoding and `tweak` a big-endian scalar; nothing
/// where `root` denotes no point or the sum is the point at infinity.
pub uninterp spec fn offset_point(root: Seq<u8>, tweak: Seq<u8>) -> Option<Seq<u8>>;

/// The base58 (bitcoin alphabet) decoding of `text`, or nothing where a
/// character lies outside the alphabet.
pub uninterp spec fn base58_decoded(text: Seq<u8>) -> Option<Seq<u8>>;

/// The SHA3-256 digest of `data`.
pub uninterp spec fn sha3_256(data: Seq<u8>) -> Seq<u8>;

/// The Keccak-256 digest of `data`.
pub uninterp spec fn keccak256(data: Seq<u8>) -> Seq<u8>;

/// `X || Y` is a point of the curve (not the point at infinity).
pub open spec fn is_curve_point(xy: Seq<u8>) -> bool {
    xy.len() == 64 && sec1_uncompressed(seq![sec1_tag_uncompressed()] + xy) == Some(
        seq![sec1_tag_uncompressed()] + xy,
    )
}

/// The contents of an optional byte vector.
pub open spec fn opt_bytes(o: Option<Vec<u8>>) -> Option<Seq<u8>> {
    match o {
        Some(v) => Some(v@),
        None => None,
    }
}

/// The lowercase hexadecimal digit for `d < 16`.
pub open spec fn hex_digit(d: u8) -> char {
    if d < 10 {
        (('0' as u8) + d) as char
    } else {
        (('a' as u8) + d - 10) as char
    }
}

/// Two lowercase hexadecimal digits per byte, high half first.
pub open spec fn hex_lower(data: Seq<u8>) -> Seq<char>
    decreases data.len(),
{
    if data.len() == 0 {
        seq![]
    } else {
        seq![hex_digit(data[0] / 16), hex_digit(data[0] % 16)] + hex_lower(data.drop_first())
    }
}

/// Relies on k256's `Reduce<U256>` for `Scalar` and `Scalar::to_bytes`: the
/// 32 bytes read as a big-endian integer, taken modulo the group order, and
/// written back as 32 big-endian bytes.
#[verifier::external_body]
fn reduce_to_scalar(bytes: &[u8; 32]) -> (r: [u8; 32])
    ensures
        r@ == be_bytes(be_value(bytes@) % group_order(), 32),
{
    let s = <k256::Scalar as k256::elliptic_curve::ops::Reduce<k256::U256>>::reduce_bytes(
        &(*bytes).into(),
    );
    s.to_bytes().into()
}

/// Relies on k256's `VerifyingKey::from_sec1_bytes` and `to_encoded_point(false)`:
/// a valid encoding (compressed or not) of a point other than infinity is
/// re-encoded uncompressed; an uncompressed one comes back as it was, and a
/// compressed one keeps its X coordinate.
#[verifier::external_body]
pub(crate) fn parse_sec1(encoded: &[u8]) -> (r: Option<Vec<u8>>)
    ensures
        opt_bytes(r) == sec1_uncompressed(encoded@),
        r matches Some(v) ==> v@.len() == 65 && v@[0] == sec1_tag_uncompressed(),
        r matches Some(v) ==> (encoded@.len() == 65 ==> v@ == encoded@),
        r matches Some(v) ==> (encoded@.len() == 33 ==> v@.subrange(1, 33) == encoded@.subrange(1, 33)),
{
    let key = k256::ecdsa::VerifyingKey::from_sec1_bytes(encoded).ok()?;
    Some(key.to_encoded_point(false).as_bytes().to_vec())
}

/// Relies on k256's point arithmetic: `G * tweak + root`, made affine and
/// accepted by `VerifyingKey::from_affine` (which refuses infinity), then
/// encoded uncompressed. The tweak is read as a big-endian scalar.
#[verifier::external_body]
pub(crate) fn add_generator_multiple(root: &[u8], tweak: &[u8; 32]) -> (r: Option<Vec<u8>>)
    ensures
        opt_bytes(r) == offset_point(root@, tweak@),
        r matches Some(v) ==> v@.len() == 65 && v@[0] == sec1_tag_uncompressed()
            && sec1_uncompressed(v@) == Some(v@),
{
    let root = k256::ecdsa::VerifyingKey::from_sec1_bytes(root).ok()?;
    let eps = <k256::Scalar as k256::elliptic_curve::ops::Reduce<k256::U256>>::reduce_bytes(
        &(*tweak).into(),
    );
    let sum = (k256::ProjectivePoint::GENERATOR * eps + root.as_affine()).to_affine();
    let child = k256::ecdsa::VerifyingKey::from_affine(sum).ok()?;
    Some(child.to_encoded_point(false).as_bytes().to_vec())
}

/// Relies on `bs58::decode(..).into_vec()`, bitcoin alphabet.
#[verifier::external_body]
pub(crate) fn base58_decode(text: &[u8]) -> (r: Option<Vec<u8>>)
    ensures
        opt_bytes(r) == base58_decoded(text@),
{
    bs58::decode(text).into_vec().ok()
}

/// Relies on sha3's `Sha3_256::digest`.
#[verifier::external_body]
pub(crate) fn sha3_256_digest(data: &[u8]) -> (r: [u8; 32])
    ensures
        r@ == sha3_256(data@),
{
    <sha3::Sha3_256 as sha3::Digest>::digest(data).into()
}

/// Relies on ethers-core's `utils::keccak256`.
#[verifier::external_body]
pub(crate) fn keccak256_digest(data: &[u8]) -> (r: [u8; 32])
    ensures
        r@ == keccak256(data@),
{
    ethers_core::utils::keccak256(data)
}

/// Relies on ethers-core's `utils::hex::encode` (const-hex): two lowercase
/// hexadecimal digits per byte.
#[verifier::external_body]
pub(crate) fn hex_encode(data: &[u8]) -> (r: String)
    ensures
        r@ == hex_lower(data@),
{
    ethers_core::utils::hex::encode(data)
}

/// Why a key could not be read or derived.
#[derive(Debug, Clone, Copy, PartialEq, Eq, Structural)]
pub enum KdfError {
    /// The root key's text has the wrong prefix, alphabet or length, or
    /// its bytes are not a point of the curve.
    InvalidKeyEncoding,
    /// The derived point is the point at infinity.
    InvalidDerivedKey,
}

/// A secp256k1 scalar as 32 big-endian bytes.
#[derive(Debug, Clone, Copy, PartialEq, Eq)]
pub struct Scalar {
    pub bytes: [u8; 32],
}

/// Building a scalar from 32 big-endian bytes, reduced modulo the group
/// order.
pub trait ScalarExt: Sized {
    fn from_bytes(bytes: &[u8]) -> (r: Self)
        requires
            bytes@.len() == 32,
    ;
}

impl ScalarExt for Scalar {
    fn from_bytes(bytes: &[u8]) -> (r: Scalar)
        ensures
            r.bytes@ == be_bytes(be_value(bytes@) % group_order(), 32),
    {
        let mut raw = [0u8; 32];
        let mut i: usize = 0;
        while i < 32
            invariant
                bytes@.len() == 32,
                i <= 32,
                forall|j: int| 0 <= j < i ==> raw@[j] == bytes@[j],
            decreases 32 - i,
        {
            raw[i] = bytes[i];
            i = i + 1;
        }
        assert(raw@ =~= bytes@);
        scalar_from_hash(&raw)
    }
}

/// An affine point given by its coordinates, each 32 big-endian bytes.
#[derive(Debug, Clone, Copy, PartialEq, Eq)]
pub struct AffinePoint {
    pub x: [u8; 32],
    pub y: [u8; 32],
}

impl View for AffinePoint {
    type V = Seq<u8>;

    /// `X || Y`.
    open spec fn view(&self) -> Seq<u8> {
        self.x@ + self.y@
    }
}

/// A point of the curve other than infinity: a public key.
#[derive(Debug, Clone, Copy, PartialEq, Eq)]
pub struct VerifyingKey {
    point: AffinePoint,
}

impl View for VerifyingKey {
    type V = Seq<u8>;

    /// `X || Y`.
    closed spec fn view(&self) -> Seq<u8> {
        self.point@
    }
}

impl VerifyingKey {
    #[verifier::type_invariant]
    spec fn on_curve(self) -> bool {
        is_curve_point(self.point@)
    }

    /// Accepts `point` if it lies on the curve.
    pub fn from_affine(point: AffinePoint) -> (r: Result<VerifyingKey, KdfError>)
        ensures
            is_curve_point(point@) ==> (r matches Ok(k) && k@ == point@),
            !is_curve_point(point@) ==> r == Err::<VerifyingKey, KdfError>(
                KdfError::InvalidKeyEncoding,
            ),
    {
        let sec1 = uncompressed_sec1(&point);
        match parse_sec1(sec1.as_slice()) {
            Some(v) => {
                if bytes_equal(v.as_slice(), sec1.as_slice()) {
                    Ok(VerifyingKey { point })
                } else {
                    Err(KdfError::InvalidKeyEncoding)
                }
            },
            None => Err(KdfError::InvalidKeyEncoding),
        }
    }

    pub fn as_affine(&self) -> (r: &AffinePoint)
        ensures
            r@ == self@,
            is_curve_point(r@),
    {
        proof {
            use_type_invariant(self);
        }
        &self.point
    }

    /// The uncompressed SEC1 encoding: the tag 4, then `X || Y`.
    pub fn to_uncompressed(&self) -> (r: Vec<u8>)
        ensures
            r@ == seq![sec1_tag_uncompressed()] + self@,
            is_curve_point(self@),
    {
        proof {
            use_type_invariant(self);
        }
        uncompressed_sec1(&self.point)
    }
}

/// The tag 4 followed by `X || Y`.
pub(crate) fn uncompressed_sec1(p: &AffinePoint) -> (r: Vec<u8>)
    ensures
        r@ == seq![sec1_tag_uncompressed()] + p@,
{
    let mut out: Vec<u8> = Vec::new();
    out.push(4u8);
    out.extend_from_slice(p.x.as_slice());
    out.extend_from_slice(p.y.as_slice());
    assert(out@ =~= seq![sec1_tag_uncompressed()] + p@);
    out
}

/// Whether two byte strings are equal.
pub fn bytes_equal(a: &[u8], b: &[u8]) -> (r: bool)
    ensures
        r == (a@ == b@),
{
    if a.len() != b.len() {
        return false;
    }
    let mut i: usize = 0;
    while i < a.len()
        invariant
            a@.len() == b@.len(),
            i <= a@.len(),
            forall|j: int| 0 <= j < i ==> a@[j] == b@[j],
        decreases a@.len() - i,
    {
        if a[i] != b[i] {
            return false;
        }
        i = i + 1;
    }
    assert(a@ =~= b@);
    true
}

/// The point whose `X || Y` is `xy`.
pub(crate) fn point_from_bytes(xy: &[u8]) -> (r: AffinePoint)
    requires
        xy@.len() == 64,
    ensures
        r@ == xy@,
{
    let mut x = [0u8; 32];
    let mut y = [0u8; 32];
    let mut i: usize = 0;
    while i < 32
        invariant
            xy@.len() == 64,
            i <= 32,
            forall|j: int| 0 <= j < i ==> x@[j] == xy@[j] && y@[j] == xy@[32 + j],
        decreases 32 - i,
    {
        x[i] = xy[i];
        y[i] = xy[32 + i];
        i = i + 1;
    }
    let r = AffinePoint { x, y };
    assert(r@ =~= xy@);
    r
}

/// Reduces a 256-bit big-endian integer modulo the group order, with no
/// rejection sampling: the slight bias towards small scalars is accepted.
pub fn scalar_from_hash(bytes: &[u8; 32]) -> (r: Scalar)
    ensures
        r.bytes@ == be_bytes(be_value(bytes@) % group_order(), 32),
{
    Scalar { bytes: reduce_to_scalar(bytes) }
}

} // verus!
