//! P-256 elliptic curve key pairs and their Diffie-Hellman shared secret.

use vstd::prelude::*;
use crate::crypto::{os_random, DHKey, PublicKeyX};

verus! {

/// The public key of the P-256 secret key with the big-endian bytes
/// `secret`: the two coordinates of its point, in big-endian byte order. No
/// key has the bytes of zero or of a number that is not below the order of
/// the curve.
pub uninterp spec fn p256_public(secret: Seq<u8>) -> Option<(Seq<u8>, Seq<u8>)>;

/// The shared secret of the P-256 secret key with the big-endian bytes
/// `secret` and the public key with the coordinates `x` and `y`: the X
/// coordinate of the shared point, in big-endian byte order. There is none
/// where `secret` is no secret key, or `x` and `y` are not the coordinates of
/// a point of the curve.
pub uninterp spec fn p256_shared(secret: Seq<u8>, x: Seq<u8>, y: Seq<u8>) -> Option<Seq<u8>>;

/// Computes the public key of a secret key with the `p256` crate:
/// `NonZeroScalar::from_repr` reads the secret key, and
/// `PublicKey::from_secret_scalar` gives its public key, whose coordinates
/// are taken from its uncompressed encoding. The result is the function
/// [`p256_public`] of the bytes of the secret key.
#[verifier::external_body]
fn public_of(secret: &[u8; 32]) -> (r: Option<([u8; 32], [u8; 32])>)
    ensures
        r.is_some() == p256_public(secret@).is_some(),
        r matches Some(k) ==> p256_public(secret@) == Some((k.0@, k.1@)),
{
    let s = ::p256::NonZeroScalar::from_repr((*secret).into());
    let s = Option::<::p256::NonZeroScalar>::from(s)?;
    let p = ::p256::EncodedPoint::from(::p256::PublicKey::from_secret_scalar(&s));
    Some(((*p.x()?).into(), (*p.y()?).into()))
}

/// Computes a shared secret with the `p256` crate: `NonZeroScalar::from_repr`
/// reads the secret key, `PublicKey::from_encoded_point` reads the public key
/// from its coordinates and tells whether they are those of a point of the
/// curve, and `ecdh::diffie_hellman` gives the shared secret, whose bytes are
/// taken. The result is the function [`p256_shared`] of the bytes of the
/// keys.
#[verifier::external_body]
fn shared_of(secret: &[u8; 32], x: &[u8; 32], y: &[u8; 32]) -> (r: Option<[u8; 32]>)
    ensures
        r.is_some() == p256_shared(secret@, x@, y@).is_some(),
        r matches Some(k) ==> p256_shared(secret@, x@, y@) == Some(k@),
{
    let s = ::p256::NonZeroScalar::from_repr((*secret).into());
    let s = Option::<::p256::NonZeroScalar>::from(s)?;
    let p = ::p256::EncodedPoint::from_affine_coordinates(&(*x).into(), &(*y).into(), false);
    let pk = <::p256::PublicKey as ::p256::elliptic_curve::sec1::FromEncodedPoint<
        ::p256::NistP256,
    >>::from_encoded_point(&p);
    let pk = Option::<::p256::PublicKey>::from(pk)?;
    Some((*::p256::ecdh::diffie_hellman(s, pk.as_affine()).raw_secret_bytes()).into())
}

/// The peer's public key is not a point of the curve.
#[derive(Clone, Copy, Debug, PartialEq, Eq, Structural)]
pub struct InvalidPublicKey;

/// P-256 elliptic curve public key: the two coordinates of its point, in
/// big-endian byte order.
#[derive(Clone, Copy, Debug)]
pub struct PublicKey {
    x: [u8; 32],
    y: [u8; 32],
}

impl PublicKey {
    /// The X coordinate.
    pub closed spec fn spec_x(&self) -> Seq<u8> {
        self.x@
    }

    /// The Y coordinate.
    pub closed spec fn spec_y(&self) -> Seq<u8> {
        self.y@
    }

    /// Creates a public key from the coordinates of its point, as a peer
    /// sent them.
    pub fn from_be_bytes(x: [u8; 32], y: [u8; 32]) -> (r: PublicKey)
        ensures
            r.spec_x() == x@,
            r.spec_y() == y@,
    {
        PublicKey { x, y }
    }

    /// Returns the X coordinate.
    pub fn x(&self) -> (r: PublicKeyX)
        ensures
            r@ == self.spec_x(),
    {
        PublicKeyX::from_be_bytes(self.x)
    }

    /// Returns the Y coordinate in big-endian byte order.
    pub fn y(&self) -> (r: &[u8; 32])
        ensures
            r@ == self.spec_y(),
    {
        &self.y
    }
}

/// P-256 elliptic curve secret key.
pub struct SecretKey {
    b: [u8; 32],
}

impl SecretKey {
    #[verifier::type_invariant]
    spec fn inv(self) -> bool {
        p256_public(self.b@).is_some()
    }

    /// The big-endian bytes of the key.
    pub closed spec fn spec_bytes(&self) -> Seq<u8> {
        self.b@
    }

    /// Generates a new random secret key from the OS CSPRNG. It returns
    /// `None` if the CSPRNG gave no bytes, or gave bytes that are no key.
    pub fn new() -> (r: Option<SecretKey>)
        ensures
            r matches Some(k) ==> p256_public(k.spec_bytes()).is_some(),
    {
        SecretKey::from_random(os_random::<32>())
    }

    /// Returns the secret key with the random bytes `b` as its big-endian
    /// bytes, or `None` where there are no bytes or they are the bytes of no
    /// key.
    pub fn from_random(b: Option<[u8; 32]>) -> (r: Option<SecretKey>)
        ensures
            r.is_some() == (b.is_some() && p256_public(b.unwrap()@).is_some()),
            r matches Some(k) ==> k.spec_bytes() == b.unwrap()@,
    {
        match b {
            Some(b) => SecretKey::from_be_bytes(b),
            None => None,
        }
    }

    /// Returns the secret key with the big-endian bytes `b`, or `None` where
    /// they are the bytes of no key.
    pub fn from_be_bytes(b: [u8; 32]) -> (r: Option<SecretKey>)
        ensures
            r.is_some() == p256_public(b@).is_some(),
            r matches Some(k) ==> k.spec_bytes() == b@,
    {
        match public_of(&b) {
            Some(_) => Some(SecretKey { b }),
            None => None,
        }
    }

    /// Computes the associated public key.
    pub fn public_key(&self) -> (r: PublicKey)
        ensures
            p256_public(self.spec_bytes()) == Some((r.spec_x(), r.spec_y())),
    {
        proof {
            use_type_invariant(self);
        }
        match public_of(&self.b) {
            Some((x, y)) => PublicKey { x, y },
            None => PublicKey { x: self.b, y: self.b },
        }
    }

    /// Computes the shared secret of this key and the peer's public key. It
    /// fails where the peer's key is not a point of the curve.
    pub fn dh_key(self, pk: &PublicKey) -> (r: Result<DHKey, InvalidPublicKey>)
        ensures
            r.is_ok() == p256_shared(self.spec_bytes(), pk.spec_x(), pk.spec_y()).is_some(),
            r matches Ok(k) ==> p256_shared(self.spec_bytes(), pk.spec_x(), pk.spec_y()) == Some(
                k@,
            ),
    {
        match shared_of(&self.b, &pk.x, &pk.y) {
            Some(k) => Ok(DHKey::from_be_bytes(k)),
            None => Err(InvalidPublicKey),
        }
    }
}

} // verus!
