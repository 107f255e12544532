//! Raw symmetric keys, whose length the transformation kind alone decides.

use vstd::prelude::*;
use crate::cdr::{octets_to_array, same_octets};
use crate::error::SecurityError;
use crate::transformation_kind::BuiltinCryptoTransformationKind;

verus! {

/// The three lengths that a raw key can have.
#[derive(Debug, Clone, Copy, PartialEq, Eq, Structural)]
pub enum KeyLength {
    Zero,
    AES128,
    AES256,
}

impl KeyLength {
    /// The number of bytes of a key of this length.
    pub open spec fn spec_bytes(self) -> usize {
        match self {
            KeyLength::Zero => 0,
            KeyLength::AES128 => 16,
            KeyLength::AES256 => 32,
        }
    }

    /// The length that keys of a transformation kind must have.
    pub open spec fn spec_of(kind: BuiltinCryptoTransformationKind) -> KeyLength {
        match kind {
            BuiltinCryptoTransformationKind::CRYPTO_TRANSFORMATION_KIND_NONE => KeyLength::Zero,
            BuiltinCryptoTransformationKind::CRYPTO_TRANSFORMATION_KIND_AES128_GMAC => KeyLength::AES128,
            BuiltinCryptoTransformationKind::CRYPTO_TRANSFORMATION_KIND_AES128_GCM => KeyLength::AES128,
            BuiltinCryptoTransformationKind::CRYPTO_TRANSFORMATION_KIND_AES256_GMAC => KeyLength::AES256,
            BuiltinCryptoTransformationKind::CRYPTO_TRANSFORMATION_KIND_AES256_GCM => KeyLength::AES256,
        }
    }

    /// The number of bytes of a key of this length.
    #[verifier::when_used_as_spec(spec_bytes)]
    pub fn bytes(self) -> (n: usize)
        ensures
            n == self.spec_bytes(),
    {
        match self {
            KeyLength::Zero => 0,
            KeyLength::AES128 => 16,
            KeyLength::AES256 => 32,
        }
    }

    /// The length that keys of a transformation kind must have.
    pub fn of(kind: BuiltinCryptoTransformationKind) -> (length: KeyLength)
        ensures
            length == Self::spec_of(kind),
    {
        match kind {
            BuiltinCryptoTransformationKind::CRYPTO_TRANSFORMATION_KIND_NONE => KeyLength::Zero,
            BuiltinCryptoTransformationKind::CRYPTO_TRANSFORMATION_KIND_AES128_GMAC => KeyLength::AES128,
            BuiltinCryptoTransformationKind::CRYPTO_TRANSFORMATION_KIND_AES128_GCM => KeyLength::AES128,
            BuiltinCryptoTransformationKind::CRYPTO_TRANSFORMATION_KIND_AES256_GMAC => KeyLength::AES256,
            BuiltinCryptoTransformationKind::CRYPTO_TRANSFORMATION_KIND_AES256_GCM => KeyLength::AES256,
        }
    }
}

/// The number of key bytes that a transformation kind asks for.
pub open spec fn spec_required_length(kind: BuiltinCryptoTransformationKind) -> nat {
    KeyLength::spec_of(kind).spec_bytes() as nat
}

/// The number of key bytes that a transformation kind asks for: none without
/// protection, 16 for the 128-bit modes, 32 for the 256-bit modes.
pub fn required_length(kind: BuiltinCryptoTransformationKind) -> (n: usize)
    ensures
        n == spec_required_length(kind),
        n == 0 || n == 16 || n == 32,
{
    KeyLength::of(kind).bytes()
}

/// A raw symmetric key. Its variants are its possible lengths, so a key of
/// any other length cannot be written down.
#[derive(Debug, Clone, Copy, PartialEq, Eq)]
pub enum BuiltinKey {
    Empty,
    AES128([u8; 16]),
    AES256([u8; 32]),
}

impl View for BuiltinKey {
    type V = Seq<u8>;

    /// The key's bytes.
    open spec fn view(&self) -> Seq<u8> {
        match *self {
            BuiltinKey::Empty => Seq::empty(),
            BuiltinKey::AES128(k) => k@,
            BuiltinKey::AES256(k) => k@,
        }
    }
}

impl BuiltinKey {
    /// The key of the state without protection: it has no bytes.
    pub const ZERO: BuiltinKey = BuiltinKey::Empty;

    /// The length of the key, as one of the three that exist.
    pub open spec fn spec_key_length(self) -> KeyLength {
        match self {
            BuiltinKey::Empty => KeyLength::Zero,
            BuiltinKey::AES128(_) => KeyLength::AES128,
            BuiltinKey::AES256(_) => KeyLength::AES256,
        }
    }

    /// The length of the key, as one of the three that exist.
    pub fn key_length(&self) -> (length: KeyLength)
        ensures
            length == self.spec_key_length(),
            length.spec_bytes() == self@.len(),
    {
        match self {
            BuiltinKey::Empty => KeyLength::Zero,
            BuiltinKey::AES128(_) => KeyLength::AES128,
            BuiltinKey::AES256(_) => KeyLength::AES256,
        }
    }

    /// The number of bytes of the key.
    pub fn len(&self) -> (n: usize)
        ensures
            n == self@.len(),
    {
        self.key_length().bytes()
    }

    /// Makes a key of the given length out of raw bytes. The bytes are taken
    /// if and only if there are as many as the length says.
    pub fn from_bytes(length: KeyLength, bytes: &[u8]) -> (r: Result<BuiltinKey, SecurityError>)
        ensures
            match r {
                Ok(key) => bytes@.len() == length.spec_bytes() && key@ == bytes@
                    && key.spec_key_length() == length,
                Err(e) => bytes@.len() != length.spec_bytes() && e == (SecurityError::KeyLengthMismatch {
                    required: length.spec_bytes(),
                    found: bytes@.len() as usize,
                }),
            },
    {
        if bytes.len() != length.bytes() {
            return Err(SecurityError::KeyLengthMismatch { required: length.bytes(), found: bytes.len() });
        }
        match length {
            KeyLength::Zero => Ok(BuiltinKey::Empty),
            KeyLength::AES128 => Ok(BuiltinKey::AES128(octets_to_array(bytes))),
            KeyLength::AES256 => Ok(BuiltinKey::AES256(octets_to_array(bytes))),
        }
    }

    /// The key's bytes, for the encoder and for the cipher.
    pub fn as_bytes(&self) -> (bytes: &[u8])
        ensures
            bytes@ == self@,
    {
        match self {
            BuiltinKey::Empty => &[],
            BuiltinKey::AES128(k) => k.as_slice(),
            BuiltinKey::AES256(k) => k.as_slice(),
        }
    }

    /// Whether two keys have the same bytes.
    pub fn same_bytes(&self, other: &BuiltinKey) -> (same: bool)
        ensures
            same == (self@ == other@),
    {
        same_octets(self.as_bytes(), other.as_bytes())
    }

    /// Two keys with the same bytes are the same key.
    pub proof fn lemma_view_injective(self, other: BuiltinKey)
        requires
            self@ == other@,
        ensures
            self == other,
    {
        assert(other@.len() == other.spec_key_length().spec_bytes());
        match (self, other) {
            (BuiltinKey::AES128(a), BuiltinKey::AES128(b)) => {
                assert(a =~= b);
            },
            (BuiltinKey::AES256(a), BuiltinKey::AES256(b)) => {
                assert(a =~= b);
            },
            _ => {},
        }
    }
}

/// The required length is 16 for the 128-bit modes, 32 for the 256-bit modes
/// and 0 without protection.
pub proof fn lemma_key_length_policy(kind: BuiltinCryptoTransformationKind)
    ensures
        kind == BuiltinCryptoTransformationKind::CRYPTO_TRANSFORMATION_KIND_NONE
            ==> spec_required_length(kind) == 0,
        kind == BuiltinCryptoTransformationKind::CRYPTO_TRANSFORMATION_KIND_AES128_GMAC
            || kind == BuiltinCryptoTransformationKind::CRYPTO_TRANSFORMATION_KIND_AES128_GCM
            ==> spec_required_length(kind) == 16,
        kind == BuiltinCryptoTransformationKind::CRYPTO_TRANSFORMATION_KIND_AES256_GMAC
            || kind == BuiltinCryptoTransformationKind::CRYPTO_TRANSFORMATION_KIND_AES256_GCM
            ==> spec_required_length(kind) == 32,
{
}

} // verus!
