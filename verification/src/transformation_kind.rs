//! The transformation kinds of the builtin plugin and their four-byte codes.

use vstd::prelude::*;
use crate::error::SecurityError;

verus! {

/// The code of a transformation kind as the generic layer carries it.
pub type CryptoTransformKind = [u8; 4];

/// A key identifier: four bytes with no meaning beyond their width.
pub type CryptoTransformKeyId = [u8; 4];

/// The cipher and MAC modes that the builtin plugin knows.
#[allow(non_camel_case_types)]
#[derive(Debug, Clone, Copy, PartialEq, Eq, Structural)]
pub enum BuiltinCryptoTransformationKind {
    CRYPTO_TRANSFORMATION_KIND_NONE,
    CRYPTO_TRANSFORMATION_KIND_AES128_GMAC,
    CRYPTO_TRANSFORMATION_KIND_AES128_GCM,
    CRYPTO_TRANSFORMATION_KIND_AES256_GMAC,
    CRYPTO_TRANSFORMATION_KIND_AES256_GCM,
}

impl BuiltinCryptoTransformationKind {
    /// The last byte of the kind's code; the three bytes before it are zero.
    pub open spec fn code_number(self) -> u8 {
        match self {
            Self::CRYPTO_TRANSFORMATION_KIND_NONE => 0,
            Self::CRYPTO_TRANSFORMATION_KIND_AES128_GMAC => 1,
            Self::CRYPTO_TRANSFORMATION_KIND_AES128_GCM => 2,
            Self::CRYPTO_TRANSFORMATION_KIND_AES256_GMAC => 3,
            Self::CRYPTO_TRANSFORMATION_KIND_AES256_GCM => 4,
        }
    }

    /// The four big-endian bytes that stand for the kind on the wire.
    pub open spec fn wire_code(self) -> Seq<u8> {
        seq![0u8, 0u8, 0u8, self.code_number()]
    }

    /// The kind that four bytes stand for, if they stand for one.
    pub open spec fn of_wire_code(code: Seq<u8>) -> Option<Self> {
        if code.len() == 4 && code[0] == 0 && code[1] == 0 && code[2] == 0 {
            if code[3] == 0 {
                Some(Self::CRYPTO_TRANSFORMATION_KIND_NONE)
            } else if code[3] == 1 {
                Some(Self::CRYPTO_TRANSFORMATION_KIND_AES128_GMAC)
            } else if code[3] == 2 {
                Some(Self::CRYPTO_TRANSFORMATION_KIND_AES128_GCM)
            } else if code[3] == 3 {
                Some(Self::CRYPTO_TRANSFORMATION_KIND_AES256_GMAC)
            } else if code[3] == 4 {
                Some(Self::CRYPTO_TRANSFORMATION_KIND_AES256_GCM)
            } else {
                None
            }
        } else {
            None
        }
    }

    /// Reads a kind from its code. Every code but the five reserved ones is
    /// refused.
    pub fn decode(value: CryptoTransformKind) -> (r: Result<Self, SecurityError>)
        ensures
            match r {
                Ok(kind) => Self::of_wire_code(value@) == Some(kind),
                Err(e) => Self::of_wire_code(value@) is None
                    && e == SecurityError::InvalidTransformationKind,
            },
            r is Ok <==> value@[0] == 0 && value@[1] == 0 && value@[2] == 0 && value@[3] <= 4,
            r matches Ok(kind) ==> kind.wire_code() == value@,
    {
        if value[0] != 0 || value[1] != 0 || value[2] != 0 {
            return Err(SecurityError::InvalidTransformationKind);
        }
        let last: u8 = value[3];
        if last == 0 {
            Ok(Self::CRYPTO_TRANSFORMATION_KIND_NONE)
        } else if last == 1 {
            Ok(Self::CRYPTO_TRANSFORMATION_KIND_AES128_GMAC)
        } else if last == 2 {
            Ok(Self::CRYPTO_TRANSFORMATION_KIND_AES128_GCM)
        } else if last == 3 {
            Ok(Self::CRYPTO_TRANSFORMATION_KIND_AES256_GMAC)
        } else if last == 4 {
            Ok(Self::CRYPTO_TRANSFORMATION_KIND_AES256_GCM)
        } else {
            Err(SecurityError::InvalidTransformationKind)
        }
    }

    /// Writes the kind's code.
    pub fn encode(self) -> (code: CryptoTransformKind)
        ensures
            code@ == self.wire_code(),
    {
        match self {
            Self::CRYPTO_TRANSFORMATION_KIND_NONE => [0, 0, 0, 0],
            Self::CRYPTO_TRANSFORMATION_KIND_AES128_GMAC => [0, 0, 0, 1],
            Self::CRYPTO_TRANSFORMATION_KIND_AES128_GCM => [0, 0, 0, 2],
            Self::CRYPTO_TRANSFORMATION_KIND_AES256_GMAC => [0, 0, 0, 3],
            Self::CRYPTO_TRANSFORMATION_KIND_AES256_GCM => [0, 0, 0, 4],
        }
    }

    /// Reading what `encode` wrote gives the kind back.
    pub proof fn lemma_decode_of_encode(self)
        ensures
            Self::of_wire_code(self.wire_code()) == Some(self),
    {
    }

    /// A code stands for at most one kind, and only for the kind whose code
    /// it is.
    pub proof fn lemma_encode_of_decode(code: Seq<u8>)
        ensures
            Self::of_wire_code(code) matches Some(kind) ==> kind.wire_code() == code,
            Self::of_wire_code(code) is Some <==> code.len() == 4 && code[0] == 0 && code[1] == 0
                && code[2] == 0 && code[3] <= 4,
    {
    }
}

} // verus!
