//! Key materials in byte buffers: the CDR encoding, held in `bytes::Bytes`.

use bytes::Bytes;
use vstd::prelude::*;
use crate::buffer::{bytes_as_slice, bytes_contents, bytes_from_vec};
use crate::error::{SecurityError, SecurityErrorView};
use crate::key_material::{
    spec_decode_wire, spec_encode_wire, KeyMaterialView, KeyMaterial_AES_GCM_GMAC, MAX_OCTETS,
};
use crate::key_material_seq::KeyMaterial_AES_GCM_GMAC_seq;
use crate::seq_codec::{spec_decode_wire_list, spec_encode_wire_list};

verus! {

impl KeyMaterial_AES_GCM_GMAC {
    /// Decodes the key material that a buffer begins with.
    pub fn try_from_bytes(value: Bytes) -> (r: Result<Self, SecurityError>)
        ensures
            match r {
                Ok(m) => spec_decode_wire(bytes_contents(value)) == Ok::<
                    KeyMaterialView,
                    SecurityErrorView,
                >(m@) && m.is_valid(),
                Err(e) => spec_decode_wire(bytes_contents(value)) == Err::<
                    KeyMaterialView,
                    SecurityErrorView,
                >(e@),
            },
    {
        Self::decode_wire(bytes_as_slice(&value))
    }

    /// Encodes the key material into a buffer.
    pub fn try_into_bytes(&self) -> (r: Result<Bytes, SecurityError>)
        ensures
            match r {
                Ok(buffer) => self@.master_salt.len() <= MAX_OCTETS && bytes_contents(buffer)
                    == spec_encode_wire(self@),
                Err(e) => self@.master_salt.len() > MAX_OCTETS && e
                    == SecurityError::SerializationError,
            },
            self.is_valid() ==> r is Ok,
    {
        match self.encode_wire() {
            Err(e) => Err(e),
            Ok(encoded) => Ok(bytes_from_vec(encoded)),
        }
    }
}

impl KeyMaterial_AES_GCM_GMAC_seq {
    /// Decodes the key materials of one endpoint that a buffer begins with.
    pub fn try_from_bytes(value: Bytes) -> (r: Result<KeyMaterial_AES_GCM_GMAC_seq, SecurityError>)
        ensures
            match r {
                Ok(s) => spec_decode_wire_list(bytes_contents(value)) == Ok::<
                    Seq<KeyMaterialView>,
                    SecurityErrorView,
                >(s@),
                Err(e) => spec_decode_wire_list(bytes_contents(value)) == Err::<
                    Seq<KeyMaterialView>,
                    SecurityErrorView,
                >(e@),
            },
    {
        Self::decode_wire(bytes_as_slice(&value))
    }

    /// Encodes the key materials of one endpoint into a buffer.
    pub fn try_into_bytes(&self) -> (r: Result<Bytes, SecurityError>)
        ensures
            match r {
                Ok(buffer) => bytes_contents(buffer) == spec_encode_wire_list(self@) && forall|i: int|
                    0 <= i < self@.len() ==> (#[trigger] self@[i]).master_salt.len() <= MAX_OCTETS,
                Err(e) => e == SecurityError::SerializationError && exists|i: int|
                    0 <= i < self@.len() && (#[trigger] self@[i]).master_salt.len() > MAX_OCTETS,
            },
    {
        match self.encode_wire() {
            Err(e) => Err(e),
            Ok(encoded) => Ok(bytes_from_vec(encoded)),
        }
    }
}

} // verus!
