//! The framing elements of a transformed submessage: the transform
//! identifier, the header with session identifier and IV suffix, the opaque
//! content, and the footer with its MACs.

use vstd::prelude::*;
use crate::cdr::{be_u32_value, octets_to_array, read_fixed, read_u32};
use crate::error::{SecurityError, SecurityErrorView};
use crate::transformation_kind::{
    BuiltinCryptoTransformationKind, CryptoTransformKeyId, CryptoTransformKind,
};

verus! {

/// The number of bytes of a header's extra field: a session identifier of
/// four and an IV suffix of eight.
pub const HEADER_EXTRA_LENGTH: usize = 12;

/// The number of bytes of a MAC.
pub const MAC_LENGTH: usize = 16;

/// The generic name of a transformation: the code of a kind, and a key.
#[derive(Debug, Clone, Copy, PartialEq, Eq)]
pub struct CryptoTransformIdentifier {
    pub transformation_kind: CryptoTransformKind,
    pub transformation_key_id: CryptoTransformKeyId,
}

/// The part of a header that each plugin fills as it likes.
#[derive(Debug, Clone, PartialEq, Eq)]
pub struct PluginCryptoHeaderExtra {
    pub data: Vec<u8>,
}

/// The header element as the submessage layer hands it over.
#[derive(Debug, Clone, PartialEq, Eq)]
pub struct CryptoHeader {
    pub transformation_id: CryptoTransformIdentifier,
    pub plugin_crypto_header_extra: PluginCryptoHeaderExtra,
}

/// The content element as the submessage layer hands it over.
#[derive(Debug, Clone, PartialEq, Eq)]
pub struct CryptoContent {
    pub data: Vec<u8>,
}

/// The footer element as the submessage layer hands it over.
#[derive(Debug, Clone, PartialEq, Eq)]
pub struct CryptoFooter {
    pub data: Vec<u8>,
}

/// The name of a transformation of this plugin: a kind and a key.
#[derive(Debug, Clone, Copy, PartialEq, Eq)]
pub struct BuiltinCryptoTransformIdentifier {
    pub transformation_kind: BuiltinCryptoTransformationKind,
    pub transformation_key_id: CryptoTransformKeyId,
}

/// The header of a transformed submessage.
#[derive(Debug, Clone, Copy, PartialEq, Eq)]
pub struct BuiltinCryptoHeader {
    pub transform_identifier: BuiltinCryptoTransformIdentifier,
    pub session_id: [u8; 4],
    pub initialization_vector_suffix: [u8; 8],
}

/// The content of a transformed submessage.
#[derive(Debug, Clone, PartialEq, Eq)]
pub struct BuiltinCryptoContent {
    pub crypto_content: Vec<u8>,
}

/// The MAC for one receiver, with the key it was made with.
#[derive(Debug, Clone, Copy, PartialEq, Eq)]
pub struct ReceiverSpecificMAC {
    pub receiver_mac_key_id: CryptoTransformKeyId,
    pub receiver_mac: [u8; 16],
}

/// The footer of a transformed submessage.
#[derive(Debug, Clone, PartialEq, Eq)]
pub struct BuiltinCryptoFooter {
    pub common_mac: [u8; 16],
    pub receiver_specific_macs: Vec<ReceiverSpecificMAC>,
}

/// The mathematical value of a [`ReceiverSpecificMAC`].
pub struct ReceiverSpecificMACView {
    pub receiver_mac_key_id: Seq<u8>,
    pub receiver_mac: Seq<u8>,
}

/// The mathematical value of a [`BuiltinCryptoFooter`].
pub struct BuiltinCryptoFooterView {
    pub common_mac: Seq<u8>,
    pub receiver_specific_macs: Seq<ReceiverSpecificMACView>,
}

impl View for ReceiverSpecificMAC {
    type V = ReceiverSpecificMACView;

    open spec fn view(&self) -> ReceiverSpecificMACView {
        ReceiverSpecificMACView {
            receiver_mac_key_id: self.receiver_mac_key_id@,
            receiver_mac: self.receiver_mac@,
        }
    }
}

impl View for BuiltinCryptoFooter {
    type V = BuiltinCryptoFooterView;

    open spec fn view(&self) -> BuiltinCryptoFooterView {
        BuiltinCryptoFooterView {
            common_mac: self.common_mac@,
            receiver_specific_macs: self.receiver_specific_macs@.map_values(
                |m: ReceiverSpecificMAC| m@,
            ),
        }
    }
}

impl BuiltinCryptoTransformIdentifier {
    /// Reads a generic transform identifier as one of this plugin: its code
    /// must name a kind. The key identifier is taken as it is.
    pub fn from_identifier(value: CryptoTransformIdentifier) -> (r: Result<Self, SecurityError>)
        ensures
            match r {
                Ok(id) => BuiltinCryptoTransformationKind::of_wire_code(value.transformation_kind@)
                    == Some(id.transformation_kind) && id.transformation_key_id
                    == value.transformation_key_id,
                Err(e) => BuiltinCryptoTransformationKind::of_wire_code(value.transformation_kind@)
                    is None && e == SecurityError::InvalidTransformationKind,
            },
    {
        match BuiltinCryptoTransformationKind::decode(value.transformation_kind) {
            Err(e) => Err(e),
            Ok(transformation_kind) => Ok(
                BuiltinCryptoTransformIdentifier {
                    transformation_kind,
                    transformation_key_id: value.transformation_key_id,
                },
            ),
        }
    }
}

impl BuiltinCryptoHeader {
    /// Reads a header. The transform identifier is read first; then the
    /// extra field, which must have twelve bytes, is split into the session
    /// identifier, its first four, and the IV suffix, its last eight.
    pub fn from_header(value: CryptoHeader) -> (r: Result<Self, SecurityError>)
        ensures
            match r {
                Ok(header) => {
                    &&& BuiltinCryptoTransformationKind::of_wire_code(
                        value.transformation_id.transformation_kind@,
                    ) == Some(header.transform_identifier.transformation_kind)
                    &&& header.transform_identifier.transformation_key_id
                        == value.transformation_id.transformation_key_id
                    &&& value.plugin_crypto_header_extra.data@.len() == HEADER_EXTRA_LENGTH
                    &&& header.session_id@ == value.plugin_crypto_header_extra.data@.subrange(0, 4)
                    &&& header.initialization_vector_suffix@
                        == value.plugin_crypto_header_extra.data@.subrange(4, 12)
                },
                Err(e) => if BuiltinCryptoTransformationKind::of_wire_code(
                    value.transformation_id.transformation_kind@,
                ) is None {
                    e == SecurityError::InvalidTransformationKind
                } else {
                    value.plugin_crypto_header_extra.data@.len() != HEADER_EXTRA_LENGTH && e == (
                    SecurityError::MalformedHeaderExtra {
                        length: value.plugin_crypto_header_extra.data@.len() as usize,
                    })
                },
            },
    {
        let transform_identifier = match BuiltinCryptoTransformIdentifier::from_identifier(
            value.transformation_id,
        ) {
            Err(e) => { return Err(e); },
            Ok(id) => id,
        };
        let extra = value.plugin_crypto_header_extra.data.as_slice();
        if extra.len() != HEADER_EXTRA_LENGTH {
            return Err(SecurityError::MalformedHeaderExtra { length: extra.len() });
        }
        let session_id: [u8; 4] = octets_to_array(vstd::slice::slice_subrange(extra, 0, 4));
        let initialization_vector_suffix: [u8; 8] = octets_to_array(
            vstd::slice::slice_subrange(extra, 4, 12),
        );
        Ok(BuiltinCryptoHeader { transform_identifier, session_id, initialization_vector_suffix })
    }
}

impl BuiltinCryptoContent {
    /// Takes the content over as it is: it is opaque to this layer, and of
    /// any length.
    pub fn from_content(value: CryptoContent) -> (r: Result<Self, SecurityError>)
        ensures
            r matches Ok(content) && content.crypto_content == value.data,
    {
        Ok(BuiltinCryptoContent { crypto_content: value.data })
    }
}

/// The MAC entry with index `i` of a footer whose entries start at byte 20:
/// a key identifier of four bytes, then a MAC of sixteen.
pub open spec fn footer_entry(bytes: Seq<u8>, i: int) -> ReceiverSpecificMACView {
    ReceiverSpecificMACView {
        receiver_mac_key_id: bytes.subrange(20 + 20 * i, 24 + 20 * i),
        receiver_mac: bytes.subrange(24 + 20 * i, 40 + 20 * i),
    }
}

/// What a footer's bytes stand for: the common MAC of sixteen bytes, the
/// number of entries as a big-endian 32-bit number, and that many entries of
/// twenty bytes; nothing where the bytes end before. Bytes behind the last
/// entry are not looked at.
pub open spec fn spec_parse_footer(bytes: Seq<u8>) -> Option<BuiltinCryptoFooterView> {
    if bytes.len() < 20 {
        None
    } else {
        let count = be_u32_value(bytes.subrange(16, 20));
        if 20 + 20 * count > bytes.len() {
            None
        } else {
            Some(
                BuiltinCryptoFooterView {
                    common_mac: bytes.subrange(0, 16),
                    receiver_specific_macs: Seq::new(
                        count as nat,
                        |i: int| footer_entry(bytes, i),
                    ),
                },
            )
        }
    }
}

impl BuiltinCryptoFooter {
    /// Reads a footer: the common MAC and the list of receiver-specific
    /// MACs. A footer that ends before its last entry is refused.
    pub fn from_footer(value: CryptoFooter) -> (r: Result<Self, SecurityError>)
        ensures
            match r {
                Ok(footer) => spec_parse_footer(value.data@) == Some(footer@),
                Err(e) => spec_parse_footer(value.data@) is None && e
                    == SecurityError::DeserializationError,
            },
    {
        let bytes = value.data.as_slice();
        let (common, after_mac) = match read_fixed(bytes, 0, MAC_LENGTH) {
            None => { return Err(SecurityError::DeserializationError); },
            Some(found) => found,
        };
        let (count, after_count) = match read_u32(bytes, after_mac) {
            None => { return Err(SecurityError::DeserializationError); },
            Some(found) => found,
        };
        if count as usize > (bytes.len() - 20) / 20 {
            return Err(SecurityError::DeserializationError);
        }
        let common_mac: [u8; 16] = octets_to_array(common);
        let mut receiver_specific_macs: Vec<ReceiverSpecificMAC> = Vec::new();
        let mut i: usize = 0;
        while i < count as usize
            invariant
                i <= count,
                20 + 20 * count <= bytes@.len() <= usize::MAX,
                receiver_specific_macs@.len() == i,
                forall|j: int|
                    0 <= j < i ==> (#[trigger] receiver_specific_macs@[j])@ == footer_entry(
                        bytes@,
                        j,
                    ),
            decreases count - i,
        {
            let start: usize = 20 + 20 * i;
            let key_id: [u8; 4] = octets_to_array(
                vstd::slice::slice_subrange(bytes, start, start + 4),
            );
            let mac: [u8; 16] = octets_to_array(
                vstd::slice::slice_subrange(bytes, start + 4, start + 20),
            );
            receiver_specific_macs.push(
                ReceiverSpecificMAC { receiver_mac_key_id: key_id, receiver_mac: mac },
            );
            i += 1;
        }
        let footer = BuiltinCryptoFooter { common_mac, receiver_specific_macs };
        assert(footer@.receiver_specific_macs =~= Seq::new(
            count as nat,
            |i: int| footer_entry(bytes@, i),
        ));
        Ok(footer)
    }
}

} // verus!
