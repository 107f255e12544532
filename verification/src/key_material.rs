//! The key material of one transformation: its structure, its CDR encoding,
//! and the comparison that yields a receiver-specific key.

use vstd::prelude::*;
use crate::builtin_key::{BuiltinKey, KeyLength};
use crate::cdr::{
    append_octets, lemma_parse_fixed_of_append, lemma_parse_octets_of_append,
    lemma_prefix_of_append, lemma_prefix_of_append_octets, octets_to_array, parse_fixed,
    parse_octets, read_fixed, read_octets, same_octets, write_fixed, write_octets,
};
use crate::error::{KeyMaterialField, SecurityError, SecurityErrorView};
use crate::transformation_kind::{
    BuiltinCryptoTransformationKind, CryptoTransformKeyId, CryptoTransformKind,
};

verus! {

/// The most bytes that the master salt or a key can have on the wire.
pub const MAX_OCTETS: u32 = 32;

/// The key state of one transformation. A key material is valid when its
/// salt is within the wire's bound and both keys have the length that its
/// transformation kind asks for; see [`KeyMaterial_AES_GCM_GMAC::is_valid`].
#[allow(non_camel_case_types)]
#[derive(Debug, Clone, PartialEq, Eq)]
pub struct KeyMaterial_AES_GCM_GMAC {
    pub transformation_kind: BuiltinCryptoTransformationKind,
    pub master_salt: Vec<u8>,
    pub sender_key_id: CryptoTransformKeyId,
    pub master_sender_key: BuiltinKey,
    pub receiver_specific_key_id: CryptoTransformKeyId,
    pub master_receiver_specific_key: BuiltinKey,
}

/// The mathematical value of a key material: its kind and the bytes of its
/// five other fields.
pub struct KeyMaterialView {
    pub transformation_kind: BuiltinCryptoTransformationKind,
    pub master_salt: Seq<u8>,
    pub sender_key_id: Seq<u8>,
    pub master_sender_key: Seq<u8>,
    pub receiver_specific_key_id: Seq<u8>,
    pub master_receiver_specific_key: Seq<u8>,
}

impl View for KeyMaterial_AES_GCM_GMAC {
    type V = KeyMaterialView;

    open spec fn view(&self) -> KeyMaterialView {
        KeyMaterialView {
            transformation_kind: self.transformation_kind,
            master_salt: self.master_salt@,
            sender_key_id: self.sender_key_id@,
            master_sender_key: self.master_sender_key@,
            receiver_specific_key_id: self.receiver_specific_key_id@,
            master_receiver_specific_key: self.master_receiver_specific_key@,
        }
    }
}

/// The receiver-specific part of a key material, as it is handed out once
/// the key material has been matched against the common one.
#[derive(Debug, Clone, PartialEq, Eq)]
pub struct ReceiverKeyMaterial {
    pub receiver_specific_key_id: CryptoTransformKeyId,
    pub master_receiver_specific_key: BuiltinKey,
}

/// A key material as the wire holds it: the kind as its code and the keys as
/// byte strings of any length.
#[allow(non_camel_case_types)]
#[derive(Debug, Clone, PartialEq, Eq)]
pub struct Serializable_KeyMaterial_AES_GCM_GMAC {
    pub transformation_kind: CryptoTransformKind,
    pub master_salt: Vec<u8>,
    pub sender_key_id: CryptoTransformKeyId,
    pub master_sender_key: Vec<u8>,
    pub receiver_specific_key_id: CryptoTransformKeyId,
    pub master_receiver_specific_key: Vec<u8>,
}

/// The mathematical value of a key material on the wire.
pub struct WireKeyMaterialView {
    pub transformation_kind: Seq<u8>,
    pub master_salt: Seq<u8>,
    pub sender_key_id: Seq<u8>,
    pub master_sender_key: Seq<u8>,
    pub receiver_specific_key_id: Seq<u8>,
    pub master_receiver_specific_key: Seq<u8>,
}

impl View for Serializable_KeyMaterial_AES_GCM_GMAC {
    type V = WireKeyMaterialView;

    open spec fn view(&self) -> WireKeyMaterialView {
        WireKeyMaterialView {
            transformation_kind: self.transformation_kind@,
            master_salt: self.master_salt@,
            sender_key_id: self.sender_key_id@,
            master_sender_key: self.master_sender_key@,
            receiver_specific_key_id: self.receiver_specific_key_id@,
            master_receiver_specific_key: self.master_receiver_specific_key@,
        }
    }
}

impl WireKeyMaterialView {
    /// Whether the fields have the widths that the wire allows: four bytes
    /// for the kind and for each identifier, at most 32 for the salt and for
    /// each key.
    pub open spec fn fits(self) -> bool {
        &&& self.transformation_kind.len() == 4
        &&& self.master_salt.len() <= MAX_OCTETS
        &&& self.sender_key_id.len() == 4
        &&& self.master_sender_key.len() <= MAX_OCTETS
        &&& self.receiver_specific_key_id.len() == 4
        &&& self.master_receiver_specific_key.len() <= MAX_OCTETS
    }

    /// The encoding of the fields, in their order, behind `prefix`.
    pub open spec fn append_to(self, prefix: Seq<u8>) -> Seq<u8> {
        let with_kind = prefix + self.transformation_kind;
        let with_salt = append_octets(with_kind, self.master_salt);
        let with_sender_id = with_salt + self.sender_key_id;
        let with_sender_key = append_octets(with_sender_id, self.master_sender_key);
        let with_receiver_id = with_sender_key + self.receiver_specific_key_id;
        append_octets(with_receiver_id, self.master_receiver_specific_key)
    }

    /// The encoding of the fields from the start of a message.
    pub open spec fn encoding(self) -> Seq<u8> {
        self.append_to(Seq::empty())
    }
}

/// Reads the six fields of a key material at `pos`: the fields and the
/// position behind them, or nothing where the framing is broken.
pub open spec fn parse_wire_key_material(bytes: Seq<u8>, pos: int) -> Option<
    (WireKeyMaterialView, int),
> {
    match parse_fixed(bytes, pos, 4) {
        None => None,
        Some((transformation_kind, after_kind)) => match parse_octets(bytes, after_kind, MAX_OCTETS as int) {
            None => None,
            Some((master_salt, after_salt)) => match parse_fixed(bytes, after_salt, 4) {
                None => None,
                Some((sender_key_id, after_sender_id)) => match parse_octets(bytes, after_sender_id, MAX_OCTETS as int) {
                    None => None,
                    Some((master_sender_key, after_sender_key)) => match parse_fixed(bytes, after_sender_key, 4) {
                        None => None,
                        Some((receiver_specific_key_id, after_receiver_id)) => match parse_octets(
                            bytes,
                            after_receiver_id,
                            MAX_OCTETS as int,
                        ) {
                            None => None,
                            Some((master_receiver_specific_key, end)) => Some(
                                (
                                    WireKeyMaterialView {
                                        transformation_kind,
                                        master_salt,
                                        sender_key_id,
                                        master_sender_key,
                                        receiver_specific_key_id,
                                        master_receiver_specific_key,
                                    },
                                    end,
                                ),
                            ),
                        },
                    },
                },
            },
        },
    }
}

impl Serializable_KeyMaterial_AES_GCM_GMAC {
    /// Appends the encoding of the fields to `out`. A salt or key of more
    /// than 32 bytes has no encoding; `out` is then left as it was.
    pub fn write(&self, out: &mut Vec<u8>) -> (r: Result<(), SecurityError>)
        ensures
            match r {
                Ok(_) => self@.fits() && final(out)@ == self@.append_to(old(out)@),
                Err(e) => !self@.fits() && e == SecurityError::SerializationError && final(out)@
                    == old(out)@,
            },
    {
        let bound: usize = MAX_OCTETS as usize;
        if self.master_salt.len() > bound || self.master_sender_key.len() > bound
            || self.master_receiver_specific_key.len() > bound {
            return Err(SecurityError::SerializationError);
        }
        write_fixed(out, self.transformation_kind.as_slice());
        write_octets(out, self.master_salt.as_slice());
        write_fixed(out, self.sender_key_id.as_slice());
        write_octets(out, self.master_sender_key.as_slice());
        write_fixed(out, self.receiver_specific_key_id.as_slice());
        write_octets(out, self.master_receiver_specific_key.as_slice());
        Ok(())
    }

    /// Reads the six fields at `pos` of `bytes`, and says where they end.
    pub fn read(bytes: &[u8], pos: usize) -> (r: Option<(Self, usize)>)
        ensures
            match r {
                Some((w, next)) => parse_wire_key_material(bytes@, pos as int) == Some(
                    (w@, next as int),
                ),
                None => parse_wire_key_material(bytes@, pos as int) is None,
            },
    {
        let (kind, after_kind) = match read_fixed(bytes, pos, 4) {
            None => { return None; },
            Some(found) => found,
        };
        let (salt, after_salt) = match read_octets(bytes, after_kind, MAX_OCTETS) {
            None => { return None; },
            Some(found) => found,
        };
        let (sender_id, after_sender_id) = match read_fixed(bytes, after_salt, 4) {
            None => { return None; },
            Some(found) => found,
        };
        let (sender_key, after_sender_key) = match read_octets(bytes, after_sender_id, MAX_OCTETS) {
            None => { return None; },
            Some(found) => found,
        };
        let (receiver_id, after_receiver_id) = match read_fixed(bytes, after_sender_key, 4) {
            None => { return None; },
            Some(found) => found,
        };
        let (receiver_key, end) = match read_octets(bytes, after_receiver_id, MAX_OCTETS) {
            None => { return None; },
            Some(found) => found,
        };
        let w = Serializable_KeyMaterial_AES_GCM_GMAC {
            transformation_kind: octets_to_array(kind),
            master_salt: vstd::slice::slice_to_vec(salt),
            sender_key_id: octets_to_array(sender_id),
            master_sender_key: vstd::slice::slice_to_vec(sender_key),
            receiver_specific_key_id: octets_to_array(receiver_id),
            master_receiver_specific_key: vstd::slice::slice_to_vec(receiver_key),
        };
        Some((w, end))
    }
}

/// The wire form of a key material: the kind as its code, the rest as it is.
pub open spec fn wire_of_key_material(m: KeyMaterialView) -> WireKeyMaterialView {
    WireKeyMaterialView {
        transformation_kind: m.transformation_kind.wire_code(),
        master_salt: m.master_salt,
        sender_key_id: m.sender_key_id,
        master_sender_key: m.master_sender_key,
        receiver_specific_key_id: m.receiver_specific_key_id,
        master_receiver_specific_key: m.master_receiver_specific_key,
    }
}

/// The key material that a wire form stands for, or the reason why it stands
/// for none: a field too wide for the wire, which is a break of the framing;
/// a code that names no kind; or a key (the sender's is looked at first)
/// whose length is not the one that the kind asks for.
pub open spec fn key_material_of_wire(w: WireKeyMaterialView) -> Result<
    KeyMaterialView,
    SecurityErrorView,
> {
    if !w.fits() {
        Err(SecurityErrorView::DeserializationError)
    } else {
        match BuiltinCryptoTransformationKind::of_wire_code(w.transformation_kind) {
            None => Err(SecurityErrorView::InvalidTransformationKind),
            Some(kind) => {
                let required = KeyLength::spec_of(kind).spec_bytes();
                if w.master_sender_key.len() != required {
                    Err(
                        SecurityErrorView::KeyLengthMismatch {
                            required,
                            found: w.master_sender_key.len() as usize,
                        },
                    )
                } else if w.master_receiver_specific_key.len() != required {
                    Err(
                        SecurityErrorView::KeyLengthMismatch {
                            required,
                            found: w.master_receiver_specific_key.len() as usize,
                        },
                    )
                } else {
                    Ok(
                        KeyMaterialView {
                            transformation_kind: kind,
                            master_salt: w.master_salt,
                            sender_key_id: w.sender_key_id,
                            master_sender_key: w.master_sender_key,
                            receiver_specific_key_id: w.receiver_specific_key_id,
                            master_receiver_specific_key: w.master_receiver_specific_key,
                        },
                    )
                }
            },
        }
    }
}

/// The CDR encoding of a key material.
pub open spec fn spec_encode_wire(m: KeyMaterialView) -> Seq<u8> {
    wire_of_key_material(m).encoding()
}

/// What decoding makes of a byte string: the key material it begins with,
/// `DeserializationError` where the framing is broken, or the reason why the
/// framed fields stand for no key material. Bytes behind the last field are
/// not looked at.
pub open spec fn spec_decode_wire(bytes: Seq<u8>) -> Result<KeyMaterialView, SecurityErrorView> {
    match parse_wire_key_material(bytes, 0) {
        None => Err(SecurityErrorView::DeserializationError),
        Some((w, _)) => key_material_of_wire(w),
    }
}

impl KeyMaterialView {
    /// Whether the value is that of a valid key material: identifiers of
    /// four bytes, a salt of at most 32, and keys of the length that the
    /// transformation kind asks for.
    pub open spec fn is_valid(self) -> bool {
        &&& self.master_salt.len() <= MAX_OCTETS
        &&& self.sender_key_id.len() == 4
        &&& self.receiver_specific_key_id.len() == 4
        &&& self.master_sender_key.len() == KeyLength::spec_of(self.transformation_kind).spec_bytes()
        &&& self.master_receiver_specific_key.len() == KeyLength::spec_of(
            self.transformation_kind,
        ).spec_bytes()
    }
}

impl Serializable_KeyMaterial_AES_GCM_GMAC {
    /// The wire form of a key material.
    pub fn from_key_material(key_material: &KeyMaterial_AES_GCM_GMAC) -> (w: Self)
        ensures
            w@ == wire_of_key_material(key_material@),
    {
        let salt = key_material.master_salt.clone();
        Serializable_KeyMaterial_AES_GCM_GMAC {
            transformation_kind: key_material.transformation_kind.encode(),
            master_salt: salt,
            sender_key_id: key_material.sender_key_id,
            master_sender_key: vstd::slice::slice_to_vec(key_material.master_sender_key.as_bytes()),
            receiver_specific_key_id: key_material.receiver_specific_key_id,
            master_receiver_specific_key: vstd::slice::slice_to_vec(
                key_material.master_receiver_specific_key.as_bytes(),
            ),
        }
    }
}

impl KeyMaterial_AES_GCM_GMAC {
    /// Whether the key material is valid: its salt has at most 32 bytes and
    /// both keys have the length that the transformation kind asks for.
    pub open spec fn is_valid(self) -> bool {
        self@.is_valid()
    }

    /// Whether the key material is valid.
    pub fn check_valid(&self) -> (valid: bool)
        ensures
            valid == self.is_valid(),
    {
        let required = KeyLength::of(self.transformation_kind).bytes();
        self.master_salt.len() <= MAX_OCTETS as usize && self.master_sender_key.len() == required
            && self.master_receiver_specific_key.len() == required
    }

    /// Makes a key material out of its wire form. A salt or key of more than
    /// 32 bytes is refused as a break of the framing; then the code must
    /// name a kind, and both keys must have the length that the kind asks
    /// for. What comes out is valid.
    pub fn from_serializable(w: &Serializable_KeyMaterial_AES_GCM_GMAC) -> (r: Result<
        Self,
        SecurityError,
    >)
        ensures
            match r {
                Ok(m) => key_material_of_wire(w@) == Ok::<KeyMaterialView, SecurityErrorView>(m@)
                    && m.is_valid(),
                Err(e) => key_material_of_wire(w@) == Err::<KeyMaterialView, SecurityErrorView>(e@),
            },
            w@.master_salt.len() > MAX_OCTETS ==> r == Err::<Self, SecurityError>(
                SecurityError::DeserializationError,
            ),
    {
        let bound: usize = MAX_OCTETS as usize;
        if w.master_salt.len() > bound || w.master_sender_key.len() > bound
            || w.master_receiver_specific_key.len() > bound {
            return Err(SecurityError::DeserializationError);
        }
        let transformation_kind = match BuiltinCryptoTransformationKind::decode(
            w.transformation_kind,
        ) {
            Err(e) => { return Err(e); },
            Ok(kind) => kind,
        };
        let key_len = KeyLength::of(transformation_kind);
        let master_sender_key = match BuiltinKey::from_bytes(key_len, w.master_sender_key.as_slice()) {
            Err(e) => { return Err(e); },
            Ok(key) => key,
        };
        let master_receiver_specific_key = match BuiltinKey::from_bytes(
            key_len,
            w.master_receiver_specific_key.as_slice(),
        ) {
            Err(e) => { return Err(e); },
            Ok(key) => key,
        };
        let master_salt = w.master_salt.clone();
        Ok(
            KeyMaterial_AES_GCM_GMAC {
                transformation_kind,
                master_salt,
                sender_key_id: w.sender_key_id,
                master_sender_key,
                receiver_specific_key_id: w.receiver_specific_key_id,
                master_receiver_specific_key,
            },
        )
    }

    /// Decodes a key material from the CDR bytes that it begins with.
    pub fn decode_wire(bytes: &[u8]) -> (r: Result<Self, SecurityError>)
        ensures
            match r {
                Ok(m) => spec_decode_wire(bytes@) == Ok::<KeyMaterialView, SecurityErrorView>(m@)
                    && m.is_valid(),
                Err(e) => spec_decode_wire(bytes@) == Err::<KeyMaterialView, SecurityErrorView>(e@),
            },
    {
        match Serializable_KeyMaterial_AES_GCM_GMAC::read(bytes, 0) {
            None => Err(SecurityError::DeserializationError),
            Some((w, _)) => Self::from_serializable(&w),
        }
    }

    /// Encodes the key material in CDR. Every key material whose salt has at
    /// most 32 bytes has an encoding, so every valid one has.
    pub fn encode_wire(&self) -> (r: Result<Vec<u8>, SecurityError>)
        ensures
            match r {
                Ok(bytes) => self@.master_salt.len() <= MAX_OCTETS && bytes@ == spec_encode_wire(
                    self@,
                ),
                Err(e) => self@.master_salt.len() > MAX_OCTETS && e
                    == SecurityError::SerializationError,
            },
            self.is_valid() ==> r is Ok,
    {
        let w = Serializable_KeyMaterial_AES_GCM_GMAC::from_key_material(self);
        let mut out: Vec<u8> = Vec::new();
        match w.write(&mut out) {
            Err(e) => Err(e),
            Ok(_) => Ok(out),
        }
    }
}

/// The first disagreement between a key material and the common one, in the
/// order sender key identifier, transformation kind, master sender key,
/// master salt; nothing where the four agree.
pub open spec fn spec_mismatch(k: KeyMaterialView, common: KeyMaterialView) -> Option<
    SecurityErrorView,
> {
    if k.sender_key_id != common.sender_key_id {
        Some(
            SecurityErrorView::KeyMaterialMismatch {
                field: KeyMaterialField::SenderKeyId,
                expected: common.sender_key_id,
                received: k.sender_key_id,
            },
        )
    } else if k.transformation_kind != common.transformation_kind {
        Some(
            SecurityErrorView::KeyMaterialMismatch {
                field: KeyMaterialField::TransformationKind,
                expected: common.transformation_kind.wire_code(),
                received: k.transformation_kind.wire_code(),
            },
        )
    } else if k.master_sender_key != common.master_sender_key {
        Some(
            SecurityErrorView::KeyMaterialMismatch {
                field: KeyMaterialField::MasterSenderKey,
                expected: common.master_sender_key,
                received: k.master_sender_key,
            },
        )
    } else if k.master_salt != common.master_salt {
        Some(
            SecurityErrorView::KeyMaterialMismatch {
                field: KeyMaterialField::MasterSalt,
                expected: common.master_salt,
                received: k.master_salt,
            },
        )
    } else {
        None
    }
}

/// Builds the error that reports a disagreement in `field`.
fn mismatch(field: KeyMaterialField, expected: &[u8], received: &[u8]) -> (e: SecurityError)
    ensures
        e@ == (SecurityErrorView::KeyMaterialMismatch {
            field,
            expected: expected@,
            received: received@,
        }),
{
    SecurityError::KeyMaterialMismatch {
        field,
        expected: vstd::slice::slice_to_vec(expected),
        received: vstd::slice::slice_to_vec(received),
    }
}

impl KeyMaterial_AES_GCM_GMAC {
    /// Checks that the key material describes the same relationship as the
    /// common key material, and hands out its receiver-specific part. The
    /// two must agree in the sender key identifier, the transformation kind,
    /// the master sender key and the master salt; the first of these in
    /// which they differ is reported.
    pub fn receiver_key_material_for(&self, common: &KeyMaterial_AES_GCM_GMAC) -> (r: Result<
        ReceiverKeyMaterial,
        SecurityError,
    >)
        ensures
            match r {
                Ok(found) => spec_mismatch(self@, common@) is None && found.receiver_specific_key_id
                    == self.receiver_specific_key_id && found.master_receiver_specific_key
                    == self.master_receiver_specific_key,
                Err(e) => spec_mismatch(self@, common@) == Some(e@),
            },
            r is Ok <==> self@.sender_key_id == common@.sender_key_id && self@.transformation_kind
                == common@.transformation_kind && self@.master_sender_key
                == common@.master_sender_key && self@.master_salt == common@.master_salt,
            r matches Err(e) ==> e@ is KeyMaterialMismatch,
    {
        if !same_octets(self.sender_key_id.as_slice(), common.sender_key_id.as_slice()) {
            Err(
                mismatch(
                    KeyMaterialField::SenderKeyId,
                    common.sender_key_id.as_slice(),
                    self.sender_key_id.as_slice(),
                ),
            )
        } else if self.transformation_kind != common.transformation_kind {
            let expected = common.transformation_kind.encode();
            let received = self.transformation_kind.encode();
            Err(
                mismatch(
                    KeyMaterialField::TransformationKind,
                    expected.as_slice(),
                    received.as_slice(),
                ),
            )
        } else if !self.master_sender_key.same_bytes(&common.master_sender_key) {
            Err(
                mismatch(
                    KeyMaterialField::MasterSenderKey,
                    common.master_sender_key.as_bytes(),
                    self.master_sender_key.as_bytes(),
                ),
            )
        } else if !same_octets(self.master_salt.as_slice(), common.master_salt.as_slice()) {
            Err(
                mismatch(
                    KeyMaterialField::MasterSalt,
                    common.master_salt.as_slice(),
                    self.master_salt.as_slice(),
                ),
            )
        } else {
            Ok(
                ReceiverKeyMaterial {
                    receiver_specific_key_id: self.receiver_specific_key_id,
                    master_receiver_specific_key: self.master_receiver_specific_key,
                },
            )
        }
    }
}

/// Decoding the encoding of a valid key material gives the key material
/// back.
pub proof fn lemma_decode_of_encode(m: KeyMaterialView)
    requires
        m.is_valid(),
    ensures
        spec_decode_wire(spec_encode_wire(m)) == Ok::<KeyMaterialView, SecurityErrorView>(m),
{
    lemma_decode_of_encode_followed(m, Seq::empty());
}

/// Whatever decoding accepts is a valid key material.
pub proof fn lemma_decoded_is_valid(bytes: Seq<u8>)
    ensures
        spec_decode_wire(bytes) matches Ok(m) ==> m.is_valid(),
{
}

/// Decoding gives a valid key material back also where other bytes follow
/// its encoding.
pub proof fn lemma_decode_of_encode_followed(m: KeyMaterialView, rest: Seq<u8>)
    requires
        m.is_valid(),
    ensures
        spec_decode_wire(spec_encode_wire(m) + rest) == Ok::<KeyMaterialView, SecurityErrorView>(m),
{
    let w = wire_of_key_material(m);
    let enc = w.encoding();
    lemma_key_material_of_wire(m);
    assert(enc.is_prefix_of(enc + rest));
    lemma_parse_of_append(enc + rest, Seq::empty(), w);
}

/// What precedes an encoded key material begins whatever the whole begins.
pub proof fn lemma_prefix_of_append_to(bytes: Seq<u8>, prefix: Seq<u8>, w: WireKeyMaterialView)
    requires
        w.append_to(prefix).is_prefix_of(bytes),
    ensures
        prefix.is_prefix_of(bytes),
{
    let with_kind = prefix + w.transformation_kind;
    let with_salt = append_octets(with_kind, w.master_salt);
    let with_sender_id = with_salt + w.sender_key_id;
    let with_sender_key = append_octets(with_sender_id, w.master_sender_key);
    let with_receiver_id = with_sender_key + w.receiver_specific_key_id;
    lemma_prefix_of_append_octets(with_receiver_id, w.master_receiver_specific_key, bytes);
    lemma_prefix_of_append(with_sender_key, w.receiver_specific_key_id, bytes);
    lemma_prefix_of_append_octets(with_sender_id, w.master_sender_key, bytes);
    lemma_prefix_of_append(with_salt, w.sender_key_id, bytes);
    lemma_prefix_of_append_octets(with_kind, w.master_salt, bytes);
    lemma_prefix_of_append(prefix, w.transformation_kind, bytes);
}

/// The wire form of a valid key material stands for the key material.
pub proof fn lemma_key_material_of_wire(m: KeyMaterialView)
    requires
        m.is_valid(),
    ensures
        wire_of_key_material(m).fits(),
        key_material_of_wire(wire_of_key_material(m)) == Ok::<KeyMaterialView, SecurityErrorView>(m),
{
    m.transformation_kind.lemma_decode_of_encode();
}

/// What was encoded behind a prefix is read back behind it, whatever
/// follows.
pub proof fn lemma_parse_of_append(bytes: Seq<u8>, prefix: Seq<u8>, w: WireKeyMaterialView)
    requires
        w.fits(),
        w.append_to(prefix).is_prefix_of(bytes),
    ensures
        parse_wire_key_material(bytes, prefix.len() as int) == Some(
            (w, w.append_to(prefix).len() as int),
        ),
{
    let bound = MAX_OCTETS as int;
    let with_kind = prefix + w.transformation_kind;
    let with_salt = append_octets(with_kind, w.master_salt);
    let with_sender_id = with_salt + w.sender_key_id;
    let with_sender_key = append_octets(with_sender_id, w.master_sender_key);
    let with_receiver_id = with_sender_key + w.receiver_specific_key_id;
    lemma_prefix_of_append_octets(with_receiver_id, w.master_receiver_specific_key, bytes);
    lemma_prefix_of_append(with_sender_key, w.receiver_specific_key_id, bytes);
    lemma_prefix_of_append_octets(with_sender_id, w.master_sender_key, bytes);
    lemma_prefix_of_append(with_salt, w.sender_key_id, bytes);
    lemma_prefix_of_append_octets(with_kind, w.master_salt, bytes);
    lemma_parse_fixed_of_append(bytes, prefix, w.transformation_kind);
    lemma_parse_octets_of_append(bytes, with_kind, w.master_salt, bound);
    lemma_parse_fixed_of_append(bytes, with_salt, w.sender_key_id);
    lemma_parse_octets_of_append(bytes, with_sender_id, w.master_sender_key, bound);
    lemma_parse_fixed_of_append(bytes, with_sender_key, w.receiver_specific_key_id);
    lemma_parse_octets_of_append(bytes, with_receiver_id, w.master_receiver_specific_key, bound);
}

} // verus!
