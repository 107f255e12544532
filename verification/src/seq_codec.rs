//! The CDR encoding of the key materials of one endpoint: their number as a
//! 32-bit number, then the key materials one behind the other.

use vstd::prelude::*;
use crate::cdr::{append_u32, lemma_parse_u32_of_append, parse_u32, read_u32, write_u32};
use crate::error::{SecurityError, SecurityErrorView};
use crate::key_material::{
    key_material_of_wire, lemma_key_material_of_wire, lemma_parse_of_append,
    lemma_prefix_of_append_to, parse_wire_key_material, wire_of_key_material, KeyMaterialView,
    KeyMaterial_AES_GCM_GMAC, Serializable_KeyMaterial_AES_GCM_GMAC, WireKeyMaterialView,
    MAX_OCTETS,
};
use crate::key_material_seq::{
    collect, lemma_collect_all_ok, lemma_collect_error_of_prefix, spec_from_wire_list, views,
    KeyMaterial_AES_GCM_GMAC_seq,
};

verus! {

/// The encodings of the key materials of `list`, one behind the other,
/// behind `prefix`.
pub open spec fn append_wire_list(prefix: Seq<u8>, list: Seq<WireKeyMaterialView>) -> Seq<u8>
    decreases list.len(),
{
    if list.len() == 0 {
        prefix
    } else {
        list.last().append_to(append_wire_list(prefix, list.drop_last()))
    }
}

/// The wire forms of a list of key materials.
pub open spec fn wires_of(list: Seq<KeyMaterialView>) -> Seq<WireKeyMaterialView> {
    list.map_values(|m: KeyMaterialView| wire_of_key_material(m))
}

/// The CDR encoding of a list of key materials.
pub open spec fn spec_encode_wire_list(list: Seq<KeyMaterialView>) -> Seq<u8> {
    append_wire_list(append_u32(Seq::empty(), list.len() as u32), wires_of(list))
}

/// Reads `count` key materials one behind the other at `pos`: their wire
/// forms and the position behind the last, or nothing where the framing of
/// one of them is broken.
pub open spec fn parse_wire_list(bytes: Seq<u8>, pos: int, count: nat) -> Option<
    (Seq<WireKeyMaterialView>, int),
>
    decreases count,
{
    if count == 0 {
        Some((Seq::empty(), pos))
    } else {
        match parse_wire_list(bytes, pos, (count - 1) as nat) {
            None => None,
            Some((before, p)) => match parse_wire_key_material(bytes, p) {
                None => None,
                Some((w, next)) => Some((before.push(w), next)),
            },
        }
    }
}

/// What decoding makes of a byte string as the key materials of one
/// endpoint. The framing of the whole list is read first, and a break in it
/// gives `DeserializationError`; then each wire form is made a key
/// material, and the first that is refused decides the error; then the key
/// materials are counted.
pub open spec fn spec_decode_wire_list(bytes: Seq<u8>) -> Result<
    Seq<KeyMaterialView>,
    SecurityErrorView,
> {
    match parse_u32(bytes, 0) {
        None => Err(SecurityErrorView::DeserializationError),
        Some((count, p)) => match parse_wire_list(bytes, p, count as nat) {
            None => Err(SecurityErrorView::DeserializationError),
            Some((wires, _)) => match collect(
                wires.map_values(|w: WireKeyMaterialView| key_material_of_wire(w)),
            ) {
                Err(e) => Err(e),
                Ok(list) => spec_from_wire_list(list),
            },
        },
    }
}

/// Key materials that were encoded one behind the other are read back, as
/// many as were encoded, whatever follows.
pub proof fn lemma_parse_wire_list_of_append(
    bytes: Seq<u8>,
    prefix: Seq<u8>,
    list: Seq<WireKeyMaterialView>,
)
    requires
        forall|i: int| 0 <= i < list.len() ==> (#[trigger] list[i]).fits(),
        append_wire_list(prefix, list).is_prefix_of(bytes),
    ensures
        parse_wire_list(bytes, prefix.len() as int, list.len()) == Some(
            (list, append_wire_list(prefix, list).len() as int),
        ),
    decreases list.len(),
{
    if list.len() > 0 {
        let before = list.drop_last();
        let inner = append_wire_list(prefix, before);
        lemma_prefix_of_append_to(bytes, inner, list.last());
        lemma_parse_wire_list_of_append(bytes, prefix, before);
        lemma_parse_of_append(bytes, inner, list.last());
    }
}

/// Decoding the encoding of the valid key materials of an endpoint gives
/// them back.
pub proof fn lemma_decode_of_encode_list(s: KeyMaterial_AES_GCM_GMAC_seq)
    requires
        forall|i: int| 0 <= i < s@.len() ==> (#[trigger] s@[i]).is_valid(),
    ensures
        spec_decode_wire_list(spec_encode_wire_list(s@)) == Ok::<
            Seq<KeyMaterialView>,
            SecurityErrorView,
        >(s@),
{
    let list = s@;
    let count = list.len() as u32;
    let head = append_u32(Seq::empty(), count);
    let wires = wires_of(list);
    let bytes = spec_encode_wire_list(list);
    assert(bytes.is_prefix_of(bytes));
    assert forall|i: int| 0 <= i < wires.len() implies (#[trigger] wires[i]).fits() by {
        lemma_key_material_of_wire(list[i]);
    }
    lemma_parse_wire_list_of_append(bytes, head, wires);
    lemma_prefix_of_append_wire_list(bytes, head, wires);
    lemma_parse_u32_of_append(bytes, Seq::empty(), count);
    let results = wires.map_values(|w: WireKeyMaterialView| key_material_of_wire(w));
    assert forall|i: int| 0 <= i < results.len() implies #[trigger] results[i] == Ok::<
        KeyMaterialView,
        SecurityErrorView,
    >(list[i]) by {
        lemma_key_material_of_wire(list[i]);
    }
    lemma_collect_all_ok(results, list);
    s.lemma_from_wire_list_of_to_wire_list();
}

/// What precedes a run of encoded key materials begins whatever the whole
/// begins.
pub proof fn lemma_prefix_of_append_wire_list(
    bytes: Seq<u8>,
    prefix: Seq<u8>,
    list: Seq<WireKeyMaterialView>,
)
    requires
        append_wire_list(prefix, list).is_prefix_of(bytes),
    ensures
        prefix.is_prefix_of(bytes),
    decreases list.len(),
{
    if list.len() > 0 {
        lemma_prefix_of_append_to(bytes, append_wire_list(prefix, list.drop_last()), list.last());
        lemma_prefix_of_append_wire_list(bytes, prefix, list.drop_last());
    }
}

impl KeyMaterial_AES_GCM_GMAC_seq {
    /// Decodes the key materials of one endpoint from the CDR bytes that
    /// they begin with.
    pub fn decode_wire(bytes: &[u8]) -> (r: Result<KeyMaterial_AES_GCM_GMAC_seq, SecurityError>)
        ensures
            match r {
                Ok(s) => spec_decode_wire_list(bytes@) == Ok::<
                    Seq<KeyMaterialView>,
                    SecurityErrorView,
                >(s@),
                Err(e) => spec_decode_wire_list(bytes@) == Err::<
                    Seq<KeyMaterialView>,
                    SecurityErrorView,
                >(e@),
            },
    {
        let (count, start) = match read_u32(bytes, 0) {
            None => { return Err(SecurityError::DeserializationError); },
            Some(found) => found,
        };
        let mut wires: Vec<Serializable_KeyMaterial_AES_GCM_GMAC> = Vec::new();
        let mut pos: usize = start;
        let mut i: u32 = 0;
        while i < count
            invariant
                i <= count,
                wires@.len() == i,
                parse_u32(bytes@, 0) == Some((count, start as int)),
                parse_wire_list(bytes@, start as int, i as nat) == Some(
                    (wires@.map_values(|w: Serializable_KeyMaterial_AES_GCM_GMAC| w@), pos as int),
                ),
            decreases count - i,
        {
            match Serializable_KeyMaterial_AES_GCM_GMAC::read(bytes, pos) {
                None => {
                    proof {
                        lemma_parse_wire_list_none(bytes@, start as int, (i + 1) as nat, count as nat);
                    }
                    return Err(SecurityError::DeserializationError);
                },
                Some((w, next)) => {
                    wires.push(w);
                    pos = next;
                },
            }
            i += 1;
        }
        let ghost parsed = wires@.map_values(|w: Serializable_KeyMaterial_AES_GCM_GMAC| w@);
        let ghost end = pos as int;
        let ghost results = parsed.map_values(|w: WireKeyMaterialView| key_material_of_wire(w));
        let mut list: Vec<KeyMaterial_AES_GCM_GMAC> = Vec::new();
        let mut j: usize = 0;
        assert(views(list@) =~= Seq::empty());
        while j < wires.len()
            invariant
                j <= wires@.len(),
                parse_u32(bytes@, 0) == Some((count, start as int)),
                parse_wire_list(bytes@, start as int, count as nat) == Some((parsed, end)),
                parsed == wires@.map_values(|w: Serializable_KeyMaterial_AES_GCM_GMAC| w@),
                results == parsed.map_values(|w: WireKeyMaterialView| key_material_of_wire(w)),
                collect(results.subrange(0, j as int)) == Ok::<
                    Seq<KeyMaterialView>,
                    SecurityErrorView,
                >(views(list@)),
            decreases wires@.len() - j,
        {
            let ghost now = results.subrange(0, j + 1);
            assert(now.drop_last() =~= results.subrange(0, j as int));
            match KeyMaterial_AES_GCM_GMAC::from_serializable(&wires[j]) {
                Err(e) => {
                    proof {
                        lemma_collect_error_of_prefix(results, j + 1);
                    }
                    return Err(e);
                },
                Ok(m) => {
                    let ghost old_list = list@;
                    list.push(m);
                    assert(views(list@) =~= views(old_list).push(m@));
                },
            }
            j += 1;
        }
        assert(results.subrange(0, j as int) =~= results);
        KeyMaterial_AES_GCM_GMAC_seq::from_wire_list(list)
    }

    /// Encodes the key materials in CDR. This works where every key
    /// material has an encoding, so for valid ones.
    pub fn encode_wire(&self) -> (r: Result<Vec<u8>, SecurityError>)
        ensures
            match r {
                Ok(bytes) => bytes@ == spec_encode_wire_list(self@) && forall|i: int|
                    0 <= i < self@.len() ==> (#[trigger] self@[i]).master_salt.len() <= MAX_OCTETS,
                Err(e) => e == SecurityError::SerializationError && exists|i: int|
                    0 <= i < self@.len() && (#[trigger] self@[i]).master_salt.len() > MAX_OCTETS,
            },
    {
        let mut out: Vec<u8> = Vec::new();
        match self {
            KeyMaterial_AES_GCM_GMAC_seq::One(key_material) => {
                write_u32(&mut out, 1);
                let ghost head = out@;
                let w = Serializable_KeyMaterial_AES_GCM_GMAC::from_key_material(key_material);
                match w.write(&mut out) {
                    Err(e) => { return Err(e); },
                    Ok(_) => {},
                }
                proof {
                    let wires = wires_of(self@);
                    assert(append_wire_list(head, wires.drop_last()) == head);
                }
                Ok(out)
            },
            KeyMaterial_AES_GCM_GMAC_seq::Two(key_material, payload_key_material) => {
                assert(self@[0] == key_material@);
                assert(self@[1] == payload_key_material@);
                write_u32(&mut out, 2);
                let ghost head = out@;
                let w = Serializable_KeyMaterial_AES_GCM_GMAC::from_key_material(key_material);
                match w.write(&mut out) {
                    Err(e) => { return Err(e); },
                    Ok(_) => {},
                }
                let payload_w = Serializable_KeyMaterial_AES_GCM_GMAC::from_key_material(
                    payload_key_material,
                );
                match payload_w.write(&mut out) {
                    Err(e) => { return Err(e); },
                    Ok(_) => {},
                }
                proof {
                    let wires = wires_of(self@);
                    let first = wires.drop_last();
                    assert(append_wire_list(head, first.drop_last()) == head);
                    assert(append_wire_list(head, first) == w@.append_to(head));
                }
                Ok(out)
            },
        }
    }
}

/// Where fewer key materials than asked for can be read, the list cannot.
pub proof fn lemma_parse_wire_list_none(bytes: Seq<u8>, pos: int, n: nat, count: nat)
    requires
        n <= count,
        parse_wire_list(bytes, pos, n) is None,
    ensures
        parse_wire_list(bytes, pos, count) is None,
    decreases count - n,
{
    if n < count {
        lemma_parse_wire_list_none(bytes, pos, n + 1, count);
    }
}

} // verus!
