//! The one or two key materials of an endpoint: one where the same key
//! material protects submessages and payload, two where the payload has a
//! key material of its own.

use vstd::prelude::*;
use crate::builtin_key::BuiltinKey;
use crate::error::{SecurityError, SecurityErrorView};
use crate::key_material::{KeyMaterialView, KeyMaterial_AES_GCM_GMAC};
use crate::transformation_kind::{BuiltinCryptoTransformationKind, CryptoTransformKeyId};

verus! {

/// The key materials of an endpoint, the one for submessages first.
#[allow(non_camel_case_types)]
#[derive(Debug, Clone, PartialEq, Eq)]
pub enum KeyMaterial_AES_GCM_GMAC_seq {
    One(KeyMaterial_AES_GCM_GMAC),
    Two(KeyMaterial_AES_GCM_GMAC, KeyMaterial_AES_GCM_GMAC),
}

/// The value of the key material that stands for "no protection": kind
/// NONE, no salt, no keys, and identifiers of four zero bytes.
pub open spec fn unprotected_view() -> KeyMaterialView {
    KeyMaterialView {
        transformation_kind: BuiltinCryptoTransformationKind::CRYPTO_TRANSFORMATION_KIND_NONE,
        master_salt: Seq::empty(),
        sender_key_id: seq![0u8, 0u8, 0u8, 0u8],
        master_sender_key: Seq::empty(),
        receiver_specific_key_id: seq![0u8, 0u8, 0u8, 0u8],
        master_receiver_specific_key: Seq::empty(),
    }
}

/// The values of a list of key materials.
pub open spec fn views(list: Seq<KeyMaterial_AES_GCM_GMAC>) -> Seq<KeyMaterialView> {
    list.map_values(|m: KeyMaterial_AES_GCM_GMAC| m@)
}

/// What a list of key materials makes as a sequence: the key material of
/// "no protection" alone for the empty list, the list itself for one or two,
/// and `InvalidCardinality` with the number found for more.
pub open spec fn spec_from_wire_list(list: Seq<KeyMaterialView>) -> Result<
    Seq<KeyMaterialView>,
    SecurityErrorView,
> {
    if list.len() == 0 {
        Ok(seq![unprotected_view()])
    } else if list.len() <= 2 {
        Ok(list)
    } else {
        Err(SecurityErrorView::InvalidCardinality { count: list.len() as usize })
    }
}

/// The outcome of reading a list element by element: all the key materials,
/// in their order, or the error of the first element that was refused.
pub open spec fn collect(results: Seq<Result<KeyMaterialView, SecurityErrorView>>) -> Result<
    Seq<KeyMaterialView>,
    SecurityErrorView,
>
    decreases results.len(),
{
    if results.len() == 0 {
        Ok(Seq::empty())
    } else {
        match collect(results.drop_last()) {
            Err(e) => Err(e),
            Ok(before) => match results.last() {
                Err(e) => Err(e),
                Ok(m) => Ok(before.push(m)),
            },
        }
    }
}

/// A list is read without error exactly when each element is, and the key
/// materials then stand in the elements' order; the error of a list is that
/// of its first refused element.
pub proof fn lemma_collect(results: Seq<Result<KeyMaterialView, SecurityErrorView>>)
    ensures
        match collect(results) {
            Ok(list) => list.len() == results.len() && forall|i: int|
                0 <= i < results.len() ==> #[trigger] results[i] == Ok::<
                    KeyMaterialView,
                    SecurityErrorView,
                >(list[i]),
            Err(e) => exists|i: int|
                0 <= i < results.len() && #[trigger] results[i] == Err::<
                    KeyMaterialView,
                    SecurityErrorView,
                >(e) && forall|j: int| 0 <= j < i ==> (#[trigger] results[j]) is Ok,
        },
    decreases results.len(),
{
    if results.len() > 0 {
        let before = results.drop_last();
        lemma_collect(before);
        match collect(before) {
            Err(e) => {
                let i = choose|i: int|
                    0 <= i < before.len() && #[trigger] before[i] == Err::<
                        KeyMaterialView,
                        SecurityErrorView,
                    >(e) && forall|j: int| 0 <= j < i ==> (#[trigger] before[j]) is Ok;
                assert forall|j: int| 0 <= j < i implies (#[trigger] results[j]) is Ok by {
                    assert(results[j] == before[j]);
                }
            },
            Ok(list) => {
                assert forall|j: int| 0 <= j < before.len() implies #[trigger] results[j] == Ok::<
                    KeyMaterialView,
                    SecurityErrorView,
                >(list[j]) by {
                    assert(results[j] == before[j]);
                }
            },
        }
    }
}

/// The error of a beginning of a list is the error of the list.
pub proof fn lemma_collect_error_of_prefix(
    results: Seq<Result<KeyMaterialView, SecurityErrorView>>,
    n: int,
)
    requires
        0 <= n <= results.len(),
        collect(results.subrange(0, n)) is Err,
    ensures
        collect(results) == collect(results.subrange(0, n)),
    decreases results.len() - n,
{
    if n < results.len() {
        let longer = results.subrange(0, n + 1);
        assert(longer.drop_last() =~= results.subrange(0, n));
        lemma_collect_error_of_prefix(results, n + 1);
    } else {
        assert(results.subrange(0, n) =~= results);
    }
}

/// Where every element is read without error, so is the list, and the key
/// materials are those of the elements.
pub proof fn lemma_collect_all_ok(
    results: Seq<Result<KeyMaterialView, SecurityErrorView>>,
    list: Seq<KeyMaterialView>,
)
    requires
        list.len() == results.len(),
        forall|i: int|
            0 <= i < results.len() ==> #[trigger] results[i] == Ok::<
                KeyMaterialView,
                SecurityErrorView,
            >(list[i]),
    ensures
        collect(results) == Ok::<Seq<KeyMaterialView>, SecurityErrorView>(list),
    decreases results.len(),
{
    if results.len() == 0 {
        assert(list =~= Seq::empty());
    } else {
        let before = results.drop_last();
        lemma_collect_all_ok(before, list.drop_last());
        assert(list.drop_last().push(list.last()) =~= list);
    }
}

impl View for KeyMaterial_AES_GCM_GMAC_seq {
    type V = Seq<KeyMaterialView>;

    /// The values of the key materials, in their order.
    open spec fn view(&self) -> Seq<KeyMaterialView> {
        views(self.spec_list())
    }
}

impl KeyMaterial_AES_GCM_GMAC {
    /// The key material that stands for "no protection".
    pub fn unprotected() -> (m: Self)
        ensures
            m@ == unprotected_view(),
            m.is_valid(),
    {
        let m = KeyMaterial_AES_GCM_GMAC {
            transformation_kind: BuiltinCryptoTransformationKind::CRYPTO_TRANSFORMATION_KIND_NONE,
            master_salt: Vec::new(),
            sender_key_id: [0, 0, 0, 0],
            master_sender_key: BuiltinKey::ZERO,
            receiver_specific_key_id: [0, 0, 0, 0],
            master_receiver_specific_key: BuiltinKey::ZERO,
        };
        m
    }

    /// The key material with its receiver-specific identifier and key
    /// replaced, and nothing else changed.
    pub open spec fn with_receiver_specific_key(
        self,
        receiver_specific_key_id: CryptoTransformKeyId,
        master_receiver_specific_key: BuiltinKey,
    ) -> Self {
        KeyMaterial_AES_GCM_GMAC {
            transformation_kind: self.transformation_kind,
            master_salt: self.master_salt,
            sender_key_id: self.sender_key_id,
            master_sender_key: self.master_sender_key,
            receiver_specific_key_id,
            master_receiver_specific_key,
        }
    }
}

/// The key material with its receiver-specific identifier and key replaced.
fn replace_receiver_specific_key(
    key_material: KeyMaterial_AES_GCM_GMAC,
    receiver_specific_key_id: CryptoTransformKeyId,
    master_receiver_specific_key: BuiltinKey,
) -> (replaced: KeyMaterial_AES_GCM_GMAC)
    ensures
        replaced == key_material.with_receiver_specific_key(
            receiver_specific_key_id,
            master_receiver_specific_key,
        ),
{
    KeyMaterial_AES_GCM_GMAC {
        transformation_kind: key_material.transformation_kind,
        master_salt: key_material.master_salt,
        sender_key_id: key_material.sender_key_id,
        master_sender_key: key_material.master_sender_key,
        receiver_specific_key_id,
        master_receiver_specific_key,
    }
}

impl KeyMaterial_AES_GCM_GMAC_seq {
    /// The key material for submessages: the first.
    pub open spec fn spec_key_material(self) -> KeyMaterial_AES_GCM_GMAC {
        match self {
            Self::One(key_material) => key_material,
            Self::Two(key_material, _) => key_material,
        }
    }

    /// The key material for the payload: the second where there is one,
    /// else the first.
    pub open spec fn spec_payload_key_material(self) -> KeyMaterial_AES_GCM_GMAC {
        match self {
            Self::One(key_material) => key_material,
            Self::Two(_, payload_key_material) => payload_key_material,
        }
    }

    /// The key materials as a list of one or two.
    pub open spec fn spec_list(self) -> Seq<KeyMaterial_AES_GCM_GMAC> {
        match self {
            Self::One(key_material) => seq![key_material],
            Self::Two(key_material, payload_key_material) => seq![key_material, payload_key_material],
        }
    }

    /// The sequence with `first` in place of its first key material.
    pub open spec fn with_key_material(self, first: KeyMaterial_AES_GCM_GMAC) -> Self {
        match self {
            Self::One(_) => Self::One(first),
            Self::Two(_, payload_key_material) => Self::Two(first, payload_key_material),
        }
    }

    /// The key material for submessages.
    pub fn key_material(&self) -> (first: &KeyMaterial_AES_GCM_GMAC)
        ensures
            *first == self.spec_key_material(),
    {
        match self {
            Self::One(key_material) => key_material,
            Self::Two(key_material, _) => key_material,
        }
    }

    /// The key material for the payload: a single key material protects
    /// both submessages and payload.
    pub fn payload_key_material(&self) -> (payload: &KeyMaterial_AES_GCM_GMAC)
        ensures
            *payload == self.spec_payload_key_material(),
    {
        match self {
            Self::One(key_material) => key_material,
            Self::Two(_, payload_key_material) => payload_key_material,
        }
    }

    /// Puts what `f` makes of the first key material in its place. The
    /// key material for the payload, where there is one, stays.
    pub fn modify_key_material<F>(self, f: F) -> (modified: KeyMaterial_AES_GCM_GMAC_seq) where
        F: FnOnce(KeyMaterial_AES_GCM_GMAC) -> KeyMaterial_AES_GCM_GMAC,

        requires
            call_requires(f, (self.spec_key_material(),)),
        ensures
            call_ensures(f, (self.spec_key_material(),), modified.spec_key_material()),
            modified == self.with_key_material(modified.spec_key_material()),
    {
        match self {
            Self::One(key_material) => Self::One(f(key_material)),
            Self::Two(key_material, payload_key_material) => {
                Self::Two(f(key_material), payload_key_material)
            },
        }
    }

    /// Replaces the receiver-specific identifier and key of the first key
    /// material. Its other fields, and the key material for the payload,
    /// stay as they are.
    pub fn add_master_receiver_specific_key(
        self,
        receiver_specific_key_id: CryptoTransformKeyId,
        master_receiver_specific_key: BuiltinKey,
    ) -> (modified: KeyMaterial_AES_GCM_GMAC_seq)
        ensures
            modified == self.with_key_material(
                self.spec_key_material().with_receiver_specific_key(
                    receiver_specific_key_id,
                    master_receiver_specific_key,
                ),
            ),
    {
        let replace = |key_material: KeyMaterial_AES_GCM_GMAC| -> (replaced: KeyMaterial_AES_GCM_GMAC)
            ensures
                replaced == key_material.with_receiver_specific_key(
                    receiver_specific_key_id,
                    master_receiver_specific_key,
                ),
            { replace_receiver_specific_key(key_material, receiver_specific_key_id, master_receiver_specific_key) };
        self.modify_key_material(replace)
    }

    /// Makes the sequence out of a list as it comes from the wire. No key
    /// material stands for "no protection", one or two are taken as they
    /// are, and more are refused with their number.
    pub fn from_wire_list(list: Vec<KeyMaterial_AES_GCM_GMAC>) -> (r: Result<
        KeyMaterial_AES_GCM_GMAC_seq,
        SecurityError,
    >)
        ensures
            match r {
                Ok(s) => spec_from_wire_list(views(list@)) == Ok::<
                    Seq<KeyMaterialView>,
                    SecurityErrorView,
                >(s@),
                Err(e) => spec_from_wire_list(views(list@)) == Err::<
                    Seq<KeyMaterialView>,
                    SecurityErrorView,
                >(e@),
            },
            list@.len() == 0 ==> (r matches Ok(KeyMaterial_AES_GCM_GMAC_seq::One(m)) && m@
                == unprotected_view()),
            list@.len() == 1 ==> r == Ok::<KeyMaterial_AES_GCM_GMAC_seq, SecurityError>(
                KeyMaterial_AES_GCM_GMAC_seq::One(list@[0]),
            ),
            list@.len() == 2 ==> r == Ok::<KeyMaterial_AES_GCM_GMAC_seq, SecurityError>(
                KeyMaterial_AES_GCM_GMAC_seq::Two(list@[0], list@[1]),
            ),
            list@.len() >= 3 ==> r == Err::<KeyMaterial_AES_GCM_GMAC_seq, SecurityError>(
                SecurityError::InvalidCardinality { count: list@.len() as usize },
            ),
    {
        let mut list = list;
        let ghost given = list@;
        let count = list.len();
        if count == 0 {
            let s = KeyMaterial_AES_GCM_GMAC_seq::One(KeyMaterial_AES_GCM_GMAC::unprotected());
            assert(s@ =~= seq![unprotected_view()]);
            Ok(s)
        } else if count == 1 {
            let key_material = list.pop().unwrap();
            let s = KeyMaterial_AES_GCM_GMAC_seq::One(key_material);
            assert(s@ =~= views(given));
            Ok(s)
        } else if count == 2 {
            let payload_key_material = list.pop().unwrap();
            let key_material = list.pop().unwrap();
            let s = KeyMaterial_AES_GCM_GMAC_seq::Two(key_material, payload_key_material);
            assert(s@ =~= views(given));
            Ok(s)
        } else {
            Err(SecurityError::InvalidCardinality { count })
        }
    }

    /// The key materials as a list for the wire: one or two, never none.
    pub fn to_wire_list(self) -> (list: Vec<KeyMaterial_AES_GCM_GMAC>)
        ensures
            list@ == self.spec_list(),
            views(list@) == self@,
            1 <= list@.len() <= 2,
    {
        let mut list: Vec<KeyMaterial_AES_GCM_GMAC> = Vec::new();
        match self {
            Self::One(key_material) => {
                list.push(key_material);
            },
            Self::Two(key_material, payload_key_material) => {
                list.push(key_material);
                list.push(payload_key_material);
            },
        }
        list
    }

    /// Listing a sequence and making a sequence of the list gives the
    /// sequence back.
    pub proof fn lemma_from_wire_list_of_to_wire_list(self)
        ensures
            spec_from_wire_list(self@) == Ok::<Seq<KeyMaterialView>, SecurityErrorView>(self@),
    {
    }
}

} // verus!
