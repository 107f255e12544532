//! The generic crypto token, a class-tagged bag of properties, and the one
//! shape of it that carries a key material of this plugin. The two fixed
//! names of that shape appear here and nowhere else.

use bytes::Bytes;
use vstd::prelude::*;
use crate::buffer::bytes_contents;
use crate::error::{SecurityError, SecurityErrorView};
use crate::key_material::{
    lemma_decode_of_encode, spec_decode_wire, spec_encode_wire, KeyMaterialView,
    KeyMaterial_AES_GCM_GMAC, MAX_OCTETS,
};
use crate::key_material_seq::{
    collect, lemma_collect_all_ok, lemma_collect_error_of_prefix, spec_from_wire_list, views,
    KeyMaterial_AES_GCM_GMAC_seq,
};

verus! {

/// The class of the tokens of this plugin.
pub const CRYPTO_TOKEN_CLASS_ID: &'static str = "DDS:Crypto:AES_GCM_GMAC";

/// The name of the binary property that holds the key material.
pub const CRYPTO_TOKEN_KEYMAT_NAME: &'static str = "dds.cryp.keymat";

/// A named string of a token.
#[derive(Debug, Clone, PartialEq, Eq)]
pub struct Property {
    pub name: String,
    pub value: String,
    pub propagate: bool,
}

/// A named byte string of a token.
#[derive(Debug, Clone, PartialEq, Eq)]
pub struct BinaryProperty {
    pub name: String,
    pub value: Bytes,
    pub propagate: bool,
}

/// A class-tagged bag of properties.
#[derive(Debug, Clone, PartialEq, Eq)]
pub struct DataHolder {
    pub class_id: String,
    pub properties: Vec<Property>,
    pub binary_properties: Vec<BinaryProperty>,
}

/// The carrier of a key material between plugins and over the network.
#[derive(Debug, Clone, PartialEq, Eq)]
pub struct CryptoToken {
    pub data_holder: DataHolder,
}

/// The token of this plugin, read: it holds one key material.
#[derive(Debug, Clone, PartialEq, Eq)]
pub struct BuiltinCryptoToken {
    pub key_material: KeyMaterial_AES_GCM_GMAC,
}

/// The mathematical value of a [`Property`].
pub struct PropertyView {
    pub name: Seq<char>,
    pub value: Seq<char>,
    pub propagate: bool,
}

/// The mathematical value of a [`BinaryProperty`].
pub struct BinaryPropertyView {
    pub name: Seq<char>,
    pub value: Seq<u8>,
    pub propagate: bool,
}

/// The mathematical value of a [`DataHolder`], and of the token around it.
pub struct DataHolderView {
    pub class_id: Seq<char>,
    pub properties: Seq<PropertyView>,
    pub binary_properties: Seq<BinaryPropertyView>,
}

impl View for Property {
    type V = PropertyView;

    open spec fn view(&self) -> PropertyView {
        PropertyView { name: self.name@, value: self.value@, propagate: self.propagate }
    }
}

impl View for BinaryProperty {
    type V = BinaryPropertyView;

    open spec fn view(&self) -> BinaryPropertyView {
        BinaryPropertyView {
            name: self.name@,
            value: bytes_contents(self.value),
            propagate: self.propagate,
        }
    }
}

impl View for DataHolder {
    type V = DataHolderView;

    open spec fn view(&self) -> DataHolderView {
        DataHolderView {
            class_id: self.class_id@,
            properties: self.properties@.map_values(|p: Property| p@),
            binary_properties: self.binary_properties@.map_values(|p: BinaryProperty| p@),
        }
    }
}

impl View for CryptoToken {
    type V = DataHolderView;

    open spec fn view(&self) -> DataHolderView {
        self.data_holder@
    }
}

/// What reading a token as one of this plugin gives. The class is looked at
/// first, then the string properties, which must be absent, then the binary
/// properties, which must be exactly the one named `dds.cryp.keymat`; a
/// wrong number and a wrong name are refused alike, with the number found.
/// The value of that one is then decoded as a key material.
pub open spec fn spec_token_to_key_material(token: DataHolderView) -> Result<
    KeyMaterialView,
    SecurityErrorView,
> {
    if token.class_id != CRYPTO_TOKEN_CLASS_ID@ {
        Err(SecurityErrorView::WrongClassId)
    } else if token.properties.len() != 0 {
        Err(SecurityErrorView::UnexpectedProperties)
    } else if token.binary_properties.len() != 1 || token.binary_properties[0].name
        != CRYPTO_TOKEN_KEYMAT_NAME@ {
        Err(
            SecurityErrorView::WrongBinaryPropertyCount {
                count: token.binary_properties.len() as usize,
            },
        )
    } else {
        spec_decode_wire(token.binary_properties[0].value)
    }
}

/// The token that carries a key material: of this plugin's class, without
/// string properties, and with the one binary property that holds the key
/// material's CDR encoding.
pub open spec fn spec_key_material_to_token(m: KeyMaterialView) -> DataHolderView {
    DataHolderView {
        class_id: CRYPTO_TOKEN_CLASS_ID@,
        properties: Seq::empty(),
        binary_properties: seq![
            BinaryPropertyView {
                name: CRYPTO_TOKEN_KEYMAT_NAME@,
                value: spec_encode_wire(m),
                propagate: true,
            },
        ],
    }
}

/// A token of another class is refused as such, whatever else it holds; a
/// token of this class with string properties is refused for them; and a
/// token of this class without string properties is refused for its binary
/// properties where their number is not one, or where the one has another
/// name than `dds.cryp.keymat`.
pub proof fn lemma_token_refusals(token: DataHolderView)
    ensures
        token.class_id != CRYPTO_TOKEN_CLASS_ID@ ==> spec_token_to_key_material(token) == Err::<
            KeyMaterialView,
            SecurityErrorView,
        >(SecurityErrorView::WrongClassId),
        token.class_id == CRYPTO_TOKEN_CLASS_ID@ && token.properties.len() != 0
            ==> spec_token_to_key_material(token) == Err::<KeyMaterialView, SecurityErrorView>(
            SecurityErrorView::UnexpectedProperties,
        ),
        token.class_id == CRYPTO_TOKEN_CLASS_ID@ && token.properties.len() == 0
            && token.binary_properties.len() != 1 ==> spec_token_to_key_material(token) == Err::<
            KeyMaterialView,
            SecurityErrorView,
        >(
            SecurityErrorView::WrongBinaryPropertyCount {
                count: token.binary_properties.len() as usize,
            },
        ),
        token.class_id == CRYPTO_TOKEN_CLASS_ID@ && token.properties.len() == 0
            && token.binary_properties.len() == 1 && token.binary_properties[0].name
            != CRYPTO_TOKEN_KEYMAT_NAME@ ==> spec_token_to_key_material(token) == Err::<
            KeyMaterialView,
            SecurityErrorView,
        >(SecurityErrorView::WrongBinaryPropertyCount { count: 1 }),
{
}

/// Reading the token that carries a valid key material gives the key
/// material back.
pub proof fn lemma_token_round_trip(m: KeyMaterialView)
    requires
        m.is_valid(),
    ensures
        spec_token_to_key_material(spec_key_material_to_token(m)) == Ok::<
            KeyMaterialView,
            SecurityErrorView,
        >(m),
{
    lemma_decode_of_encode(m);
}

impl BuiltinCryptoToken {
    /// Reads a generic token as one of this plugin.
    pub fn from_token(token: &CryptoToken) -> (r: Result<BuiltinCryptoToken, SecurityError>)
        ensures
            match r {
                Ok(builtin) => spec_token_to_key_material(token@) == Ok::<
                    KeyMaterialView,
                    SecurityErrorView,
                >(builtin.key_material@) && builtin.key_material.is_valid(),
                Err(e) => spec_token_to_key_material(token@) == Err::<
                    KeyMaterialView,
                    SecurityErrorView,
                >(e@),
            },
            token@.class_id != CRYPTO_TOKEN_CLASS_ID@ ==> r == Err::<BuiltinCryptoToken, SecurityError>(
                SecurityError::WrongClassId,
            ),
            token@.class_id == CRYPTO_TOKEN_CLASS_ID@ && token@.properties.len() != 0 ==> r == Err::<
                BuiltinCryptoToken,
                SecurityError,
            >(SecurityError::UnexpectedProperties),
            token@.class_id == CRYPTO_TOKEN_CLASS_ID@ && token@.properties.len() == 0
                && token@.binary_properties.len() != 1 ==> r == Err::<
                BuiltinCryptoToken,
                SecurityError,
            >(
                SecurityError::WrongBinaryPropertyCount {
                    count: token@.binary_properties.len() as usize,
                },
            ),
            token@.class_id == CRYPTO_TOKEN_CLASS_ID@ && token@.properties.len() == 0
                && token@.binary_properties.len() == 1 && token@.binary_properties[0].name
                != CRYPTO_TOKEN_KEYMAT_NAME@ ==> r == Err::<BuiltinCryptoToken, SecurityError>(
                SecurityError::WrongBinaryPropertyCount { count: 1 },
            ),
    {
        let dh = &token.data_holder;
        let class_id = CRYPTO_TOKEN_CLASS_ID.to_owned();
        if dh.class_id != class_id {
            return Err(SecurityError::WrongClassId);
        }
        if dh.properties.len() != 0 {
            return Err(SecurityError::UnexpectedProperties);
        }
        if dh.binary_properties.len() != 1 {
            return Err(SecurityError::WrongBinaryPropertyCount { count: dh.binary_properties.len() });
        }
        let name = CRYPTO_TOKEN_KEYMAT_NAME.to_owned();
        if dh.binary_properties[0].name != name {
            return Err(SecurityError::WrongBinaryPropertyCount { count: 1 });
        }
        let value = dh.binary_properties[0].value.clone();
        match KeyMaterial_AES_GCM_GMAC::try_from_bytes(value) {
            Err(e) => Err(e),
            Ok(key_material) => Ok(BuiltinCryptoToken { key_material }),
        }
    }

    /// Writes the generic token that carries the key material. This works
    /// for every key material that has a CDR encoding, so for every valid
    /// one.
    pub fn into_token(self) -> (r: Result<CryptoToken, SecurityError>)
        ensures
            match r {
                Ok(token) => self.key_material@.master_salt.len() <= MAX_OCTETS && token@
                    == spec_key_material_to_token(self.key_material@),
                Err(e) => self.key_material@.master_salt.len() > MAX_OCTETS && e
                    == SecurityError::SerializationError,
            },
            self.key_material.is_valid() ==> r is Ok,
    {
        let value = match self.key_material.try_into_bytes() {
            Err(e) => { return Err(e); },
            Ok(value) => value,
        };
        let property = BinaryProperty {
            name: CRYPTO_TOKEN_KEYMAT_NAME.to_owned(),
            value,
            propagate: true,
        };
        let mut binary_properties: Vec<BinaryProperty> = Vec::new();
        binary_properties.push(property);
        let token = CryptoToken {
            data_holder: DataHolder {
                class_id: CRYPTO_TOKEN_CLASS_ID.to_owned(),
                properties: Vec::new(),
                binary_properties,
            },
        };
        assert(token@.properties =~= Seq::empty());
        assert(token@.binary_properties =~= spec_key_material_to_token(
            self.key_material@,
        ).binary_properties);
        Ok(token)
    }
}

/// Reads the key material that a generic token carries.
pub fn token_to_key_material(token: &CryptoToken) -> (r: Result<
    KeyMaterial_AES_GCM_GMAC,
    SecurityError,
>)
    ensures
        match r {
            Ok(m) => spec_token_to_key_material(token@) == Ok::<KeyMaterialView, SecurityErrorView>(
                m@,
            ) && m.is_valid(),
            Err(e) => spec_token_to_key_material(token@) == Err::<
                KeyMaterialView,
                SecurityErrorView,
            >(e@),
        },
{
    match BuiltinCryptoToken::from_token(token) {
        Err(e) => Err(e),
        Ok(builtin) => Ok(builtin.key_material),
    }
}

/// Writes the generic token that carries a key material.
pub fn key_material_to_token(key_material: KeyMaterial_AES_GCM_GMAC) -> (r: Result<
    CryptoToken,
    SecurityError,
>)
    ensures
        match r {
            Ok(token) => key_material@.master_salt.len() <= MAX_OCTETS && token@
                == spec_key_material_to_token(key_material@),
            Err(e) => key_material@.master_salt.len() > MAX_OCTETS && e
                == SecurityError::SerializationError,
        },
        key_material.is_valid() ==> r is Ok,
{
    BuiltinCryptoToken { key_material }.into_token()
}

/// The values of a list of tokens.
pub open spec fn token_views(tokens: Seq<CryptoToken>) -> Seq<DataHolderView> {
    tokens.map_values(|t: CryptoToken| t@)
}

/// What reading a list of tokens gives: the key materials they carry, in
/// their order, or the error of the first token that is refused.
pub open spec fn spec_tokens_to_key_materials(tokens: Seq<DataHolderView>) -> Result<
    Seq<KeyMaterialView>,
    SecurityErrorView,
> {
    collect(tokens.map_values(|t: DataHolderView| spec_token_to_key_material(t)))
}

/// What reading a list of tokens as the key materials of one endpoint
/// gives: every token is read, and the key materials are then counted.
pub open spec fn spec_tokens_to_seq(tokens: Seq<DataHolderView>) -> Result<
    Seq<KeyMaterialView>,
    SecurityErrorView,
> {
    match spec_tokens_to_key_materials(tokens) {
        Err(e) => Err(e),
        Ok(list) => spec_from_wire_list(list),
    }
}

/// The tokens that carry a list of key materials, one each.
pub open spec fn spec_key_materials_to_tokens(list: Seq<KeyMaterialView>) -> Seq<DataHolderView> {
    list.map_values(|m: KeyMaterialView| spec_key_material_to_token(m))
}

impl KeyMaterial_AES_GCM_GMAC_seq {
    /// Reads the key materials of one endpoint from the tokens that carry
    /// them. Every token is read, in order, and the first that is refused
    /// decides the error; the key materials are then counted.
    pub fn from_tokens(tokens: Vec<CryptoToken>) -> (r: Result<
        KeyMaterial_AES_GCM_GMAC_seq,
        SecurityError,
    >)
        ensures
            match r {
                Ok(s) => spec_tokens_to_seq(token_views(tokens@)) == Ok::<
                    Seq<KeyMaterialView>,
                    SecurityErrorView,
                >(s@),
                Err(e) => spec_tokens_to_seq(token_views(tokens@)) == Err::<
                    Seq<KeyMaterialView>,
                    SecurityErrorView,
                >(e@),
            },
    {
        let ghost given = token_views(tokens@).map_values(
            |t: DataHolderView| spec_token_to_key_material(t),
        );
        let mut list: Vec<KeyMaterial_AES_GCM_GMAC> = Vec::new();
        let mut i: usize = 0;
        assert(views(list@) =~= Seq::empty());
        while i < tokens.len()
            invariant
                i <= tokens@.len(),
                given == token_views(tokens@).map_values(
                    |t: DataHolderView| spec_token_to_key_material(t),
                ),
                collect(given.subrange(0, i as int)) == Ok::<
                    Seq<KeyMaterialView>,
                    SecurityErrorView,
                >(views(list@)),
            decreases tokens@.len() - i,
        {
            let ghost before = given.subrange(0, i as int);
            let ghost now = given.subrange(0, i + 1);
            assert(now.drop_last() =~= before);
            match token_to_key_material(&tokens[i]) {
                Err(e) => {
                    proof {
                        lemma_collect_error_of_prefix(given, i + 1);
                    }
                    return Err(e);
                },
                Ok(m) => {
                    let ghost old_list = list@;
                    list.push(m);
                    assert(views(list@) =~= views(old_list).push(m@));
                },
            }
            i += 1;
        }
        assert(given.subrange(0, i as int) =~= given);
        KeyMaterial_AES_GCM_GMAC_seq::from_wire_list(list)
    }

    /// Writes the tokens that carry the key materials, one each. This works
    /// where every key material has a CDR encoding, so for valid ones.
    pub fn to_tokens(self) -> (r: Result<Vec<CryptoToken>, SecurityError>)
        ensures
            match r {
                Ok(tokens) => token_views(tokens@) == spec_key_materials_to_tokens(self@)
                    && forall|i: int|
                    0 <= i < self@.len() ==> (#[trigger] self@[i]).master_salt.len() <= MAX_OCTETS,
                Err(e) => e == SecurityError::SerializationError && exists|i: int|
                    0 <= i < self@.len() && (#[trigger] self@[i]).master_salt.len() > MAX_OCTETS,
            },
    {
        match self {
            KeyMaterial_AES_GCM_GMAC_seq::One(key_material) => {
                let token = match key_material_to_token(key_material) {
                    Err(e) => { return Err(e); },
                    Ok(token) => token,
                };
                let mut tokens: Vec<CryptoToken> = Vec::new();
                tokens.push(token);
                Ok(tokens)
            },
            KeyMaterial_AES_GCM_GMAC_seq::Two(key_material, payload_key_material) => {
                assert(self@[0] == key_material@);
                assert(self@[1] == payload_key_material@);
                let token = match key_material_to_token(key_material) {
                    Err(e) => { return Err(e); },
                    Ok(token) => token,
                };
                let payload_token = match key_material_to_token(payload_key_material) {
                    Err(e) => { return Err(e); },
                    Ok(token) => token,
                };
                let mut tokens: Vec<CryptoToken> = Vec::new();
                tokens.push(token);
                tokens.push(payload_token);
                Ok(tokens)
            },
        }
    }
}

/// Reading the tokens that carry a list of valid key materials gives the
/// list back.
pub proof fn lemma_key_materials_round_trip(list: Seq<KeyMaterialView>)
    requires
        forall|i: int| 0 <= i < list.len() ==> (#[trigger] list[i]).is_valid(),
    ensures
        spec_tokens_to_key_materials(spec_key_materials_to_tokens(list)) == Ok::<
            Seq<KeyMaterialView>,
            SecurityErrorView,
        >(list),
{
    let results = spec_key_materials_to_tokens(list).map_values(
        |t: DataHolderView| spec_token_to_key_material(t),
    );
    assert forall|i: int| 0 <= i < results.len() implies #[trigger] results[i] == Ok::<
        KeyMaterialView,
        SecurityErrorView,
    >(list[i]) by {
        lemma_token_round_trip(list[i]);
    }
    lemma_collect_all_ok(results, list);
}

/// Reading the tokens that carry the valid key materials of an endpoint
/// gives the key materials back.
pub proof fn lemma_tokens_round_trip(s: KeyMaterial_AES_GCM_GMAC_seq)
    requires
        forall|i: int| 0 <= i < s@.len() ==> (#[trigger] s@[i]).is_valid(),
    ensures
        spec_tokens_to_seq(spec_key_materials_to_tokens(s@)) == Ok::<
            Seq<KeyMaterialView>,
            SecurityErrorView,
        >(s@),
{
    lemma_key_materials_round_trip(s@);
    s.lemma_from_wire_list_of_to_wire_list();
}

} // verus!
