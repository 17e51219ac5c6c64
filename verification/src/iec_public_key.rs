//! IC90 IEC public key: a public key, its identifier, algorithm and usage.

use vstd::prelude::*;
use crate::cosem::{
    copy_bytes, logical_name_data, logical_name_value, opt_view, reply_view, CosemObjectError, DataView, DlmsData,
    ObisCode,
};

verus! {

/// Key algorithm.
#[derive(Debug, Clone, Copy, PartialEq, Eq, Structural)]
pub enum KeyAlgorithm {
    /// RSA.
    Rsa,
    /// Elliptic-curve cryptography.
    Ecc,
    /// AES.
    Aes,
    /// Any other algorithm (code 255).
    Other,
}

/// The algorithm for a stored code: 0 to 2 name their algorithms, anything
/// else is other.
pub open spec fn algorithm_of(value: u8) -> KeyAlgorithm {
    match value {
        0 => KeyAlgorithm::Rsa,
        1 => KeyAlgorithm::Ecc,
        2 => KeyAlgorithm::Aes,
        _ => KeyAlgorithm::Other,
    }
}

/// The code of an algorithm.
pub open spec fn algorithm_code(a: KeyAlgorithm) -> u8 {
    match a {
        KeyAlgorithm::Rsa => 0,
        KeyAlgorithm::Ecc => 1,
        KeyAlgorithm::Aes => 2,
        KeyAlgorithm::Other => 255,
    }
}

impl KeyAlgorithm {
    pub fn from_u8(value: u8) -> (r: KeyAlgorithm)
        ensures
            r == algorithm_of(value),
    {
        match value {
            0 => KeyAlgorithm::Rsa,
            1 => KeyAlgorithm::Ecc,
            2 => KeyAlgorithm::Aes,
            _ => KeyAlgorithm::Other,
        }
    }

    pub fn to_u8(self) -> (r: u8)
        ensures
            r == algorithm_code(self),
    {
        match self {
            KeyAlgorithm::Rsa => 0,
            KeyAlgorithm::Ecc => 1,
            KeyAlgorithm::Aes => 2,
            KeyAlgorithm::Other => 255,
        }
    }
}

/// What a key is used for.
#[derive(Debug, Clone, Copy, PartialEq, Eq, Structural)]
pub enum KeyUsage {
    /// Encryption only.
    Encryption,
    /// Signature only.
    Signature,
    /// Both encryption and signature.
    Both,
}

/// The usage for a stored code: 0 and 1 name their usages, anything else
/// is both.
pub open spec fn usage_of(value: u8) -> KeyUsage {
    match value {
        0 => KeyUsage::Encryption,
        1 => KeyUsage::Signature,
        _ => KeyUsage::Both,
    }
}

/// The code of a usage.
pub open spec fn usage_code(u: KeyUsage) -> u8 {
    match u {
        KeyUsage::Encryption => 0,
        KeyUsage::Signature => 1,
        KeyUsage::Both => 2,
    }
}

impl KeyUsage {
    pub fn from_u8(value: u8) -> (r: KeyUsage)
        ensures
            r == usage_of(value),
    {
        match value {
            0 => KeyUsage::Encryption,
            1 => KeyUsage::Signature,
            _ => KeyUsage::Both,
        }
    }

    pub fn to_u8(self) -> (r: u8)
        ensures
            r == usage_code(self),
    {
        match self {
            KeyUsage::Encryption => 0,
            KeyUsage::Signature => 1,
            KeyUsage::Both => 2,
        }
    }
}

/// Algorithms and usages survive their codes, and the codes that name one
/// survive it.
pub proof fn lemma_code_round_trips(a: KeyAlgorithm, u: KeyUsage, v: u8)
    ensures
        algorithm_of(algorithm_code(a)) == a,
        (v <= 2 || v == 255) ==> algorithm_code(algorithm_of(v)) == v,
        usage_of(usage_code(u)) == u,
        v <= 2 ==> usage_code(usage_of(v)) == v,
{
}

/// IEC public key: key bytes, key identifier, algorithm and usage codes.
pub struct IecPublicKey {
    logical_name: ObisCode,
    public_key: Vec<u8>,
    key_id: String,
    algorithm: u8,
    key_usage: u8,
}

/// The attributes of an [`IecPublicKey`].
pub struct IecPublicKeyView {
    pub logical_name: ObisCode,
    pub public_key: Seq<u8>,
    pub key_id: Seq<char>,
    pub algorithm: u8,
    pub key_usage: u8,
}

impl View for IecPublicKey {
    type V = IecPublicKeyView;

    closed spec fn view(&self) -> IecPublicKeyView {
        IecPublicKeyView {
            logical_name: self.logical_name,
            public_key: self.public_key@,
            key_id: self.key_id@,
            algorithm: self.algorithm,
            key_usage: self.key_usage,
        }
    }
}

impl IecPublicKeyView {
    /// A key is usable when both the key and its identifier are non-empty.
    pub open spec fn valid(self) -> bool {
        self.public_key.len() > 0 && self.key_id.len() > 0
    }

    /// The value of an attribute, where the class exposes it.
    pub open spec fn attribute(self, attr: u8) -> Option<DataView> {
        match attr {
            1 => Some(logical_name_value(self.logical_name)),
            2 => Some(DataView::OctetString(self.public_key)),
            3 => Some(DataView::VisibleString(self.key_id)),
            4 => Some(DataView::Enum(self.algorithm)),
            5 => Some(DataView::Enum(self.key_usage)),
            _ => None,
        }
    }

    /// Writing attribute `attr` with the decoded value `d` (`None` where
    /// decoding failed): the outcome and the new attributes.
    pub open spec fn write(self, attr: u8, d: Option<DataView>) -> (Result<(), CosemObjectError>, IecPublicKeyView) {
        match attr {
            2 => match d {
                Some(DataView::OctetString(v)) => (Ok(()), IecPublicKeyView { public_key: v, ..self }),
                _ => (Err(CosemObjectError::InvalidData), self),
            },
            3 => match d {
                Some(DataView::VisibleString(v)) => (Ok(()), IecPublicKeyView { key_id: v, ..self }),
                _ => (Err(CosemObjectError::InvalidData), self),
            },
            4 => match d {
                Some(DataView::Enum(v)) => (Ok(()), IecPublicKeyView { algorithm: v, ..self }),
                _ => (Err(CosemObjectError::InvalidData), self),
            },
            5 => match d {
                Some(DataView::Enum(v)) => (Ok(()), IecPublicKeyView { key_usage: v, ..self }),
                _ => (Err(CosemObjectError::InvalidData), self),
            },
            _ => (Err(CosemObjectError::AttributeNotSupported(attr)), self),
        }
    }
}

impl IecPublicKey {
    /// No key and no identifier, RSA, for both usages.
    pub fn new(logical_name: ObisCode) -> (r: IecPublicKey)
        ensures
            r@ == (IecPublicKeyView {
                logical_name,
                public_key: Seq::empty(),
                key_id: Seq::empty(),
                algorithm: 0,
                key_usage: 2,
            }),
    {
        IecPublicKey {
            logical_name,
            public_key: Vec::new(),
            key_id: String::new(),
            algorithm: KeyAlgorithm::Rsa.to_u8(),
            key_usage: KeyUsage::Both.to_u8(),
        }
    }

    /// The given key and identifier, RSA, for both usages.
    pub fn with_key(logical_name: ObisCode, public_key: Vec<u8>, key_id: String) -> (r: IecPublicKey)
        ensures
            r@ == (IecPublicKeyView {
                logical_name,
                public_key: public_key@,
                key_id: key_id@,
                algorithm: 0,
                key_usage: 2,
            }),
    {
        IecPublicKey {
            logical_name,
            public_key,
            key_id,
            algorithm: KeyAlgorithm::Rsa.to_u8(),
            key_usage: KeyUsage::Both.to_u8(),
        }
    }

    pub fn public_key(&self) -> (r: &[u8])
        ensures
            r@ == self@.public_key,
    {
        self.public_key.as_slice()
    }

    pub fn set_public_key(&mut self, key: Vec<u8>)
        ensures
            final(self)@ == (IecPublicKeyView { public_key: key@, ..old(self)@ }),
    {
        self.public_key = key;
    }

    pub fn key_id(&self) -> (r: &str)
        ensures
            r@ == self@.key_id,
    {
        self.key_id.as_str()
    }

    pub fn set_key_id(&mut self, id: String)
        ensures
            final(self)@ == (IecPublicKeyView { key_id: id@, ..old(self)@ }),
    {
        self.key_id = id;
    }

    pub fn algorithm(&self) -> (r: KeyAlgorithm)
        ensures
            r == algorithm_of(self@.algorithm),
    {
        KeyAlgorithm::from_u8(self.algorithm)
    }

    pub fn set_algorithm(&mut self, algorithm: KeyAlgorithm)
        ensures
            final(self)@ == (IecPublicKeyView { algorithm: algorithm_code(algorithm), ..old(self)@ }),
    {
        self.algorithm = algorithm.to_u8();
    }

    pub fn key_usage(&self) -> (r: KeyUsage)
        ensures
            r == usage_of(self@.key_usage),
    {
        KeyUsage::from_u8(self.key_usage)
    }

    pub fn set_key_usage(&mut self, usage: KeyUsage)
        ensures
            final(self)@ == (IecPublicKeyView { key_usage: usage_code(usage), ..old(self)@ }),
    {
        self.key_usage = usage.to_u8();
    }

    /// Whether both the key and its identifier are non-empty.
    pub fn is_valid(&self) -> (r: bool)
        ensures
            r == self@.valid(),
    {
        self.public_key.len() > 0 && !self.key_id.as_str().is_empty()
    }

    pub fn class_id(&self) -> (r: u16)
        ensures
            r == 90,
    {
        90
    }

    pub fn logical_name(&self) -> (r: ObisCode)
        ensures
            r == self@.logical_name,
    {
        self.logical_name
    }

    pub fn attribute_count(&self) -> (r: u8)
        ensures
            r == 5,
    {
        5
    }

    pub fn method_count(&self) -> (r: u8)
        ensures
            r == 1,
    {
        1
    }

    /// The value of attribute `attr`, for the A-XDR encoder.
    pub fn attribute_data(&self, attr: u8) -> (r: Option<DlmsData>)
        ensures
            opt_view(r) == self@.attribute(attr),
    {
        match attr {
            1 => Some(logical_name_data(&self.logical_name)),
            2 => Some(DlmsData::OctetString(copy_bytes(self.public_key.as_slice()))),
            3 => Some(DlmsData::VisibleString(self.key_id.clone())),
            4 => Some(DlmsData::Enum(self.algorithm)),
            5 => Some(DlmsData::Enum(self.key_usage)),
            _ => None,
        }
    }

    /// Writes attribute `attr` from the value the A-XDR decoder produced
    /// (`None` where decoding failed).
    pub fn apply_attribute(&mut self, attr: u8, decoded: Option<DlmsData>) -> (r: Result<(), CosemObjectError>)
        ensures
            (r, final(self)@) == old(self)@.write(attr, opt_view(decoded)),
    {
        match attr {
            2 => match decoded {
                Some(DlmsData::OctetString(v)) => {
                    self.public_key = v;
                    Ok(())
                },
                _ => Err(CosemObjectError::InvalidData),
            },
            3 => match decoded {
                Some(DlmsData::VisibleString(v)) => {
                    self.key_id = v;
                    Ok(())
                },
                _ => Err(CosemObjectError::InvalidData),
            },
            4 => match decoded {
                Some(DlmsData::Enum(v)) => {
                    self.algorithm = v;
                    Ok(())
                },
                _ => Err(CosemObjectError::InvalidData),
            },
            5 => match decoded {
                Some(DlmsData::Enum(v)) => {
                    self.key_usage = v;
                    Ok(())
                },
                _ => Err(CosemObjectError::InvalidData),
            },
            _ => Err(CosemObjectError::AttributeNotSupported(attr)),
        }
    }

    /// Invokes method `method_id`: validating the key (1) replies `00 00`
    /// for a usable key and is refused otherwise.
    pub fn execute_action(&mut self, method_id: u8, data: &[u8]) -> (r: Result<Vec<u8>, CosemObjectError>)
        ensures
            final(self)@ == old(self)@,
            reply_view(r) == if method_id == 1 {
                if old(self)@.valid() {
                    Ok::<Seq<u8>, CosemObjectError>(seq![0u8, 0u8])
                } else {
                    Err(CosemObjectError::InvalidData)
                }
            } else {
                Err(CosemObjectError::MethodNotSupported(method_id))
            },
    {
        if method_id == 1 {
            if self.is_valid() {
                let reply = vec![0x00u8, 0x00u8];
                assert(reply@ =~= seq![0u8, 0u8]);
                Ok(reply)
            } else {
                Err(CosemObjectError::InvalidData)
            }
        } else {
            Err(CosemObjectError::MethodNotSupported(method_id))
        }
    }
}

/// A value accepted for a writable attribute is read back unchanged.
pub proof fn lemma_read_back(v: IecPublicKeyView, attr: u8, d: DataView)
    requires
        v.write(attr, Some(d)).0 is Ok,
    ensures
        v.write(attr, Some(d)).1.attribute(attr) == Some(d),
{
}

/// A key is usable exactly when it has key bytes and an identifier: an
/// empty key or an empty identifier is never valid, and a key with both is
/// valid.
pub proof fn lemma_validity(v: IecPublicKeyView)
    ensures
        v.public_key.len() == 0 ==> !v.valid(),
        v.key_id.len() == 0 ==> !v.valid(),
        v.public_key.len() > 0 && v.key_id.len() > 0 ==> v.valid(),
{
}

} // verus!
