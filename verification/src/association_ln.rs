//! IC9 Association LN: a client-server association using logical names.

use vstd::prelude::*;
use crate::cosem::{logical_name_bytes, logical_name_wire, CosemObjectError, ObisCode};

verus! {

/// Association LN: the visible objects, the associated partners, the
/// context and mechanism names, the secrets and the authentication status.
pub struct AssociationLN {
    logical_name: ObisCode,
    object_list: Vec<(u16, ObisCode)>,
    associated_partners: (u16, u16),
    application_context_name: String,
    authentication_mechanism_name: String,
    lls_secret: Vec<u8>,
    hls_secret: Vec<u8>,
    authentication_status: bool,
}

/// The attributes of an [`AssociationLN`].
pub struct AssociationLNView {
    pub logical_name: ObisCode,
    /// (class id, logical name) of each visible object, in the order added.
    pub object_list: Seq<(u16, ObisCode)>,
    /// (client SAP, server SAP).
    pub associated_partners: (u16, u16),
    pub application_context_name: Seq<char>,
    pub authentication_mechanism_name: Seq<char>,
    pub lls_secret: Seq<u8>,
    pub hls_secret: Seq<u8>,
    pub authentication_status: bool,
}

impl View for AssociationLN {
    type V = AssociationLNView;

    closed spec fn view(&self) -> AssociationLNView {
        AssociationLNView {
            logical_name: self.logical_name,
            object_list: self.object_list@,
            associated_partners: self.associated_partners,
            application_context_name: self.application_context_name@,
            authentication_mechanism_name: self.authentication_mechanism_name@,
            lls_secret: self.lls_secret@,
            hls_secret: self.hls_secret@,
            authentication_status: self.authentication_status,
        }
    }
}

/// A 16-bit value as two big-endian bytes.
pub open spec fn u16_be(v: u16) -> Seq<u8> {
    seq![(v / 256) as u8, (v % 256) as u8]
}

/// The wire form of one object-list entry: a two-element structure holding
/// the class id as two big-endian bytes and the logical name as an
/// octet-string of six bytes.
pub open spec fn object_entry_wire(class_id: u16, ln: ObisCode) -> Seq<u8> {
    seq![0x02u8, 0x02u8, (class_id / 256) as u8, (class_id % 256) as u8, 0x09u8, 0x06u8] + ln@
}

/// The wire form of the object-list entries, one after the other.
pub open spec fn object_entries_wire(s: Seq<(u16, ObisCode)>) -> Seq<u8>
    decreases s.len(),
{
    if s.len() == 0 {
        Seq::empty()
    } else {
        object_entries_wire(s.drop_last()) + object_entry_wire(s.last().0, s.last().1)
    }
}

impl AssociationLNView {
    /// The wire form of an attribute, where the class exposes it.  The
    /// object list is an array whose count byte keeps the low eight bits of
    /// the number of objects; the associated partners are a two-element
    /// structure holding the client SAP and the server SAP, each as two
    /// big-endian bytes.
    pub open spec fn attribute_wire(self, attr: u8) -> Option<Seq<u8>> {
        match attr {
            1 => Some(logical_name_wire(self.logical_name)),
            2 => Some(seq![0x01u8, (self.object_list.len() as u8)] + object_entries_wire(self.object_list)),
            3 => Some(seq![0x02u8, 0x02u8] + u16_be(self.associated_partners.0) + u16_be(self.associated_partners.1)),
            _ => None,
        }
    }

    /// Writing attribute `attr`: attributes 2 to 9 accept any data and
    /// keep it nowhere; the others are refused.
    pub open spec fn write(self, attr: u8) -> (Result<(), CosemObjectError>, AssociationLNView) {
        if 2 <= attr <= 9 {
            (Ok(()), self)
        } else {
            (Err(CosemObjectError::AttributeNotSupported(attr)), self)
        }
    }
}

impl AssociationLN {
    /// A new association between client SAP 16 and server SAP 1.
    pub fn new(logical_name: ObisCode) -> (r: AssociationLN)
        ensures
            r@ == (AssociationLNView {
                logical_name,
                object_list: Seq::empty(),
                associated_partners: (16, 1),
                application_context_name: Seq::empty(),
                authentication_mechanism_name: Seq::empty(),
                lls_secret: Seq::empty(),
                hls_secret: Seq::empty(),
                authentication_status: false,
            }),
    {
        AssociationLN {
            logical_name,
            object_list: Vec::new(),
            associated_partners: (16, 1),
            application_context_name: String::new(),
            authentication_mechanism_name: String::new(),
            lls_secret: Vec::new(),
            hls_secret: Vec::new(),
            authentication_status: false,
        }
    }

    pub fn object_list(&self) -> (r: &[(u16, ObisCode)])
        ensures
            r@ == self@.object_list,
    {
        self.object_list.as_slice()
    }

    pub fn add_object(&mut self, class_id: u16, obis: ObisCode)
        ensures
            final(self)@ == (AssociationLNView { object_list: old(self)@.object_list.push((class_id, obis)), ..old(self)@ }),
    {
        self.object_list.push((class_id, obis));
    }

    pub fn associated_partners(&self) -> (r: (u16, u16))
        ensures
            r == self@.associated_partners,
    {
        self.associated_partners
    }

    pub fn set_associated_partners(&mut self, client_sap: u16, server_sap: u16)
        ensures
            final(self)@ == (AssociationLNView { associated_partners: (client_sap, server_sap), ..old(self)@ }),
    {
        self.associated_partners = (client_sap, server_sap);
    }

    pub fn application_context_name(&self) -> (r: &str)
        ensures
            r@ == self@.application_context_name,
    {
        self.application_context_name.as_str()
    }

    pub fn set_application_context_name(&mut self, name: String)
        ensures
            final(self)@ == (AssociationLNView { application_context_name: name@, ..old(self)@ }),
    {
        self.application_context_name = name;
    }

    pub fn is_authenticated(&self) -> (r: bool)
        ensures
            r == self@.authentication_status,
    {
        self.authentication_status
    }

    pub fn set_authenticated(&mut self, status: bool)
        ensures
            final(self)@ == (AssociationLNView { authentication_status: status, ..old(self)@ }),
    {
        self.authentication_status = status;
    }

    pub fn class_id(&self) -> (r: u16)
        ensures
            r == 9,
    {
        9
    }

    pub fn logical_name(&self) -> (r: ObisCode)
        ensures
            r == self@.logical_name,
    {
        self.logical_name
    }

    pub fn attribute_count(&self) -> (r: u8)
        ensures
            r == 9,
    {
        9
    }

    pub fn method_count(&self) -> (r: u8)
        ensures
            r == 5,
    {
        5
    }

    /// The A-XDR wire form of attribute `attr`.
    pub fn attribute_to_bytes(&self, attr: u8) -> (r: Option<Vec<u8>>)
        ensures
            match r {
                Some(b) => self@.attribute_wire(attr) == Some(b@),
                None => self@.attribute_wire(attr) is None,
            },
    {
        match attr {
            1 => Some(logical_name_bytes(&self.logical_name)),
            2 => {
                let mut bytes: Vec<u8> = vec![0x01u8, self.object_list.len() as u8];
                let mut i: usize = 0;
                assert(bytes@ =~= seq![0x01u8, (self@.object_list.len() as u8)] + object_entries_wire(
                    self@.object_list.take(0),
                ));
                while i < self.object_list.len()
                    invariant
                        i <= self.object_list@.len(),
                        bytes@ == seq![0x01u8, (self@.object_list.len() as u8)] + object_entries_wire(
                            self@.object_list.take(i as int),
                        ),
                    decreases self.object_list@.len() - i,
                {
                    let ghost s = self@.object_list;
                    let (class_id, obis) = self.object_list[i];
                    bytes.push(0x02u8);
                    bytes.push(0x02u8);
                    bytes.push((class_id / 256) as u8);
                    bytes.push((class_id % 256) as u8);
                    bytes.push(0x09u8);
                    bytes.push(0x06u8);
                    bytes.push(obis.a);
                    bytes.push(obis.b);
                    bytes.push(obis.c);
                    bytes.push(obis.d);
                    bytes.push(obis.e);
                    bytes.push(obis.f);
                    assert(s.take(i + 1).drop_last() =~= s.take(i as int));
                    assert(s.take(i + 1).last() == s[i as int]);
                    i = i + 1;
                    assert(bytes@ =~= seq![0x01u8, (self@.object_list.len() as u8)] + object_entries_wire(
                        s.take(i as int),
                    ));
                }
                assert(self@.object_list.take(i as int) =~= self@.object_list);
                Some(bytes)
            },
            3 => {
                let (client, server) = self.associated_partners;
                let bytes = vec![
                    0x02u8,
                    0x02u8,
                    (client / 256) as u8,
                    (client % 256) as u8,
                    (server / 256) as u8,
                    (server % 256) as u8,
                ];
                assert(bytes@ =~= seq![0x02u8, 0x02u8] + u16_be(client) + u16_be(server));
                Some(bytes)
            },
            _ => None,
        }
    }

    /// Writes attribute `attr`: attributes 2 to 9 accept any data and keep
    /// it nowhere.
    pub fn attribute_from_bytes(&mut self, attr: u8, data: &[u8]) -> (r: Result<(), CosemObjectError>)
        ensures
            (r, final(self)@) == old(self)@.write(attr),
    {
        if 2 <= attr && attr <= 9 {
            Ok(())
        } else {
            Err(CosemObjectError::AttributeNotSupported(attr))
        }
    }
}

} // verus!
