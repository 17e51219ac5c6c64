//! Identity (class 40): device identification strings.

use vstd::prelude::*;
use vstd::utf8::encode_utf8;
use crate::cosem::{logical_name_bytes, logical_name_wire, CosemObjectError, ObisCode};
use crate::text::{utf8_lossy, utf8_text};

verus! {

/// Identity: manufacturer, model, serial number, firmware and hardware
/// versions and device type.
pub struct Identity {
    logical_name: ObisCode,
    manufacturer: String,
    model: String,
    serial_number: String,
    firmware_version: String,
    hardware_version: String,
    device_type: String,
}

/// The attributes of an [`Identity`].
pub struct IdentityView {
    pub logical_name: ObisCode,
    pub manufacturer: Seq<char>,
    pub model: Seq<char>,
    pub serial_number: Seq<char>,
    pub firmware_version: Seq<char>,
    pub hardware_version: Seq<char>,
    pub device_type: Seq<char>,
}

impl View for Identity {
    type V = IdentityView;

    closed spec fn view(&self) -> IdentityView {
        IdentityView {
            logical_name: self.logical_name,
            manufacturer: self.manufacturer@,
            model: self.model@,
            serial_number: self.serial_number@,
            firmware_version: self.firmware_version@,
            hardware_version: self.hardware_version@,
            device_type: self.device_type@,
        }
    }
}

/// The wire form of a text attribute: octet-string tag, the low eight bits
/// of the UTF-8 byte count, the UTF-8 bytes.
pub open spec fn text_wire(s: Seq<char>) -> Seq<u8> {
    seq![0x09u8, (encode_utf8(s).len() as u8)] + encode_utf8(s)
}

/// The text that a write of `data` carries: the `data[1]` bytes after the
/// two header bytes, decoded leniently as UTF-8; `None` where the data is
/// too short for its length byte (or has no content byte at all).
pub open spec fn text_payload(data: Seq<u8>) -> Option<Seq<char>> {
    if data.len() > 2 && data.len() >= 2 + data[1] {
        Some(utf8_text(data.subrange(2, 2 + data[1])))
    } else {
        None
    }
}

impl IdentityView {
    /// The text held by attribute `attr` (2 to 7).
    pub open spec fn text(self, attr: u8) -> Seq<char> {
        match attr {
            2 => self.manufacturer,
            3 => self.model,
            4 => self.serial_number,
            5 => self.firmware_version,
            6 => self.hardware_version,
            _ => self.device_type,
        }
    }

    /// These attributes with the text of attribute `attr` (2 to 7) replaced.
    pub open spec fn with_text(self, attr: u8, s: Seq<char>) -> IdentityView {
        match attr {
            2 => IdentityView { manufacturer: s, ..self },
            3 => IdentityView { model: s, ..self },
            4 => IdentityView { serial_number: s, ..self },
            5 => IdentityView { firmware_version: s, ..self },
            6 => IdentityView { hardware_version: s, ..self },
            _ => IdentityView { device_type: s, ..self },
        }
    }

    /// The wire form of an attribute, where the class exposes it.
    pub open spec fn attribute_wire(self, attr: u8) -> Option<Seq<u8>> {
        if attr == 1 {
            Some(logical_name_wire(self.logical_name))
        } else if 2 <= attr <= 7 {
            Some(text_wire(self.text(attr)))
        } else {
            None
        }
    }

    /// Writing attribute `attr` from its wire form: the outcome and the new
    /// attributes.  Data too short for its length byte is accepted and
    /// ignored.
    pub open spec fn write(self, attr: u8, data: Seq<u8>) -> (Result<(), CosemObjectError>, IdentityView) {
        if 2 <= attr <= 7 {
            match text_payload(data) {
                Some(s) => (Ok(()), self.with_text(attr, s)),
                None => (Ok(()), self),
            }
        } else {
            (Err(CosemObjectError::AttributeNotSupported(attr)), self)
        }
    }
}

fn text_bytes(s: &String) -> (r: Vec<u8>)
    ensures
        r@ == text_wire(s@),
{
    let b = s.as_str().as_bytes();
    let mut r: Vec<u8> = vec![0x09u8, b.len() as u8];
    let mut i: usize = 0;
    while i < b.len()
        invariant
            i <= b@.len(),
            b@ == encode_utf8(s@),
            r@ == seq![0x09u8, (b@.len() as u8)] + b@.take(i as int),
        decreases b@.len() - i,
    {
        r.push(b[i]);
        i = i + 1;
        assert(r@ =~= seq![0x09u8, (b@.len() as u8)] + b@.take(i as int));
    }
    assert(b@.take(i as int) =~= b@);
    r
}

impl Identity {
    pub fn new(logical_name: ObisCode) -> (r: Identity)
        ensures
            r@ == (IdentityView {
                logical_name,
                manufacturer: Seq::empty(),
                model: Seq::empty(),
                serial_number: Seq::empty(),
                firmware_version: Seq::empty(),
                hardware_version: Seq::empty(),
                device_type: Seq::empty(),
            }),
    {
        Identity {
            logical_name,
            manufacturer: String::new(),
            model: String::new(),
            serial_number: String::new(),
            firmware_version: String::new(),
            hardware_version: String::new(),
            device_type: String::new(),
        }
    }

    pub fn manufacturer(&self) -> (r: &str)
        ensures
            r@ == self@.manufacturer,
    {
        self.manufacturer.as_str()
    }

    pub fn set_manufacturer(&mut self, manufacturer: String)
        ensures
            final(self)@ == (IdentityView { manufacturer: manufacturer@, ..old(self)@ }),
    {
        self.manufacturer = manufacturer;
    }

    pub fn model(&self) -> (r: &str)
        ensures
            r@ == self@.model,
    {
        self.model.as_str()
    }

    pub fn set_model(&mut self, model: String)
        ensures
            final(self)@ == (IdentityView { model: model@, ..old(self)@ }),
    {
        self.model = model;
    }

    pub fn serial_number(&self) -> (r: &str)
        ensures
            r@ == self@.serial_number,
    {
        self.serial_number.as_str()
    }

    pub fn set_serial_number(&mut self, serial_number: String)
        ensures
            final(self)@ == (IdentityView { serial_number: serial_number@, ..old(self)@ }),
    {
        self.serial_number = serial_number;
    }

    pub fn firmware_version(&self) -> (r: &str)
        ensures
            r@ == self@.firmware_version,
    {
        self.firmware_version.as_str()
    }

    pub fn set_firmware_version(&mut self, version: String)
        ensures
            final(self)@ == (IdentityView { firmware_version: version@, ..old(self)@ }),
    {
        self.firmware_version = version;
    }

    pub fn hardware_version(&self) -> (r: &str)
        ensures
            r@ == self@.hardware_version,
    {
        self.hardware_version.as_str()
    }

    pub fn set_hardware_version(&mut self, version: String)
        ensures
            final(self)@ == (IdentityView { hardware_version: version@, ..old(self)@ }),
    {
        self.hardware_version = version;
    }

    pub fn device_type(&self) -> (r: &str)
        ensures
            r@ == self@.device_type,
    {
        self.device_type.as_str()
    }

    pub fn set_device_type(&mut self, device_type: String)
        ensures
            final(self)@ == (IdentityView { device_type: device_type@, ..old(self)@ }),
    {
        self.device_type = device_type;
    }

    pub fn class_id(&self) -> (r: u16)
        ensures
            r == 40,
    {
        40
    }

    pub fn logical_name(&self) -> (r: ObisCode)
        ensures
            r == self@.logical_name,
    {
        self.logical_name
    }

    pub fn attribute_count(&self) -> (r: u8)
        ensures
            r == 7,
    {
        7
    }

    pub fn method_count(&self) -> (r: u8)
        ensures
            r == 0,
    {
        0
    }

    /// The A-XDR wire form of attribute `attr`.
    pub fn attribute_to_bytes(&self, attr: u8) -> (r: Option<Vec<u8>>)
        ensures
            match r {
                Some(b) => self@.attribute_wire(attr) == Some(b@),
                None => self@.attribute_wire(attr) is None,
            },
    {
        match attr {
            1 => Some(logical_name_bytes(&self.logical_name)),
            2 => Some(text_bytes(&self.manufacturer)),
            3 => Some(text_bytes(&self.model)),
            4 => Some(text_bytes(&self.serial_number)),
            5 => Some(text_bytes(&self.firmware_version)),
            6 => Some(text_bytes(&self.hardware_version)),
            7 => Some(text_bytes(&self.device_type)),
            _ => None,
        }
    }

    /// Writes attribute `attr` from its wire form.
    pub fn attribute_from_bytes(&mut self, attr: u8, data: &[u8]) -> (r: Result<(), CosemObjectError>)
        ensures
            (r, final(self)@) == old(self)@.write(attr, data@),
    {
        if 2 <= attr && attr <= 7 {
            if data.len() > 2 {
                let len = data[1] as usize;
                if data.len() >= 2 + len {
                    let value = utf8_lossy(vstd::slice::slice_subrange(data, 2, 2 + len));
                    match attr {
                        2 => self.manufacturer = value,
                        3 => self.model = value,
                        4 => self.serial_number = value,
                        5 => self.firmware_version = value,
                        6 => self.hardware_version = value,
                        _ => self.device_type = value,
                    }
                }
            }
            Ok(())
        } else {
            Err(CosemObjectError::AttributeNotSupported(attr))
        }
    }
}

/// Writing a text attribute from its own wire form keeps the attributes
/// as they are, for texts of fewer than 256 UTF-8 bytes.
pub proof fn lemma_text_round_trip(v: IdentityView, attr: u8)
    requires
        2 <= attr <= 7,
        encode_utf8(v.text(attr)).len() < 256,
    ensures
        v.attribute_wire(attr) matches Some(b) && v.write(attr, b) == (Ok::<(), CosemObjectError>(()), v),
{
    let s = v.text(attr);
    let e = encode_utf8(s);
    let b = text_wire(s);
    assert(b[1] == e.len());
    assert(b.subrange(2, 2 + b[1]) =~= e);
    vstd::utf8::encode_utf8_valid_utf8(s);
    vstd::utf8::encode_utf8_decode_utf8(s);
    if e.len() > 0 {
        assert(text_payload(b) == Some(utf8_text(e)));
        assert(v.with_text(attr, s) == v);
    }
}

} // verus!
