//! IC76 DLMS/COSEM server M-Bus port setup.

use vstd::prelude::*;
use crate::cosem::{
    logical_name_data, logical_name_value, logical_name_wire, opt_view, CosemObjectError, DataView,
    DlmsData, ObisCode,
};

verus! {

/// DLMS/COSEM server M-Bus port setup.
pub struct DlmsMBusPortSetup {
    logical_name: ObisCode,
    m_bus_port_reference: ObisCode,
    listen_port: u16,
    slave_devices: u16,
}

/// The attributes of a [`DlmsMBusPortSetup`].
pub struct DlmsMBusPortSetupView {
    pub logical_name: ObisCode,
    /// The M-Bus port; the clock object 0.0.1.0.0.255 until set.
    pub m_bus_port_reference: ObisCode,
    pub listen_port: u16,
    pub slave_devices: u16,
}

impl View for DlmsMBusPortSetup {
    type V = DlmsMBusPortSetupView;

    closed spec fn view(&self) -> DlmsMBusPortSetupView {
        DlmsMBusPortSetupView {
            logical_name: self.logical_name,
            m_bus_port_reference: self.m_bus_port_reference,
            listen_port: self.listen_port,
            slave_devices: self.slave_devices,
        }
    }
}

impl DlmsMBusPortSetupView {
    /// The value of an attribute, where the class exposes it.
    pub open spec fn attribute(self, attr: u8) -> Option<DataView> {
        match attr {
            1 => Some(logical_name_value(self.logical_name)),
            2 => Some(logical_name_value(self.m_bus_port_reference)),
            3 => Some(DataView::LongUnsigned(self.listen_port)),
            4 => Some(DataView::LongUnsigned(self.slave_devices)),
            _ => None,
        }
    }

    /// Writing attribute `attr` with the decoded value `d` (`None` where
    /// decoding failed): the outcome and the new attributes.
    pub open spec fn write(self, attr: u8, data: Seq<u8>, d: Option<DataView>) -> (Result<(), CosemObjectError>, DlmsMBusPortSetupView) {
        match attr {
            2 => if data.len() >= 8 {
                (Ok(()), DlmsMBusPortSetupView {
                    m_bus_port_reference: ObisCode { a: data[2], b: data[3], c: data[4], d: data[5], e: data[6], f: data[7] },
                    ..self
                })
            } else {
                (Err(CosemObjectError::InvalidData), self)
            },
            3 => match d {
                Some(DataView::LongUnsigned(v)) => (Ok(()), DlmsMBusPortSetupView { listen_port: v, ..self }),
                _ => (Err(CosemObjectError::InvalidData), self),
            },
            4 => match d {
                Some(DataView::LongUnsigned(v)) => (Ok(()), DlmsMBusPortSetupView { slave_devices: v, ..self }),
                _ => (Err(CosemObjectError::InvalidData), self),
            },
            _ => (Err(CosemObjectError::AttributeNotSupported(attr)), self),
        }
    }
}

impl DlmsMBusPortSetup {
    pub fn new(logical_name: ObisCode) -> (r: DlmsMBusPortSetup)
        ensures
            r@ == (DlmsMBusPortSetupView {
                logical_name: logical_name,
                m_bus_port_reference: ObisCode { a: 0, b: 0, c: 1, d: 0, e: 0, f: 255 },
                listen_port: 0,
                slave_devices: 0,
            }),
    {
        DlmsMBusPortSetup {
            logical_name: logical_name,
            m_bus_port_reference: ObisCode::new(0, 0, 1, 0, 0, 255),
            listen_port: 0,
            slave_devices: 0,
        }
    }

    pub fn m_bus_port_reference(&self) -> (r: ObisCode)
        ensures
            r == self@.m_bus_port_reference,
    {
        self.m_bus_port_reference
    }

    pub fn listen_port(&self) -> (r: u16)
        ensures
            r == self@.listen_port,
    {
        self.listen_port
    }

    pub fn slave_devices(&self) -> (r: u16)
        ensures
            r == self@.slave_devices,
    {
        self.slave_devices
    }

    pub fn set_m_bus_port_reference(&mut self, v: ObisCode)
        ensures
            final(self)@ == (DlmsMBusPortSetupView { m_bus_port_reference: v, ..old(self)@ }),
    {
        self.m_bus_port_reference = v;
    }

    pub fn set_listen_port(&mut self, v: u16)
        ensures
            final(self)@ == (DlmsMBusPortSetupView { listen_port: v, ..old(self)@ }),
    {
        self.listen_port = v;
    }

    pub fn set_slave_devices(&mut self, v: u16)
        ensures
            final(self)@ == (DlmsMBusPortSetupView { slave_devices: v, ..old(self)@ }),
    {
        self.slave_devices = v;
    }

    pub fn class_id(&self) -> (r: u16)
        ensures
            r == 76,
    {
        76
    }

    pub fn logical_name(&self) -> (r: ObisCode)
        ensures
            r == self@.logical_name,
    {
        self.logical_name
    }

    pub fn attribute_count(&self) -> (r: u8)
        ensures
            r == 4,
    {
        4
    }

    pub fn method_count(&self) -> (r: u8)
        ensures
            r == 0,
    {
        0
    }

    /// The value of attribute `attr`, for the A-XDR encoder.
    pub fn attribute_data(&self, attr: u8) -> (r: Option<DlmsData>)
        ensures
            opt_view(r) == self@.attribute(attr),
    {
        match attr {
            1 => Some(logical_name_data(&self.logical_name)),
            2 => Some(logical_name_data(&self.m_bus_port_reference)),
            3 => Some(DlmsData::LongUnsigned(self.listen_port)),
            4 => Some(DlmsData::LongUnsigned(self.slave_devices)),
            _ => None,
        }
    }

    /// Writes attribute `attr` from the value the A-XDR decoder produced
    /// (`None` where decoding failed).
    pub fn apply_attribute(&mut self, attr: u8, data: &[u8], decoded: Option<DlmsData>) -> (r: Result<(), CosemObjectError>)
        ensures
            (r, final(self)@) == old(self)@.write(attr, data@, opt_view(decoded)),
    {
        match attr {
            2 => {
                if data.len() >= 8 {
                    self.m_bus_port_reference = ObisCode::new(data[2], data[3], data[4], data[5], data[6], data[7]);
                    Ok(())
                } else {
                    Err(CosemObjectError::InvalidData)
                }
            },
            3 => {
                match decoded {
                    Some(DlmsData::LongUnsigned(v)) => {
                        self.listen_port = v;
                        Ok(())
                    },
                    _ => Err(CosemObjectError::InvalidData),
                }
            },
            4 => {
                match decoded {
                    Some(DlmsData::LongUnsigned(v)) => {
                        self.slave_devices = v;
                        Ok(())
                    },
                    _ => Err(CosemObjectError::InvalidData),
                }
            },
            _ => Err(CosemObjectError::AttributeNotSupported(attr)),
        }
    }
}

/// The port reference is written from its A-XDR octet-string form (tag,
/// length, six value groups) and read back as the same code.
pub proof fn lemma_port_reference_read_back(v: DlmsMBusPortSetupView, ln: ObisCode, d: Option<DataView>)
    ensures
        v.write(2, logical_name_wire(ln), d).0 is Ok,
        v.write(2, logical_name_wire(ln), d).1.m_bus_port_reference == ln,
        v.write(2, logical_name_wire(ln), d).1.attribute(2) == Some(logical_name_value(ln)),
{
}

/// A value accepted for attribute 3 or 4 is read back unchanged.
pub proof fn lemma_read_back(v: DlmsMBusPortSetupView, attr: u8, data: Seq<u8>, d: DataView)
    requires
        attr == 3 || attr == 4,
        v.write(attr, data, Some(d)).0 is Ok,
    ensures
        v.write(attr, data, Some(d)).1.attribute(attr) == Some(d),
{
}

} // verus!
