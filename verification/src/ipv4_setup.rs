//! IC42 IPv4 setup: address, mask, gateway, name servers and DHCP flag.

use vstd::prelude::*;
use crate::cosem::{logical_name_bytes, logical_name_wire, CosemObjectError, ObisCode};
use crate::text::{dotted_decimal, dotted_text};

verus! {

/// IPv4 setup.
pub struct Ipv4Setup {
    logical_name: ObisCode,
    ip_address: [u8; 4],
    subnet_mask: [u8; 4],
    gateway: [u8; 4],
    primary_dns: [u8; 4],
    secondary_dns: [u8; 4],
    dhcp_enabled: bool,
}

/// The attributes of an [`Ipv4Setup`].
pub struct Ipv4SetupView {
    pub logical_name: ObisCode,
    pub ip_address: Seq<u8>,
    pub subnet_mask: Seq<u8>,
    pub gateway: Seq<u8>,
    pub primary_dns: Seq<u8>,
    pub secondary_dns: Seq<u8>,
    pub dhcp_enabled: bool,
}

impl View for Ipv4Setup {
    type V = Ipv4SetupView;

    closed spec fn view(&self) -> Ipv4SetupView {
        Ipv4SetupView {
            logical_name: self.logical_name,
            ip_address: self.ip_address@,
            subnet_mask: self.subnet_mask@,
            gateway: self.gateway@,
            primary_dns: self.primary_dns@,
            secondary_dns: self.secondary_dns@,
            dhcp_enabled: self.dhcp_enabled,
        }
    }
}

impl Ipv4SetupView {
    /// The address held by attribute `attr` (2 to 6).
    pub open spec fn address(self, attr: u8) -> Seq<u8> {
        match attr {
            2 => self.ip_address,
            3 => self.subnet_mask,
            4 => self.gateway,
            5 => self.primary_dns,
            _ => self.secondary_dns,
        }
    }

    /// These attributes with the address of attribute `attr` (2 to 6) replaced.
    pub open spec fn with_address(self, attr: u8, a: Seq<u8>) -> Ipv4SetupView {
        match attr {
            2 => Ipv4SetupView { ip_address: a, ..self },
            3 => Ipv4SetupView { subnet_mask: a, ..self },
            4 => Ipv4SetupView { gateway: a, ..self },
            5 => Ipv4SetupView { primary_dns: a, ..self },
            _ => Ipv4SetupView { secondary_dns: a, ..self },
        }
    }

    /// The wire form of an attribute, where the class exposes it: addresses
    /// as four-byte octet-strings, the DHCP flag as tag 0x0F and 1 or 0.
    pub open spec fn attribute_wire(self, attr: u8) -> Option<Seq<u8>> {
        if attr == 1 {
            Some(logical_name_wire(self.logical_name))
        } else if 2 <= attr <= 6 {
            Some(seq![0x09u8, 0x04u8] + self.address(attr))
        } else if attr == 7 {
            Some(seq![0x0Fu8, if self.dhcp_enabled { 1u8 } else { 0u8 }])
        } else {
            None
        }
    }

    /// Writing attribute `attr` from its wire form: an address is taken from
    /// bytes 2 to 5 and the DHCP flag from byte 1 (non-zero is on); data too
    /// short for that is accepted and ignored.
    pub open spec fn write(self, attr: u8, data: Seq<u8>) -> (Result<(), CosemObjectError>, Ipv4SetupView) {
        if 2 <= attr <= 6 {
            if data.len() >= 6 {
                (Ok(()), self.with_address(attr, data.subrange(2, 6)))
            } else {
                (Ok(()), self)
            }
        } else if attr == 7 {
            if data.len() >= 2 {
                (Ok(()), Ipv4SetupView { dhcp_enabled: data[1] != 0, ..self })
            } else {
                (Ok(()), self)
            }
        } else {
            (Err(CosemObjectError::AttributeNotSupported(attr)), self)
        }
    }
}

fn address_bytes(a: &[u8; 4]) -> (r: Vec<u8>)
    ensures
        r@ == seq![0x09u8, 0x04u8] + a@,
{
    let r = vec![0x09u8, 0x04u8, a[0], a[1], a[2], a[3]];
    assert(r@ =~= seq![0x09u8, 0x04u8] + a@);
    r
}

fn address_from(data: &[u8]) -> (r: [u8; 4])
    requires
        data@.len() >= 6,
    ensures
        r@ == data@.subrange(2, 6),
{
    let r = [data[2], data[3], data[4], data[5]];
    assert(r@ =~= data@.subrange(2, 6));
    r
}

impl Ipv4Setup {
    /// A new setup with all addresses zero but the mask 255.255.255.0, and DHCP off.
    pub fn new(logical_name: ObisCode) -> (r: Ipv4Setup)
        ensures
            r@ == (Ipv4SetupView {
                logical_name,
                ip_address: seq![0u8, 0u8, 0u8, 0u8],
                subnet_mask: seq![255u8, 255u8, 255u8, 0u8],
                gateway: seq![0u8, 0u8, 0u8, 0u8],
                primary_dns: seq![0u8, 0u8, 0u8, 0u8],
                secondary_dns: seq![0u8, 0u8, 0u8, 0u8],
                dhcp_enabled: false,
            }),
    {
        let zero = [0u8, 0u8, 0u8, 0u8];
        let mask = [255u8, 255u8, 255u8, 0u8];
        assert(zero@ =~= seq![0u8, 0u8, 0u8, 0u8]);
        assert(mask@ =~= seq![255u8, 255u8, 255u8, 0u8]);
        Ipv4Setup {
            logical_name,
            ip_address: zero,
            subnet_mask: mask,
            gateway: zero,
            primary_dns: zero,
            secondary_dns: zero,
            dhcp_enabled: false,
        }
    }

    pub fn ip_address(&self) -> (r: [u8; 4])
        ensures
            r@ == self@.ip_address,
    {
        self.ip_address
    }

    pub fn set_ip_address(&mut self, ip: [u8; 4])
        ensures
            final(self)@ == (Ipv4SetupView { ip_address: ip@, ..old(self)@ }),
    {
        self.ip_address = ip;
    }

    pub fn subnet_mask(&self) -> (r: [u8; 4])
        ensures
            r@ == self@.subnet_mask,
    {
        self.subnet_mask
    }

    pub fn set_subnet_mask(&mut self, mask: [u8; 4])
        ensures
            final(self)@ == (Ipv4SetupView { subnet_mask: mask@, ..old(self)@ }),
    {
        self.subnet_mask = mask;
    }

    pub fn gateway(&self) -> (r: [u8; 4])
        ensures
            r@ == self@.gateway,
    {
        self.gateway
    }

    pub fn set_gateway(&mut self, gateway: [u8; 4])
        ensures
            final(self)@ == (Ipv4SetupView { gateway: gateway@, ..old(self)@ }),
    {
        self.gateway = gateway;
    }

    pub fn primary_dns(&self) -> (r: [u8; 4])
        ensures
            r@ == self@.primary_dns,
    {
        self.primary_dns
    }

    pub fn set_primary_dns(&mut self, dns: [u8; 4])
        ensures
            final(self)@ == (Ipv4SetupView { primary_dns: dns@, ..old(self)@ }),
    {
        self.primary_dns = dns;
    }

    pub fn secondary_dns(&self) -> (r: [u8; 4])
        ensures
            r@ == self@.secondary_dns,
    {
        self.secondary_dns
    }

    pub fn set_secondary_dns(&mut self, dns: [u8; 4])
        ensures
            final(self)@ == (Ipv4SetupView { secondary_dns: dns@, ..old(self)@ }),
    {
        self.secondary_dns = dns;
    }

    pub fn dhcp_enabled(&self) -> (r: bool)
        ensures
            r == self@.dhcp_enabled,
    {
        self.dhcp_enabled
    }

    pub fn set_dhcp_enabled(&mut self, enabled: bool)
        ensures
            final(self)@ == (Ipv4SetupView { dhcp_enabled: enabled, ..old(self)@ }),
    {
        self.dhcp_enabled = enabled;
    }

    /// An address in dotted decimal form.
    pub fn ip_to_string(ip: [u8; 4]) -> (r: String)
        ensures
            r@ == dotted_text(ip@),
    {
        dotted_decimal(ip)
    }

    pub fn class_id(&self) -> (r: u16)
        ensures
            r == 42,
    {
        42
    }

    pub fn logical_name(&self) -> (r: ObisCode)
        ensures
            r == self@.logical_name,
    {
        self.logical_name
    }

    pub fn attribute_count(&self) -> (r: u8)
        ensures
            r == 7,
    {
        7
    }

    pub fn method_count(&self) -> (r: u8)
        ensures
            r == 0,
    {
        0
    }

    /// The A-XDR wire form of attribute `attr`.
    pub fn attribute_to_bytes(&self, attr: u8) -> (r: Option<Vec<u8>>)
        ensures
            match r {
                Some(b) => self@.attribute_wire(attr) == Some(b@),
                None => self@.attribute_wire(attr) is None,
            },
    {
        match attr {
            1 => Some(logical_name_bytes(&self.logical_name)),
            2 => Some(address_bytes(&self.ip_address)),
            3 => Some(address_bytes(&self.subnet_mask)),
            4 => Some(address_bytes(&self.gateway)),
            5 => Some(address_bytes(&self.primary_dns)),
            6 => Some(address_bytes(&self.secondary_dns)),
            7 => Some(vec![0x0Fu8, if self.dhcp_enabled { 1u8 } else { 0u8 }]),
            _ => None,
        }
    }

    /// Writes attribute `attr` from its wire form.
    pub fn attribute_from_bytes(&mut self, attr: u8, data: &[u8]) -> (r: Result<(), CosemObjectError>)
        ensures
            (r, final(self)@) == old(self)@.write(attr, data@),
    {
        if 2 <= attr && attr <= 6 {
            if data.len() >= 6 {
                let a = address_from(data);
                match attr {
                    2 => self.ip_address = a,
                    3 => self.subnet_mask = a,
                    4 => self.gateway = a,
                    5 => self.primary_dns = a,
                    _ => self.secondary_dns = a,
                }
            }
            Ok(())
        } else if attr == 7 {
            if data.len() >= 2 {
                self.dhcp_enabled = data[1] != 0;
            }
            Ok(())
        } else {
            Err(CosemObjectError::AttributeNotSupported(attr))
        }
    }
}

/// Writing an address or the DHCP flag from its own wire form keeps the
/// attributes as they are (for a setup whose addresses are four bytes).
pub proof fn lemma_wire_round_trip(v: Ipv4SetupView, attr: u8)
    requires
        2 <= attr <= 7,
        v.address(attr).len() == 4,
    ensures
        v.attribute_wire(attr) matches Some(b) && v.write(attr, b) == (Ok::<(), CosemObjectError>(()), v),
{
    if attr <= 6 {
        let b = seq![0x09u8, 0x04u8] + v.address(attr);
        assert(b.subrange(2, 6) =~= v.address(attr));
        assert(v.with_address(attr, v.address(attr)) == v);
    }
}

} // verus!
