//! IC85 Cluster: a group of object references.

use vstd::prelude::*;
use crate::array_manager::{obis_list_data, obis_list_value};
use crate::cosem::{logical_name_data, logical_name_value, opt_view, CosemObjectError, DataView, DlmsData, ObisCode};

verus! {

/// Cluster: member references in the order they were added.
pub struct Cluster {
    logical_name: ObisCode,
    members: Vec<ObisCode>,
}

/// The attributes of a [`Cluster`].
pub struct ClusterView {
    pub logical_name: ObisCode,
    pub members: Seq<ObisCode>,
}

impl View for Cluster {
    type V = ClusterView;

    closed spec fn view(&self) -> ClusterView {
        ClusterView { logical_name: self.logical_name, members: self.members@ }
    }
}

impl ClusterView {
    /// The value of an attribute, where the class exposes it; the member
    /// count is taken modulo 256.
    pub open spec fn attribute(self, attr: u8) -> Option<DataView> {
        match attr {
            1 => Some(logical_name_value(self.logical_name)),
            2 => Some(obis_list_value(self.members)),
            3 => Some(DataView::Unsigned(self.members.len() as u8)),
            _ => None,
        }
    }
}

impl Cluster {
    pub fn new(logical_name: ObisCode) -> (r: Cluster)
        ensures
            r@ == (ClusterView { logical_name, members: Seq::empty() }),
    {
        Cluster { logical_name, members: Vec::new() }
    }

    pub fn members(&self) -> (r: &[ObisCode])
        ensures
            r@ == self@.members,
    {
        self.members.as_slice()
    }

    pub fn add_member(&mut self, member: ObisCode)
        ensures
            final(self)@ == (ClusterView { members: old(self)@.members.push(member), ..old(self)@ }),
    {
        self.members.push(member);
    }

    pub fn clear_members(&mut self)
        ensures
            final(self)@ == (ClusterView { members: Seq::empty(), ..old(self)@ }),
    {
        self.members.clear();
    }

    pub fn class_id(&self) -> (r: u16)
        ensures
            r == 85,
    {
        85
    }

    pub fn logical_name(&self) -> (r: ObisCode)
        ensures
            r == self@.logical_name,
    {
        self.logical_name
    }

    pub fn attribute_count(&self) -> (r: u8)
        ensures
            r == 3,
    {
        3
    }

    pub fn method_count(&self) -> (r: u8)
        ensures
            r == 0,
    {
        0
    }

    /// The value of attribute `attr`, for the A-XDR encoder.
    pub fn attribute_data(&self, attr: u8) -> (r: Option<DlmsData>)
        ensures
            opt_view(r) == self@.attribute(attr),
    {
        match attr {
            1 => Some(logical_name_data(&self.logical_name)),
            2 => Some(obis_list_data(self.members.as_slice())),
            3 => Some(DlmsData::Unsigned(self.members.len() as u8)),
            _ => None,
        }
    }

    /// No attribute is writable.
    pub fn apply_attribute(&mut self, attr: u8, decoded: Option<DlmsData>) -> (r: Result<(), CosemObjectError>)
        ensures
            r == Err::<(), CosemObjectError>(CosemObjectError::AttributeNotSupported(attr)),
            final(self)@ == old(self)@,
    {
        Err(CosemObjectError::AttributeNotSupported(attr))
    }
}

} // verus!
