//! IC61 Register table.

use vstd::prelude::*;
use crate::cosem::{
    logical_name_data, logical_name_value, opt_view, same_kind, CosemObjectError, DataView,
    DlmsData, ObisCode,
};

verus! {

/// Register table: the table cell values as text.
pub struct RegisterTable {
    logical_name: ObisCode,
    table_cell_values: String,
}

/// The attributes of a [`RegisterTable`].
pub struct RegisterTableView {
    pub logical_name: ObisCode,
    pub table_cell_values: Seq<char>,
}

impl View for RegisterTable {
    type V = RegisterTableView;

    closed spec fn view(&self) -> RegisterTableView {
        RegisterTableView {
            logical_name: self.logical_name,
            table_cell_values: self.table_cell_values@,
        }
    }
}

impl RegisterTableView {
    /// The value of an attribute, where the class exposes it.
    pub open spec fn attribute(self, attr: u8) -> Option<DataView> {
        match attr {
            1 => Some(logical_name_value(self.logical_name)),
            2 => Some(DataView::VisibleString(self.table_cell_values)),
            _ => None,
        }
    }

    /// Writing attribute `attr` with the decoded value `d` (`None` where
    /// decoding failed): the outcome and the new attributes.
    pub open spec fn write(self, attr: u8, d: Option<DataView>) -> (Result<(), CosemObjectError>, RegisterTableView) {
        match attr {
            2 => match d {
                Some(DataView::VisibleString(s)) => (Ok(()), RegisterTableView { table_cell_values: s, ..self }),
                Some(DataView::Utf8String(s)) => (Ok(()), RegisterTableView { table_cell_values: s, ..self }),
                _ => (Err(CosemObjectError::InvalidData), self),
            },
            _ => (Err(CosemObjectError::AttributeNotSupported(attr)), self),
        }
    }
}

impl RegisterTable {
    pub fn new(logical_name: ObisCode) -> (r: RegisterTable)
        ensures
            r@ == (RegisterTableView {
                logical_name: logical_name,
                table_cell_values: Seq::<char>::empty(),
            }),
    {
        RegisterTable {
            logical_name: logical_name,
            table_cell_values: String::new(),
        }
    }

    pub fn table_cell_values(&self) -> (r: &str)
        ensures
            r@ == self@.table_cell_values,
    {
        self.table_cell_values.as_str()
    }

    pub fn set_table_cell_values(&mut self, v: String)
        ensures
            final(self)@ == (RegisterTableView { table_cell_values: v@, ..old(self)@ }),
    {
        self.table_cell_values = v;
    }

    pub fn class_id(&self) -> (r: u16)
        ensures
            r == 61,
    {
        61
    }

    pub fn logical_name(&self) -> (r: ObisCode)
        ensures
            r == self@.logical_name,
    {
        self.logical_name
    }

    pub fn attribute_count(&self) -> (r: u8)
        ensures
            r == 2,
    {
        2
    }

    pub fn method_count(&self) -> (r: u8)
        ensures
            r == 0,
    {
        0
    }

    /// The value of attribute `attr`, for the A-XDR encoder.
    pub fn attribute_data(&self, attr: u8) -> (r: Option<DlmsData>)
        ensures
            opt_view(r) == self@.attribute(attr),
    {
        match attr {
            1 => Some(logical_name_data(&self.logical_name)),
            2 => Some(DlmsData::VisibleString(self.table_cell_values.clone())),
            _ => None,
        }
    }

    /// Writes attribute `attr` from the value the A-XDR decoder produced
    /// (`None` where decoding failed).
    pub fn apply_attribute(&mut self, attr: u8, decoded: Option<DlmsData>) -> (r: Result<(), CosemObjectError>)
        ensures
            (r, final(self)@) == old(self)@.write(attr, opt_view(decoded)),
    {
        match attr {
            2 => {
                match decoded {
                    Some(DlmsData::VisibleString(s)) => {
                        self.table_cell_values = s;
                        Ok(())
                    },
                    Some(DlmsData::Utf8String(s)) => {
                        self.table_cell_values = s;
                        Ok(())
                    },
                    _ => Err(CosemObjectError::InvalidData),
                }
            },
            _ => Err(CosemObjectError::AttributeNotSupported(attr)),
        }
    }
}

/// A value accepted for an attribute is read back unchanged, where it is
/// of the kind that the attribute reports.
pub proof fn lemma_read_back(v: RegisterTableView, attr: u8, d: DataView)
    requires
        v.write(attr, Some(d)).0 is Ok,
        v.attribute(attr) matches Some(cur) && same_kind(d, cur),
    ensures
        v.write(attr, Some(d)).1.attribute(attr) == Some(d),
{
}

} // verus!
