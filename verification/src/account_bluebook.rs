//! IC111 Account: payment metering account.

use vstd::prelude::*;
use crate::cosem::{
    logical_name_data, logical_name_value, opt_view, same_kind, view_as_u8, CosemObjectError,
    DataView, DlmsData, ObisCode,
};

verus! {

/// Account: payer, status and credit amounts.
pub struct AccountBluebook {
    logical_name: ObisCode,
    payer_name: String,
    status: u8,
    current_credit_in_use: i32,
    current_credit_status: u8,
    available_credit: i32,
    amount_type: u8,
    amount: i32,
}

/// The attributes of a [`AccountBluebook`].
pub struct AccountBluebookView {
    pub logical_name: ObisCode,
    pub payer_name: Seq<char>,
    pub status: u8,
    pub current_credit_in_use: i32,
    pub current_credit_status: u8,
    pub available_credit: i32,
    pub amount_type: u8,
    pub amount: i32,
}

impl View for AccountBluebook {
    type V = AccountBluebookView;

    closed spec fn view(&self) -> AccountBluebookView {
        AccountBluebookView {
            logical_name: self.logical_name,
            payer_name: self.payer_name@,
            status: self.status,
            current_credit_in_use: self.current_credit_in_use,
            current_credit_status: self.current_credit_status,
            available_credit: self.available_credit,
            amount_type: self.amount_type,
            amount: self.amount,
        }
    }
}

impl AccountBluebookView {
    /// The value of an attribute, where the class exposes it.
    pub open spec fn attribute(self, attr: u8) -> Option<DataView> {
        match attr {
            1 => Some(logical_name_value(self.logical_name)),
            2 => Some(DataView::VisibleString(self.payer_name)),
            3 => Some(DataView::Unsigned(self.status)),
            4 => Some(DataView::DoubleLong(self.current_credit_in_use)),
            6 => Some(DataView::DoubleLong(self.available_credit)),
            _ => None,
        }
    }

    /// Writing attribute `attr` with the decoded value `d` (`None` where
    /// decoding failed): the outcome and the new attributes.
    pub open spec fn write(self, attr: u8, d: Option<DataView>) -> (Result<(), CosemObjectError>, AccountBluebookView) {
        match attr {
            3 => match d {
                Some(v) => match view_as_u8(v) {
                    Some(v) => (Ok(()), AccountBluebookView { status: v, ..self }),
                    None => (Err(CosemObjectError::InvalidData), self),
                },
                None => (Err(CosemObjectError::InvalidData), self),
            },
            _ => (Err(CosemObjectError::AttributeNotSupported(attr)), self),
        }
    }
}

impl AccountBluebook {
    pub fn new(logical_name: ObisCode) -> (r: AccountBluebook)
        ensures
            r@ == (AccountBluebookView {
                logical_name: logical_name,
                payer_name: Seq::<char>::empty(),
                status: 0,
                current_credit_in_use: 0,
                current_credit_status: 0,
                available_credit: 0,
                amount_type: 0,
                amount: 0,
            }),
    {
        AccountBluebook {
            logical_name: logical_name,
            payer_name: String::new(),
            status: 0,
            current_credit_in_use: 0,
            current_credit_status: 0,
            available_credit: 0,
            amount_type: 0,
            amount: 0,
        }
    }

    pub fn payer_name(&self) -> (r: &str)
        ensures
            r@ == self@.payer_name,
    {
        self.payer_name.as_str()
    }

    pub fn status(&self) -> (r: u8)
        ensures
            r == self@.status,
    {
        self.status
    }

    pub fn available_credit(&self) -> (r: i32)
        ensures
            r == self@.available_credit,
    {
        self.available_credit
    }

    pub fn set_payer_name(&mut self, name: String)
        ensures
            final(self)@ == (AccountBluebookView { payer_name: name@, ..old(self)@ }),
    {
        self.payer_name = name;
    }

    pub fn set_available_credit(&mut self, credit: i32)
        ensures
            final(self)@ == (AccountBluebookView { available_credit: credit, ..old(self)@ }),
    {
        self.available_credit = credit;
    }

    pub fn class_id(&self) -> (r: u16)
        ensures
            r == 111,
    {
        111
    }

    pub fn logical_name(&self) -> (r: ObisCode)
        ensures
            r == self@.logical_name,
    {
        self.logical_name
    }

    pub fn attribute_count(&self) -> (r: u8)
        ensures
            r == 14,
    {
        14
    }

    pub fn method_count(&self) -> (r: u8)
        ensures
            r == 0,
    {
        0
    }

    /// The value of attribute `attr`, for the A-XDR encoder.
    pub fn attribute_data(&self, attr: u8) -> (r: Option<DlmsData>)
        ensures
            opt_view(r) == self@.attribute(attr),
    {
        match attr {
            1 => Some(logical_name_data(&self.logical_name)),
            2 => Some(DlmsData::VisibleString(self.payer_name.clone())),
            3 => Some(DlmsData::Unsigned(self.status)),
            4 => Some(DlmsData::DoubleLong(self.current_credit_in_use)),
            6 => Some(DlmsData::DoubleLong(self.available_credit)),
            _ => None,
        }
    }

    /// Writes attribute `attr` from the value the A-XDR decoder produced
    /// (`None` where decoding failed).
    pub fn apply_attribute(&mut self, attr: u8, decoded: Option<DlmsData>) -> (r: Result<(), CosemObjectError>)
        ensures
            (r, final(self)@) == old(self)@.write(attr, opt_view(decoded)),
    {
        match attr {
            3 => {
                match decoded {
                    Some(d) => match d.as_u8() {
                        Some(v) => {
                            self.status = v;
                            Ok(())
                        },
                        None => Err(CosemObjectError::InvalidData),
                    },
                    None => Err(CosemObjectError::InvalidData),
                }
            },
            _ => Err(CosemObjectError::AttributeNotSupported(attr)),
        }
    }
}

/// A value accepted for an attribute is read back unchanged, where it is
/// of the kind that the attribute reports.
pub proof fn lemma_read_back(v: AccountBluebookView, attr: u8, d: DataView)
    requires
        v.write(attr, Some(d)).0 is Ok,
        v.attribute(attr) matches Some(cur) && same_kind(d, cur),
    ensures
        v.write(attr, Some(d)).1.attribute(attr) == Some(d),
{
}

} // verus!
