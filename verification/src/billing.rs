//! IC17 Billing: payment metering amounts and billing dates.

use vstd::prelude::*;
use crate::cosem::{
    logical_name_data, logical_name_value, opt_view, same_kind, zero_date_time, CosemObjectError,
    DataView, DlmsData, ObisCode,
};

verus! {

/// Billing: charging dates, billing period and cycle, and the amounts owed.
pub struct Billing {
    logical_name: ObisCode,
    charging_datetime: DlmsData,
    billing_period: u8,
    billing_cycle: u16,
    last_billing_datetime: DlmsData,
    amount_prescribed: i32,
    amount_to_be_paid: i32,
    debt_amount: i32,
    credit_amount: i32,
    charge_type: u8,
}

/// The attributes of a [`Billing`].
pub struct BillingView {
    pub logical_name: ObisCode,
    pub charging_datetime: DataView,
    pub billing_period: u8,
    pub billing_cycle: u16,
    pub last_billing_datetime: DataView,
    pub amount_prescribed: i32,
    pub amount_to_be_paid: i32,
    pub debt_amount: i32,
    pub credit_amount: i32,
    pub charge_type: u8,
}

impl View for Billing {
    type V = BillingView;

    closed spec fn view(&self) -> BillingView {
        BillingView {
            logical_name: self.logical_name,
            charging_datetime: self.charging_datetime@,
            billing_period: self.billing_period,
            billing_cycle: self.billing_cycle,
            last_billing_datetime: self.last_billing_datetime@,
            amount_prescribed: self.amount_prescribed,
            amount_to_be_paid: self.amount_to_be_paid,
            debt_amount: self.debt_amount,
            credit_amount: self.credit_amount,
            charge_type: self.charge_type,
        }
    }
}

impl BillingView {
    /// The value of an attribute, where the class exposes it.
    pub open spec fn attribute(self, attr: u8) -> Option<DataView> {
        match attr {
            1 => Some(logical_name_value(self.logical_name)),
            2 => Some(self.charging_datetime),
            3 => Some(DataView::Unsigned(self.billing_period)),
            4 => Some(DataView::LongUnsigned(self.billing_cycle)),
            5 => Some(self.last_billing_datetime),
            6 => Some(DataView::DoubleLong(self.amount_prescribed)),
            7 => Some(DataView::DoubleLong(self.amount_to_be_paid)),
            8 => Some(DataView::DoubleLong(self.debt_amount)),
            9 => Some(DataView::DoubleLong(self.credit_amount)),
            10 => Some(DataView::Enum(self.charge_type)),
            _ => None,
        }
    }

    /// Writing attribute `attr` with the decoded value `d` (`None` where
    /// decoding failed): the outcome and the new attributes.
    pub open spec fn write(self, attr: u8, d: Option<DataView>) -> (Result<(), CosemObjectError>, BillingView) {
        match attr {
            2 => match d {
                Some(v) => (Ok(()), BillingView { charging_datetime: v, ..self }),
                None => (Err(CosemObjectError::InvalidData), self),
            },
            _ => (Err(CosemObjectError::AttributeNotSupported(attr)), self),
        }
    }
}

impl Billing {
    pub fn new(logical_name: ObisCode) -> (r: Billing)
        ensures
            r@ == (BillingView {
                logical_name: logical_name,
                charging_datetime: DataView::DateTime(Seq::new(12, |i: int| 0u8)),
                billing_period: 1,
                billing_cycle: 30,
                last_billing_datetime: DataView::DateTime(Seq::new(12, |i: int| 0u8)),
                amount_prescribed: 0,
                amount_to_be_paid: 0,
                debt_amount: 0,
                credit_amount: 0,
                charge_type: 0,
            }),
    {
        Billing {
            logical_name: logical_name,
            charging_datetime: zero_date_time(),
            billing_period: 1,
            billing_cycle: 30,
            last_billing_datetime: zero_date_time(),
            amount_prescribed: 0,
            amount_to_be_paid: 0,
            debt_amount: 0,
            credit_amount: 0,
            charge_type: 0,
        }
    }

    pub fn amount_to_be_paid(&self) -> (r: i32)
        ensures
            r == self@.amount_to_be_paid,
    {
        self.amount_to_be_paid
    }

    pub fn set_amount_to_be_paid(&mut self, val: i32)
        ensures
            final(self)@ == (BillingView { amount_to_be_paid: val, ..old(self)@ }),
    {
        self.amount_to_be_paid = val;
    }

    pub fn class_id(&self) -> (r: u16)
        ensures
            r == 17,
    {
        17
    }

    pub fn logical_name(&self) -> (r: ObisCode)
        ensures
            r == self@.logical_name,
    {
        self.logical_name
    }

    pub fn attribute_count(&self) -> (r: u8)
        ensures
            r == 10,
    {
        10
    }

    pub fn method_count(&self) -> (r: u8)
        ensures
            r == 0,
    {
        0
    }

    /// The value of attribute `attr`, for the A-XDR encoder.
    pub fn attribute_data(&self, attr: u8) -> (r: Option<DlmsData>)
        ensures
            opt_view(r) == self@.attribute(attr),
    {
        match attr {
            1 => Some(logical_name_data(&self.logical_name)),
            2 => Some(self.charging_datetime.copy()),
            3 => Some(DlmsData::Unsigned(self.billing_period)),
            4 => Some(DlmsData::LongUnsigned(self.billing_cycle)),
            5 => Some(self.last_billing_datetime.copy()),
            6 => Some(DlmsData::DoubleLong(self.amount_prescribed)),
            7 => Some(DlmsData::DoubleLong(self.amount_to_be_paid)),
            8 => Some(DlmsData::DoubleLong(self.debt_amount)),
            9 => Some(DlmsData::DoubleLong(self.credit_amount)),
            10 => Some(DlmsData::Enum(self.charge_type)),
            _ => None,
        }
    }

    /// Writes attribute `attr` from the value the A-XDR decoder produced
    /// (`None` where decoding failed).
    pub fn apply_attribute(&mut self, attr: u8, decoded: Option<DlmsData>) -> (r: Result<(), CosemObjectError>)
        ensures
            (r, final(self)@) == old(self)@.write(attr, opt_view(decoded)),
    {
        match attr {
            2 => {
                match decoded {
                    Some(d) => {
                        self.charging_datetime = d;
                        Ok(())
                    },
                    None => Err(CosemObjectError::InvalidData),
                }
            },
            _ => Err(CosemObjectError::AttributeNotSupported(attr)),
        }
    }
}

/// A value accepted for an attribute is read back unchanged, where it is
/// of the kind that the attribute reports.
pub proof fn lemma_read_back(v: BillingView, attr: u8, d: DataView)
    requires
        v.write(attr, Some(d)).0 is Ok,
        v.attribute(attr) matches Some(cur) && same_kind(d, cur),
    ensures
        v.write(attr, Some(d)).1.attribute(attr) == Some(d),
{
}

} // verus!
