//! IC67 Sensor manager: the sensors of a device and their types.

use vstd::prelude::*;
use crate::cosem::{
    copy_bytes, lemma_items_view_eq, logical_name_data, logical_name_value, opt_view, CosemObjectError, DataView,
    DlmsData, ObisCode,
};

verus! {

/// A sensor reference with its type.
#[derive(Debug, Clone, Copy)]
pub struct SensorEntry {
    pub sensor_reference: ObisCode,
    pub sensor_type: u8,
}

/// Sensor manager: sensors in the order they were added.
pub struct SensorManager {
    logical_name: ObisCode,
    sensor_list: Vec<SensorEntry>,
}

/// The attributes of a [`SensorManager`].
pub struct SensorManagerView {
    pub logical_name: ObisCode,
    pub sensor_list: Seq<SensorEntry>,
}

impl View for SensorManager {
    type V = SensorManagerView;

    closed spec fn view(&self) -> SensorManagerView {
        SensorManagerView { logical_name: self.logical_name, sensor_list: self.sensor_list@ }
    }
}

/// The value of a sensor entry: the sensor's logical name and its type.
pub open spec fn sensor_value(s: SensorEntry) -> DataView {
    DataView::Structure(seq![DataView::OctetString(s.sensor_reference@), DataView::Unsigned(s.sensor_type)])
}

impl SensorManagerView {
    /// The value of an attribute, where the class exposes it.
    pub open spec fn attribute(self, attr: u8) -> Option<DataView> {
        match attr {
            1 => Some(logical_name_value(self.logical_name)),
            2 => Some(DataView::Array(self.sensor_list.map_values(|s: SensorEntry| sensor_value(s)))),
            _ => None,
        }
    }
}

impl SensorManager {
    pub fn new(logical_name: ObisCode) -> (r: SensorManager)
        ensures
            r@ == (SensorManagerView { logical_name, sensor_list: Seq::empty() }),
    {
        SensorManager { logical_name, sensor_list: Vec::new() }
    }

    pub fn sensor_list(&self) -> (r: &[SensorEntry])
        ensures
            r@ == self@.sensor_list,
    {
        self.sensor_list.as_slice()
    }

    pub fn add_sensor(&mut self, entry: SensorEntry)
        ensures
            final(self)@ == (SensorManagerView { sensor_list: old(self)@.sensor_list.push(entry), ..old(self)@ }),
    {
        self.sensor_list.push(entry);
    }

    /// Removes and returns the sensor at position `index`, where there is one.
    pub fn remove_sensor(&mut self, index: usize) -> (r: Option<SensorEntry>)
        ensures
            index < old(self)@.sensor_list.len() ==> r == Some(old(self)@.sensor_list[index as int]) && final(self)@
                == (SensorManagerView { sensor_list: old(self)@.sensor_list.remove(index as int), ..old(self)@ }),
            index >= old(self)@.sensor_list.len() ==> r is None && final(self)@ == old(self)@,
    {
        if index < self.sensor_list.len() {
            Some(self.sensor_list.remove(index))
        } else {
            None
        }
    }

    pub fn class_id(&self) -> (r: u16)
        ensures
            r == 67,
    {
        67
    }

    pub fn logical_name(&self) -> (r: ObisCode)
        ensures
            r == self@.logical_name,
    {
        self.logical_name
    }

    pub fn attribute_count(&self) -> (r: u8)
        ensures
            r == 2,
    {
        2
    }

    pub fn method_count(&self) -> (r: u8)
        ensures
            r == 3,
    {
        3
    }

    /// The value of attribute `attr`, for the A-XDR encoder.
    pub fn attribute_data(&self, attr: u8) -> (r: Option<DlmsData>)
        ensures
            opt_view(r) == self@.attribute(attr),
    {
        match attr {
            1 => Some(logical_name_data(&self.logical_name)),
            2 => {
                let mut items: Vec<DlmsData> = Vec::new();
                let mut i: usize = 0;
                while i < self.sensor_list.len()
                    invariant
                        i <= self.sensor_list@.len(),
                        items@.len() == i,
                        forall|j: int| 0 <= j < i ==> (#[trigger] items@[j])@ == sensor_value(self.sensor_list@[j]),
                    decreases self.sensor_list@.len() - i,
                {
                    let s = self.sensor_list[i];
                    let name = s.sensor_reference.to_bytes();
                    let fields = vec![DlmsData::OctetString(copy_bytes(&name)), DlmsData::Unsigned(s.sensor_type)];
                    proof {
                        lemma_items_view_eq(
                            fields@,
                            seq![DataView::OctetString(s.sensor_reference@), DataView::Unsigned(s.sensor_type)],
                        );
                    }
                    items.push(DlmsData::Structure(fields));
                    i = i + 1;
                }
                proof {
                    lemma_items_view_eq(items@, self@.sensor_list.map_values(|s: SensorEntry| sensor_value(s)));
                }
                Some(DlmsData::Array(items))
            },
            _ => None,
        }
    }

    /// No attribute is writable.
    pub fn apply_attribute(&mut self, attr: u8, decoded: Option<DlmsData>) -> (r: Result<(), CosemObjectError>)
        ensures
            r == Err::<(), CosemObjectError>(CosemObjectError::AttributeNotSupported(attr)),
            final(self)@ == old(self)@,
    {
        Err(CosemObjectError::AttributeNotSupported(attr))
    }

    /// Invokes method `method_id`: methods 1 to 3 succeed with an empty
    /// reply.
    pub fn execute_action(&mut self, method_id: u8, data: &[u8]) -> (r: Result<Vec<u8>, CosemObjectError>)
        ensures
            final(self)@ == old(self)@,
            1 <= method_id <= 3 ==> (r matches Ok(reply) && reply@.len() == 0),
            !(1 <= method_id <= 3) ==> r == Err::<Vec<u8>, CosemObjectError>(
                CosemObjectError::MethodNotSupported(method_id),
            ),
    {
        if 1 <= method_id && method_id <= 3 {
            Ok(Vec::new())
        } else {
            Err(CosemObjectError::MethodNotSupported(method_id))
        }
    }
}

/// Removing the sensor just added gives it back and restores the list.
pub proof fn lemma_add_then_remove(s: Seq<SensorEntry>, e: SensorEntry)
    ensures
        s.push(e)[s.len() as int] == e,
        s.push(e).remove(s.len() as int) == s,
{
    assert(s.push(e).remove(s.len() as int) =~= s);
}

} // verus!
