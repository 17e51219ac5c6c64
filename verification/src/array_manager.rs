//! IC123 Array manager: a managed list of object references.

use vstd::prelude::*;
use crate::cosem::{
    copy_bytes, lemma_items_view_eq, logical_name_data, logical_name_value, opt_view, CosemObjectError, DataView,
    DlmsData, ObisCode,
};

verus! {

/// Array manager: managed object references in the order they were added.
pub struct ArrayManager {
    logical_name: ObisCode,
    managed_object_list: Vec<ObisCode>,
    allocation_size: u32,
}

/// The attributes of an [`ArrayManager`].
pub struct ArrayManagerView {
    pub logical_name: ObisCode,
    pub managed_object_list: Seq<ObisCode>,
    pub allocation_size: u32,
}

impl View for ArrayManager {
    type V = ArrayManagerView;

    closed spec fn view(&self) -> ArrayManagerView {
        ArrayManagerView {
            logical_name: self.logical_name,
            managed_object_list: self.managed_object_list@,
            allocation_size: self.allocation_size,
        }
    }
}

/// A list of logical names as an array of octet strings.
pub open spec fn obis_list_value(s: Seq<ObisCode>) -> DataView {
    DataView::Array(s.map_values(|o: ObisCode| DataView::OctetString(o@)))
}

/// Builds the array of octet strings for a list of logical names.
pub fn obis_list_data(list: &[ObisCode]) -> (r: DlmsData)
    ensures
        r@ == obis_list_value(list@),
{
    let mut items: Vec<DlmsData> = Vec::new();
    let mut i: usize = 0;
    while i < list.len()
        invariant
            i <= list@.len(),
            items@.len() == i,
            forall|j: int| 0 <= j < i ==> (#[trigger] items@[j])@ == DataView::OctetString(list@[j]@),
        decreases list@.len() - i,
    {
        let name = list[i].to_bytes();
        items.push(DlmsData::OctetString(copy_bytes(&name)));
        i = i + 1;
    }
    proof {
        lemma_items_view_eq(items@, list@.map_values(|o: ObisCode| DataView::OctetString(o@)));
    }
    DlmsData::Array(items)
}

impl ArrayManagerView {
    /// The value of an attribute, where the class exposes it.
    pub open spec fn attribute(self, attr: u8) -> Option<DataView> {
        match attr {
            1 => Some(logical_name_value(self.logical_name)),
            2 => Some(obis_list_value(self.managed_object_list)),
            3 => Some(DataView::DoubleLongUnsigned(self.allocation_size)),
            _ => None,
        }
    }
}

impl ArrayManager {
    /// An empty manager with an allocation size of 100.
    pub fn new(logical_name: ObisCode) -> (r: ArrayManager)
        ensures
            r@ == (ArrayManagerView { logical_name, managed_object_list: Seq::empty(), allocation_size: 100 }),
    {
        ArrayManager { logical_name, managed_object_list: Vec::new(), allocation_size: 100 }
    }

    pub fn managed_objects(&self) -> (r: &[ObisCode])
        ensures
            r@ == self@.managed_object_list,
    {
        self.managed_object_list.as_slice()
    }

    pub fn add_object(&mut self, obis: ObisCode)
        ensures
            final(self)@ == (ArrayManagerView {
                managed_object_list: old(self)@.managed_object_list.push(obis),
                ..old(self)@
            }),
    {
        self.managed_object_list.push(obis);
    }

    /// Removes and returns the reference at position `index`, where there is one.
    pub fn remove_object(&mut self, index: usize) -> (r: Option<ObisCode>)
        ensures
            index < old(self)@.managed_object_list.len() ==> r == Some(old(self)@.managed_object_list[index as int])
                && final(self)@ == (ArrayManagerView {
                    managed_object_list: old(self)@.managed_object_list.remove(index as int),
                    ..old(self)@
                }),
            index >= old(self)@.managed_object_list.len() ==> r is None && final(self)@ == old(self)@,
    {
        if index < self.managed_object_list.len() {
            Some(self.managed_object_list.remove(index))
        } else {
            None
        }
    }

    pub fn clear(&mut self)
        ensures
            final(self)@ == (ArrayManagerView { managed_object_list: Seq::empty(), ..old(self)@ }),
    {
        self.managed_object_list.clear();
    }

    pub fn class_id(&self) -> (r: u16)
        ensures
            r == 123,
    {
        123
    }

    pub fn logical_name(&self) -> (r: ObisCode)
        ensures
            r == self@.logical_name,
    {
        self.logical_name
    }

    pub fn attribute_count(&self) -> (r: u8)
        ensures
            r == 4,
    {
        4
    }

    pub fn method_count(&self) -> (r: u8)
        ensures
            r == 3,
    {
        3
    }

    /// The value of attribute `attr`, for the A-XDR encoder.
    pub fn attribute_data(&self, attr: u8) -> (r: Option<DlmsData>)
        ensures
            opt_view(r) == self@.attribute(attr),
    {
        match attr {
            1 => Some(logical_name_data(&self.logical_name)),
            2 => Some(obis_list_data(self.managed_object_list.as_slice())),
            3 => Some(DlmsData::DoubleLongUnsigned(self.allocation_size)),
            _ => None,
        }
    }

    /// No attribute is writable.
    pub fn apply_attribute(&mut self, attr: u8, decoded: Option<DlmsData>) -> (r: Result<(), CosemObjectError>)
        ensures
            r == Err::<(), CosemObjectError>(CosemObjectError::AttributeNotSupported(attr)),
            final(self)@ == old(self)@,
    {
        Err(CosemObjectError::AttributeNotSupported(attr))
    }

    /// Invokes method `method_id`: methods 1 to 3 succeed with an empty
    /// reply.
    pub fn execute_action(&mut self, method_id: u8, data: &[u8]) -> (r: Result<Vec<u8>, CosemObjectError>)
        ensures
            final(self)@ == old(self)@,
            1 <= method_id <= 3 ==> (r matches Ok(reply) && reply@.len() == 0),
            !(1 <= method_id <= 3) ==> r == Err::<Vec<u8>, CosemObjectError>(
                CosemObjectError::MethodNotSupported(method_id),
            ),
    {
        if 1 <= method_id && method_id <= 3 {
            Ok(Vec::new())
        } else {
            Err(CosemObjectError::MethodNotSupported(method_id))
        }
    }
}

/// Removing the reference just added gives it back and restores the list.
pub proof fn lemma_add_then_remove(s: Seq<ObisCode>, o: ObisCode)
    ensures
        s.push(o)[s.len() as int] == o,
        s.push(o).remove(s.len() as int) == s,
{
    assert(s.push(o).remove(s.len() as int) =~= s);
}

} // verus!
