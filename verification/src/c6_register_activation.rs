//! IC6 Register activation: register references with their mask lists.

use vstd::prelude::*;
use crate::cosem::{
    copy_bytes, copy_items, items_view, lemma_items_view_eq, logical_name_data, logical_name_value, opt_view,
    CosemObjectError, DataView, DlmsData, ObisCode,
};

verus! {

/// A register reference with its mask list.
pub struct RegisterAssignment {
    pub register_reference: ObisCode,
    pub mask_list: Vec<DlmsData>,
}

/// The value of a [`RegisterAssignment`].
pub struct RegisterAssignmentView {
    pub register_reference: ObisCode,
    pub mask_list: Seq<DataView>,
}

impl View for RegisterAssignment {
    type V = RegisterAssignmentView;

    open spec fn view(&self) -> RegisterAssignmentView {
        RegisterAssignmentView { register_reference: self.register_reference, mask_list: items_view(self.mask_list@) }
    }
}

/// Register activation: assignments in the order they were added.
pub struct RegisterActivation {
    logical_name: ObisCode,
    register_assignments: Vec<RegisterAssignment>,
}

/// The attributes of a [`RegisterActivation`].
pub struct RegisterActivationView {
    pub logical_name: ObisCode,
    pub register_assignments: Seq<RegisterAssignmentView>,
}

impl View for RegisterActivation {
    type V = RegisterActivationView;

    closed spec fn view(&self) -> RegisterActivationView {
        RegisterActivationView {
            logical_name: self.logical_name,
            register_assignments: self.register_assignments@.map_values(|a: RegisterAssignment| a@),
        }
    }
}

/// The value of an assignment: the register's logical name and its mask list.
pub open spec fn assignment_value(a: RegisterAssignmentView) -> DataView {
    DataView::Structure(seq![DataView::OctetString(a.register_reference@), DataView::Array(a.mask_list)])
}

impl RegisterActivationView {
    /// The value of an attribute, where the class exposes it.
    pub open spec fn attribute(self, attr: u8) -> Option<DataView> {
        match attr {
            1 => Some(logical_name_value(self.logical_name)),
            2 => Some(DataView::Array(self.register_assignments.map_values(|a: RegisterAssignmentView| assignment_value(a)))),
            _ => None,
        }
    }
}

impl RegisterActivation {
    pub fn new(logical_name: ObisCode) -> (r: RegisterActivation)
        ensures
            r@ == (RegisterActivationView { logical_name, register_assignments: Seq::empty() }),
    {
        let r = RegisterActivation { logical_name, register_assignments: Vec::new() };
        assert(r@.register_assignments =~= Seq::empty());
        r
    }

    pub fn register_assignments(&self) -> (r: &[RegisterAssignment])
        ensures
            r@.map_values(|a: RegisterAssignment| a@) == self@.register_assignments,
    {
        self.register_assignments.as_slice()
    }

    pub fn add_register(&mut self, assignment: RegisterAssignment)
        ensures
            final(self)@ == (RegisterActivationView {
                register_assignments: old(self)@.register_assignments.push(assignment@),
                ..old(self)@
            }),
    {
        let ghost av = assignment@;
        self.register_assignments.push(assignment);
        assert(self.register_assignments@.map_values(|a: RegisterAssignment| a@)
            =~= old(self)@.register_assignments.push(av));
    }

    /// Removes and returns the assignment at position `index`, where there is one.
    pub fn remove_register(&mut self, index: usize) -> (r: Option<RegisterAssignment>)
        ensures
            index < old(self)@.register_assignments.len() ==> (r matches Some(a)
                && a@ == old(self)@.register_assignments[index as int]
                && final(self)@ == (RegisterActivationView {
                    register_assignments: old(self)@.register_assignments.remove(index as int),
                    ..old(self)@
                })),
            index >= old(self)@.register_assignments.len() ==> r is None && final(self)@ == old(self)@,
    {
        if index < self.register_assignments.len() {
            let a = self.register_assignments.remove(index);
            assert(self.register_assignments@.map_values(|a: RegisterAssignment| a@)
                =~= old(self)@.register_assignments.remove(index as int));
            Some(a)
        } else {
            None
        }
    }

    pub fn class_id(&self) -> (r: u16)
        ensures
            r == 6,
    {
        6
    }

    pub fn logical_name(&self) -> (r: ObisCode)
        ensures
            r == self@.logical_name,
    {
        self.logical_name
    }

    pub fn attribute_count(&self) -> (r: u8)
        ensures
            r == 3,
    {
        3
    }

    pub fn method_count(&self) -> (r: u8)
        ensures
            r == 0,
    {
        0
    }

    /// The value of attribute `attr`, for the A-XDR encoder.
    pub fn attribute_data(&self, attr: u8) -> (r: Option<DlmsData>)
        ensures
            opt_view(r) == self@.attribute(attr),
    {
        match attr {
            1 => Some(logical_name_data(&self.logical_name)),
            2 => {
                let mut items: Vec<DlmsData> = Vec::new();
                let mut i: usize = 0;
                while i < self.register_assignments.len()
                    invariant
                        i <= self.register_assignments@.len(),
                        items@.len() == i,
                        forall|j: int| 0 <= j < i ==> (#[trigger] items@[j])@ == assignment_value(
                            self.register_assignments@[j]@,
                        ),
                    decreases self.register_assignments@.len() - i,
                {
                    let a = &self.register_assignments[i];
                    let name = a.register_reference.to_bytes();
                    let fields = vec![
                        DlmsData::OctetString(copy_bytes(&name)),
                        DlmsData::Array(copy_items(&a.mask_list)),
                    ];
                    proof {
                        lemma_items_view_eq(
                            fields@,
                            seq![DataView::OctetString(a.register_reference@), DataView::Array(items_view(a.mask_list@))],
                        );
                    }
                    items.push(DlmsData::Structure(fields));
                    i = i + 1;
                }
                proof {
                    lemma_items_view_eq(
                        items@,
                        self@.register_assignments.map_values(|a: RegisterAssignmentView| assignment_value(a)),
                    );
                }
                Some(DlmsData::Array(items))
            },
            _ => None,
        }
    }

    /// No attribute is writable.
    pub fn apply_attribute(&mut self, attr: u8, decoded: Option<DlmsData>) -> (r: Result<(), CosemObjectError>)
        ensures
            r == Err::<(), CosemObjectError>(CosemObjectError::AttributeNotSupported(attr)),
            final(self)@ == old(self)@,
    {
        Err(CosemObjectError::AttributeNotSupported(attr))
    }
}

/// Removing the assignment just added gives it back and restores the list.
pub proof fn lemma_add_then_remove(s: Seq<RegisterAssignmentView>, a: RegisterAssignmentView)
    ensures
        s.push(a)[s.len() as int] == a,
        s.push(a).remove(s.len() as int) == s,
{
    assert(s.push(a).remove(s.len() as int) =~= s);
}

} // verus!
