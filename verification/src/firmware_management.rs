//! Firmware management (class 205): firmware components and their versions.

use vstd::prelude::*;
use vstd::utf8::encode_utf8;
use crate::cosem::{
    copy_bytes, lemma_items_view_eq, logical_name_data, logical_name_value, opt_view, CosemObjectError, DataView,
    DlmsData, ObisCode,
};

verus! {

/// A firmware component with its version text and status.
pub struct FirmwareComponent {
    pub component_id: u16,
    pub version: String,
    pub status: u8,
}

/// The value of a [`FirmwareComponent`].
pub struct FirmwareComponentView {
    pub component_id: u16,
    pub version: Seq<char>,
    pub status: u8,
}

impl View for FirmwareComponent {
    type V = FirmwareComponentView;

    open spec fn view(&self) -> FirmwareComponentView {
        FirmwareComponentView { component_id: self.component_id, version: self.version@, status: self.status }
    }
}

/// Firmware management: components in the order they were added.
pub struct FirmwareManagement {
    logical_name: ObisCode,
    components: Vec<FirmwareComponent>,
    update_pending: bool,
    current_operation: u8,
}

/// The attributes of a [`FirmwareManagement`].
pub struct FirmwareManagementView {
    pub logical_name: ObisCode,
    pub components: Seq<FirmwareComponentView>,
    pub update_pending: bool,
    pub current_operation: u8,
}

impl View for FirmwareManagement {
    type V = FirmwareManagementView;

    closed spec fn view(&self) -> FirmwareManagementView {
        FirmwareManagementView {
            logical_name: self.logical_name,
            components: self.components@.map_values(|c: FirmwareComponent| c@),
            update_pending: self.update_pending,
            current_operation: self.current_operation,
        }
    }
}

/// Whether some component has identifier `id`.
pub open spec fn has_component(s: Seq<FirmwareComponentView>, id: u16) -> bool {
    exists|i: int| 0 <= i < s.len() && #[trigger] s[i].component_id == id
}

/// `i` is the first position of a component with identifier `id`.
pub open spec fn first_component(s: Seq<FirmwareComponentView>, id: u16, i: int) -> bool {
    &&& 0 <= i < s.len()
    &&& s[i].component_id == id
    &&& forall|j: int| 0 <= j < i ==> #[trigger] s[j].component_id != id
}

/// The value of a component: identifier, version as UTF-8 octets, status.
pub open spec fn component_value(c: FirmwareComponentView) -> DataView {
    DataView::Structure(
        seq![DataView::LongUnsigned(c.component_id), DataView::OctetString(encode_utf8(c.version)), DataView::Unsigned(c.status)],
    )
}

impl FirmwareManagementView {
    /// The value of an attribute, where the class exposes it.
    pub open spec fn attribute(self, attr: u8) -> Option<DataView> {
        match attr {
            1 => Some(logical_name_value(self.logical_name)),
            2 => Some(DataView::Array(self.components.map_values(|c: FirmwareComponentView| component_value(c)))),
            3 => Some(DataView::LongUnsigned(self.components.len() as u16)),
            4 => Some(DataView::Boolean(self.update_pending)),
            5 => Some(DataView::Unsigned(self.current_operation)),
            _ => None,
        }
    }

    /// Writing attribute `attr` with the decoded value `d` (`None` where
    /// decoding failed): the outcome and the new attributes.
    pub open spec fn write(self, attr: u8, d: Option<DataView>) -> (Result<(), CosemObjectError>, FirmwareManagementView) {
        match attr {
            4 => match d {
                Some(DataView::Boolean(b)) => (Ok(()), FirmwareManagementView { update_pending: b, ..self }),
                _ => (Err(CosemObjectError::InvalidData), self),
            },
            _ => (Err(CosemObjectError::AttributeNotSupported(attr)), self),
        }
    }
}

impl FirmwareManagement {
    pub fn new(logical_name: ObisCode) -> (r: FirmwareManagement)
        ensures
            r@ == (FirmwareManagementView {
                logical_name,
                components: Seq::empty(),
                update_pending: false,
                current_operation: 0,
            }),
    {
        let r = FirmwareManagement { logical_name, components: Vec::new(), update_pending: false, current_operation: 0 };
        assert(r@.components =~= Seq::empty());
        r
    }

    /// Adds a component with status 0 (normal).
    pub fn add_component(&mut self, component_id: u16, version: String)
        ensures
            final(self)@ == (FirmwareManagementView {
                components: old(self)@.components.push(
                    FirmwareComponentView { component_id, version: version@, status: 0 },
                ),
                ..old(self)@
            }),
    {
        let c = FirmwareComponent { component_id, version, status: 0 };
        let ghost cv = c@;
        self.components.push(c);
        assert(self.components@.map_values(|c: FirmwareComponent| c@) =~= old(self)@.components.push(cv));
    }

    fn find(&self, component_id: u16) -> (r: Option<usize>)
        ensures
            match r {
                Some(i) => first_component(self@.components, component_id, i as int),
                None => !has_component(self@.components, component_id),
            },
    {
        let mut i: usize = 0;
        while i < self.components.len()
            invariant
                i <= self.components@.len(),
                self@.components.len() == self.components@.len(),
                forall|j: int| 0 <= j < i ==> #[trigger] self@.components[j].component_id != component_id,
            decreases self.components@.len() - i,
        {
            if self.components[i].component_id == component_id {
                return Some(i);
            }
            i = i + 1;
        }
        None
    }

    /// The first component with identifier `component_id`.
    pub fn get_component(&self, component_id: u16) -> (r: Option<&FirmwareComponent>)
        ensures
            match r {
                Some(c) => exists|i: int| first_component(self@.components, component_id, i) && c@ == self@.components[i],
                None => !has_component(self@.components, component_id),
            },
    {
        match self.find(component_id) {
            Some(i) => Some(&self.components[i]),
            None => None,
        }
    }

    /// Sets the version of the first component with identifier
    /// `component_id`; returns whether there is one.
    pub fn update_version(&mut self, component_id: u16, new_version: String) -> (r: bool)
        ensures
            r == has_component(old(self)@.components, component_id),
            r ==> exists|i: int| first_component(old(self)@.components, component_id, i) && final(self)@ == (FirmwareManagementView {
                components: old(self)@.components.update(
                    i,
                    FirmwareComponentView { version: new_version@, ..old(self)@.components[i] },
                ),
                ..old(self)@
            }),
            !r ==> final(self)@ == old(self)@,
    {
        match self.find(component_id) {
            Some(i) => {
                let ghost nv = new_version@;
                let mut c = self.components.remove(i);
                c.version = new_version;
                self.components.insert(i, c);
                assert(self.components@.map_values(|c: FirmwareComponent| c@) =~= old(self)@.components.update(
                    i as int,
                    FirmwareComponentView { version: nv, ..old(self)@.components[i as int] },
                ));
                true
            },
            None => false,
        }
    }

    pub fn set_update_pending(&mut self, pending: bool)
        ensures
            final(self)@ == (FirmwareManagementView { update_pending: pending, ..old(self)@ }),
    {
        self.update_pending = pending;
    }

    pub fn is_update_pending(&self) -> (r: bool)
        ensures
            r == self@.update_pending,
    {
        self.update_pending
    }

    pub fn component_count(&self) -> (r: usize)
        ensures
            r == self@.components.len(),
    {
        self.components.len()
    }

    pub fn set_current_operation(&mut self, operation: u8)
        ensures
            final(self)@ == (FirmwareManagementView { current_operation: operation, ..old(self)@ }),
    {
        self.current_operation = operation;
    }

    pub fn current_operation(&self) -> (r: u8)
        ensures
            r == self@.current_operation,
    {
        self.current_operation
    }

    pub fn class_id(&self) -> (r: u16)
        ensures
            r == 205,
    {
        205
    }

    pub fn logical_name(&self) -> (r: ObisCode)
        ensures
            r == self@.logical_name,
    {
        self.logical_name
    }

    pub fn attribute_count(&self) -> (r: u8)
        ensures
            r == 6,
    {
        6
    }

    pub fn method_count(&self) -> (r: u8)
        ensures
            r == 3,
    {
        3
    }

    /// The value of attribute `attr`, for the A-XDR encoder.
    pub fn attribute_data(&self, attr: u8) -> (r: Option<DlmsData>)
        ensures
            opt_view(r) == self@.attribute(attr),
    {
        match attr {
            1 => Some(logical_name_data(&self.logical_name)),
            2 => {
                let mut items: Vec<DlmsData> = Vec::new();
                let mut i: usize = 0;
                while i < self.components.len()
                    invariant
                        i <= self.components@.len(),
                        items@.len() == i,
                        forall|j: int| 0 <= j < i ==> (#[trigger] items@[j])@ == component_value(self.components@[j]@),
                    decreases self.components@.len() - i,
                {
                    let c = &self.components[i];
                    let fields = vec![
                        DlmsData::LongUnsigned(c.component_id),
                        DlmsData::OctetString(copy_bytes(c.version.as_str().as_bytes())),
                        DlmsData::Unsigned(c.status),
                    ];
                    proof {
                        lemma_items_view_eq(
                            fields@,
                            seq![DataView::LongUnsigned(c.component_id), DataView::OctetString(encode_utf8(c.version@)), DataView::Unsigned(c.status)],
                        );
                    }
                    items.push(DlmsData::Structure(fields));
                    i = i + 1;
                }
                proof {
                    lemma_items_view_eq(
                        items@,
                        self@.components.map_values(|c: FirmwareComponentView| component_value(c)),
                    );
                }
                Some(DlmsData::Array(items))
            },
            3 => Some(DlmsData::LongUnsigned(self.components.len() as u16)),
            4 => Some(DlmsData::Boolean(self.update_pending)),
            5 => Some(DlmsData::Unsigned(self.current_operation)),
            _ => None,
        }
    }

    /// Writes attribute `attr` from the value the A-XDR decoder produced
    /// (`None` where decoding failed).
    pub fn apply_attribute(&mut self, attr: u8, decoded: Option<DlmsData>) -> (r: Result<(), CosemObjectError>)
        ensures
            (r, final(self)@) == old(self)@.write(attr, opt_view(decoded)),
    {
        match attr {
            4 => match decoded {
                Some(DlmsData::Boolean(b)) => {
                    self.update_pending = b;
                    Ok(())
                },
                _ => Err(CosemObjectError::InvalidData),
            },
            _ => Err(CosemObjectError::AttributeNotSupported(attr)),
        }
    }
}

/// After a version update, looking up the component gives the new version
/// and keeps its identifier and status.
pub proof fn lemma_update_then_get(s: Seq<FirmwareComponentView>, id: u16, i: int, version: Seq<char>)
    requires
        first_component(s, id, i),
    ensures
        first_component(s.update(i, FirmwareComponentView { version, ..s[i] }), id, i),
        s.update(i, FirmwareComponentView { version, ..s[i] })[i] == (FirmwareComponentView { version, ..s[i] }),
{
    let t = s.update(i, FirmwareComponentView { version, ..s[i] });
    assert forall|j: int| 0 <= j < i implies #[trigger] t[j].component_id != id by {
        assert(t[j] == s[j]);
    }
}

/// A component added under a new identifier is what a lookup of that
/// identifier finds.
pub proof fn lemma_add_then_get(s: Seq<FirmwareComponentView>, c: FirmwareComponentView)
    requires
        !has_component(s, c.component_id),
    ensures
        first_component(s.push(c), c.component_id, s.len() as int),
        s.push(c)[s.len() as int] == c,
{
    let t = s.push(c);
    assert forall|j: int| 0 <= j < s.len() implies #[trigger] t[j].component_id != c.component_id by {
        assert(t[j] == s[j]);
    }
}

/// A value accepted for the update-pending flag is read back unchanged.
pub proof fn lemma_read_back(v: FirmwareManagementView, attr: u8, d: DataView)
    requires
        v.write(attr, Some(d)).0 is Ok,
    ensures
        v.write(attr, Some(d)).1.attribute(attr) == Some(d),
{
}

} // verus!
