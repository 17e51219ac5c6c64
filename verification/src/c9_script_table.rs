//! IC9 Script table: the scripts of a device and their execution.

use vstd::prelude::*;
use crate::cosem::{
    lemma_items_view_eq, logical_name_data, logical_name_value, opt_view, CosemObjectError, DataView,
    DlmsData, ObisCode,
};

verus! {

/// A script entry.
#[derive(Debug, Clone, Copy)]
pub struct Script {
    pub script_id: u8,
    pub script_selector: u8,
    pub file_id: u16,
}

/// Script table: the scripts in the order they were added.
pub struct ScriptTable {
    logical_name: ObisCode,
    scripts: Vec<Script>,
}

/// The attributes of a [`ScriptTable`].
pub struct ScriptTableView {
    pub logical_name: ObisCode,
    pub scripts: Seq<Script>,
}

impl View for ScriptTable {
    type V = ScriptTableView;

    closed spec fn view(&self) -> ScriptTableView {
        ScriptTableView { logical_name: self.logical_name, scripts: self.scripts@ }
    }
}

/// Whether some script has identifier `id`.
pub open spec fn has_script(s: Seq<Script>, id: u8) -> bool {
    exists|i: int| 0 <= i < s.len() && #[trigger] s[i].script_id == id
}

/// `i` is the first position of a script with identifier `id`.
pub open spec fn first_script(s: Seq<Script>, id: u8, i: int) -> bool {
    &&& 0 <= i < s.len()
    &&& s[i].script_id == id
    &&& forall|j: int| 0 <= j < i ==> #[trigger] s[j].script_id != id
}

/// The value of a script: identifier, selector, and file identifier taken
/// as a signed 16-bit integer.
pub open spec fn script_value(s: Script) -> DataView {
    DataView::Structure(seq![DataView::Unsigned(s.script_id), DataView::Unsigned(s.script_selector), DataView::Long(s.file_id as i16)])
}

impl ScriptTableView {
    /// The value of an attribute, where the class exposes it.
    pub open spec fn attribute(self, attr: u8) -> Option<DataView> {
        match attr {
            1 => Some(logical_name_value(self.logical_name)),
            2 => Some(DataView::Array(self.scripts.map_values(|s: Script| script_value(s)))),
            _ => None,
        }
    }
}

impl ScriptTable {
    pub fn new(logical_name: ObisCode) -> (r: ScriptTable)
        ensures
            r@ == (ScriptTableView { logical_name, scripts: Seq::empty() }),
    {
        ScriptTable { logical_name, scripts: Vec::new() }
    }

    pub fn scripts(&self) -> (r: &[Script])
        ensures
            r@ == self@.scripts,
    {
        self.scripts.as_slice()
    }

    pub fn add_script(&mut self, script: Script)
        ensures
            final(self)@ == (ScriptTableView { scripts: old(self)@.scripts.push(script), ..old(self)@ }),
    {
        self.scripts.push(script);
    }

    /// Removes and returns the first script with identifier `script_id`.
    pub fn remove_script(&mut self, script_id: u8) -> (r: Option<Script>)
        ensures
            match r {
                Some(s) => exists|i: int| first_script(old(self)@.scripts, script_id, i) && s == old(self)@.scripts[i]
                    && final(self)@ == (ScriptTableView { scripts: old(self)@.scripts.remove(i), ..old(self)@ }),
                None => !has_script(old(self)@.scripts, script_id) && final(self)@ == old(self)@,
            },
    {
        let mut i: usize = 0;
        while i < self.scripts.len()
            invariant
                i <= self.scripts@.len(),
                self@ == old(self)@,
                forall|j: int| 0 <= j < i ==> #[trigger] self.scripts@[j].script_id != script_id,
            decreases self.scripts@.len() - i,
        {
            if self.scripts[i].script_id == script_id {
                assert(first_script(old(self)@.scripts, script_id, i as int));
                return Some(self.scripts.remove(i));
            }
            i = i + 1;
        }
        None
    }

    pub fn class_id(&self) -> (r: u16)
        ensures
            r == 9,
    {
        9
    }

    pub fn logical_name(&self) -> (r: ObisCode)
        ensures
            r == self@.logical_name,
    {
        self.logical_name
    }

    pub fn attribute_count(&self) -> (r: u8)
        ensures
            r == 2,
    {
        2
    }

    pub fn method_count(&self) -> (r: u8)
        ensures
            r == 2,
    {
        2
    }

    /// The value of attribute `attr`, for the A-XDR encoder.
    pub fn attribute_data(&self, attr: u8) -> (r: Option<DlmsData>)
        ensures
            opt_view(r) == self@.attribute(attr),
    {
        match attr {
            1 => Some(logical_name_data(&self.logical_name)),
            2 => {
                let mut items: Vec<DlmsData> = Vec::new();
                let mut i: usize = 0;
                while i < self.scripts.len()
                    invariant
                        i <= self.scripts@.len(),
                        items@.len() == i,
                        forall|j: int| 0 <= j < i ==> (#[trigger] items@[j])@ == script_value(self.scripts@[j]),
                    decreases self.scripts@.len() - i,
                {
                    let s = self.scripts[i];
                    let fields = vec![
                        DlmsData::Unsigned(s.script_id),
                        DlmsData::Unsigned(s.script_selector),
                        DlmsData::Long(s.file_id as i16),
                    ];
                    proof {
                        lemma_items_view_eq(
                            fields@,
                            seq![DataView::Unsigned(s.script_id), DataView::Unsigned(s.script_selector), DataView::Long(s.file_id as i16)],
                        );
                    }
                    items.push(DlmsData::Structure(fields));
                    i = i + 1;
                }
                proof {
                    lemma_items_view_eq(items@, self@.scripts.map_values(|s: Script| script_value(s)));
                }
                Some(DlmsData::Array(items))
            },
            _ => None,
        }
    }

    /// No attribute is writable.
    pub fn apply_attribute(&mut self, attr: u8, decoded: Option<DlmsData>) -> (r: Result<(), CosemObjectError>)
        ensures
            r == Err::<(), CosemObjectError>(CosemObjectError::AttributeNotSupported(attr)),
            final(self)@ == old(self)@,
    {
        Err(CosemObjectError::AttributeNotSupported(attr))
    }

    /// Invokes method `method_id`: execute (1) and execute with reply (2)
    /// succeed with a null-data reply `00 00`.
    pub fn execute_action(&mut self, method_id: u8, data: &[u8]) -> (r: Result<Vec<u8>, CosemObjectError>)
        ensures
            final(self)@ == old(self)@,
            (method_id == 1 || method_id == 2) ==> (r matches Ok(reply) && reply@ == seq![0u8, 0u8]),
            !(method_id == 1 || method_id == 2) ==> r == Err::<Vec<u8>, CosemObjectError>(
                CosemObjectError::MethodNotSupported(method_id),
            ),
    {
        if method_id == 1 || method_id == 2 {
            let reply = vec![0x00u8, 0x00u8];
            assert(reply@ =~= seq![0u8, 0u8]);
            Ok(reply)
        } else {
            Err(CosemObjectError::MethodNotSupported(method_id))
        }
    }
}

/// Removing the script just added, when no earlier script had its
/// identifier, gives it back and restores the table.
pub proof fn lemma_add_then_remove(s: Seq<Script>, script: Script)
    requires
        !has_script(s, script.script_id),
    ensures
        first_script(s.push(script), script.script_id, s.len() as int),
        s.push(script)[s.len() as int] == script,
        s.push(script).remove(s.len() as int) == s,
{
    let t = s.push(script);
    assert forall|j: int| 0 <= j < s.len() implies #[trigger] t[j].script_id != script.script_id by {
        assert(t[j] == s[j]);
    }
    assert(t.remove(s.len() as int) =~= s);
}

} // verus!
