//! Data storage (class 201): keyed values kept up to a capacity.

use vstd::prelude::*;
use crate::cosem::{
    bytes_eq, copy_bytes, is_zero_date_time, lemma_items_view_eq, logical_name_data, logical_name_value,
    opt_view, zero_date_time, CosemObjectError, DataView, DlmsData, ObisCode,
};

verus! {

/// A stored value under its key, with the time it was stored.
pub struct DataStorageEntry {
    pub key: Vec<u8>,
    pub value: DlmsData,
    pub timestamp: DlmsData,
}

/// The value of a [`DataStorageEntry`].
pub struct DataStorageEntryView {
    pub key: Seq<u8>,
    pub value: DataView,
    pub timestamp: DataView,
}

impl View for DataStorageEntry {
    type V = DataStorageEntryView;

    open spec fn view(&self) -> DataStorageEntryView {
        DataStorageEntryView { key: self.key@, value: self.value@, timestamp: self.timestamp@ }
    }
}

/// Data storage: entries in the order they were put, at most `capacity` of
/// them accepted.
pub struct DataStorage {
    logical_name: ObisCode,
    entries: Vec<DataStorageEntry>,
    capacity: u16,
}

/// The attributes of a [`DataStorage`].
pub struct DataStorageView {
    pub logical_name: ObisCode,
    pub entries: Seq<DataStorageEntryView>,
    pub capacity: u16,
}

impl View for DataStorage {
    type V = DataStorageView;

    closed spec fn view(&self) -> DataStorageView {
        DataStorageView {
            logical_name: self.logical_name,
            entries: self.entries@.map_values(|e: DataStorageEntry| e@),
            capacity: self.capacity,
        }
    }
}

/// Whether some entry has key `key`.
pub open spec fn has_key(s: Seq<DataStorageEntryView>, key: Seq<u8>) -> bool {
    exists|i: int| 0 <= i < s.len() && #[trigger] s[i].key == key
}

/// `i` is the first position of an entry with key `key`.
pub open spec fn first_key(s: Seq<DataStorageEntryView>, key: Seq<u8>, i: int) -> bool {
    &&& 0 <= i < s.len()
    &&& s[i].key == key
    &&& forall|j: int| 0 <= j < i ==> #[trigger] s[j].key != key
}

/// The value of an entry: key, value, time stamp.
pub open spec fn entry_value(e: DataStorageEntryView) -> DataView {
    DataView::Structure(seq![DataView::OctetString(e.key), e.value, e.timestamp])
}

impl DataStorageView {
    /// The value of an attribute, where the class exposes it.
    pub open spec fn attribute(self, attr: u8) -> Option<DataView> {
        match attr {
            1 => Some(logical_name_value(self.logical_name)),
            2 => Some(DataView::Array(self.entries.map_values(|e: DataStorageEntryView| entry_value(e)))),
            3 => Some(DataView::LongUnsigned(self.entries.len() as u16)),
            4 => Some(DataView::LongUnsigned(self.capacity)),
            _ => None,
        }
    }

    /// Putting `value` under `key`: refused when the storage is full,
    /// otherwise appended with an all-zero time stamp.
    pub open spec fn put(self, key: Seq<u8>, value: DataView) -> (bool, DataStorageView) {
        if self.entries.len() >= self.capacity {
            (false, self)
        } else {
            (true, DataStorageView {
                entries: self.entries.push(
                    DataStorageEntryView { key, value, timestamp: DataView::DateTime(Seq::new(12, |i: int| 0u8)) },
                ),
                ..self
            })
        }
    }
}

impl DataStorage {
    /// A storage for up to 1000 entries.
    pub fn new(logical_name: ObisCode) -> (r: DataStorage)
        ensures
            r@ == (DataStorageView { logical_name, entries: Seq::empty(), capacity: 1000 }),
    {
        let r = DataStorage { logical_name, entries: Vec::new(), capacity: 1000 };
        assert(r@.entries =~= Seq::empty());
        r
    }

    pub fn with_capacity(logical_name: ObisCode, capacity: u16) -> (r: DataStorage)
        ensures
            r@ == (DataStorageView { logical_name, entries: Seq::empty(), capacity }),
    {
        let r = DataStorage { logical_name, entries: Vec::new(), capacity };
        assert(r@.entries =~= Seq::empty());
        r
    }

    /// Appends `value` under `key` unless the storage is full; returns
    /// whether it was stored.
    pub fn put(&mut self, key: Vec<u8>, value: DlmsData) -> (r: bool)
        ensures
            (r, final(self)@) == old(self)@.put(key@, value@),
    {
        if self.entries.len() >= self.capacity as usize {
            return false;
        }
        let timestamp = zero_date_time();
        let e = DataStorageEntry { key, value, timestamp };
        self.entries.push(e);
        proof {
            assert(timestamp@ == DataView::DateTime(Seq::new(12, |i: int| 0u8)));
            assert(self.entries@.map_values(|e: DataStorageEntry| e@) =~= old(self)@.entries.push(e@));
        }
        true
    }

    /// The position of the first entry with key `key`.
    fn find(&self, key: &[u8]) -> (r: Option<usize>)
        ensures
            match r {
                Some(i) => first_key(self@.entries, key@, i as int),
                None => !has_key(self@.entries, key@),
            },
    {
        let mut i: usize = 0;
        while i < self.entries.len()
            invariant
                i <= self.entries@.len(),
                self@.entries.len() == self.entries@.len(),
                forall|j: int| 0 <= j < i ==> #[trigger] self@.entries[j].key != key@,
            decreases self.entries@.len() - i,
        {
            if bytes_eq(self.entries[i].key.as_slice(), key) {
                return Some(i);
            }
            i = i + 1;
        }
        None
    }

    /// The value of the first entry with key `key`.
    pub fn get(&self, key: &[u8]) -> (r: Option<&DlmsData>)
        ensures
            match r {
                Some(v) => exists|i: int| first_key(self@.entries, key@, i) && v@ == self@.entries[i].value,
                None => !has_key(self@.entries, key@),
            },
    {
        match self.find(key) {
            Some(i) => Some(&self.entries[i].value),
            None => None,
        }
    }

    /// Removes the first entry with key `key`; returns whether there was one.
    pub fn remove(&mut self, key: &[u8]) -> (r: bool)
        ensures
            r == has_key(old(self)@.entries, key@),
            r ==> exists|i: int| first_key(old(self)@.entries, key@, i) && final(self)@ == (DataStorageView {
                entries: old(self)@.entries.remove(i),
                ..old(self)@
            }),
            !r ==> final(self)@ == old(self)@,
    {
        match self.find(key) {
            Some(i) => {
                self.entries.remove(i);
                assert(self.entries@.map_values(|e: DataStorageEntry| e@) =~= old(self)@.entries.remove(i as int));
                true
            },
            None => false,
        }
    }

    pub fn entry_count(&self) -> (r: usize)
        ensures
            r == self@.entries.len(),
    {
        self.entries.len()
    }

    pub fn clear(&mut self)
        ensures
            final(self)@ == (DataStorageView { entries: Seq::empty(), ..old(self)@ }),
    {
        self.entries.clear();
        assert(self.entries@.map_values(|e: DataStorageEntry| e@) =~= Seq::empty());
    }

    pub fn class_id(&self) -> (r: u16)
        ensures
            r == 201,
    {
        201
    }

    pub fn logical_name(&self) -> (r: ObisCode)
        ensures
            r == self@.logical_name,
    {
        self.logical_name
    }

    pub fn attribute_count(&self) -> (r: u8)
        ensures
            r == 5,
    {
        5
    }

    pub fn method_count(&self) -> (r: u8)
        ensures
            r == 3,
    {
        3
    }

    /// The value of attribute `attr`, for the A-XDR encoder.
    pub fn attribute_data(&self, attr: u8) -> (r: Option<DlmsData>)
        ensures
            opt_view(r) == self@.attribute(attr),
    {
        match attr {
            1 => Some(logical_name_data(&self.logical_name)),
            2 => {
                let mut items: Vec<DlmsData> = Vec::new();
                let mut i: usize = 0;
                while i < self.entries.len()
                    invariant
                        i <= self.entries@.len(),
                        items@.len() == i,
                        forall|j: int| 0 <= j < i ==> (#[trigger] items@[j])@ == entry_value(self.entries@[j]@),
                    decreases self.entries@.len() - i,
                {
                    let e = &self.entries[i];
                    let fields = vec![
                        DlmsData::OctetString(copy_bytes(e.key.as_slice())),
                        e.value.copy(),
                        e.timestamp.copy(),
                    ];
                    proof {
                        lemma_items_view_eq(fields@, seq![DataView::OctetString(e.key@), e.value@, e.timestamp@]);
                    }
                    items.push(DlmsData::Structure(fields));
                    i = i + 1;
                }
                proof {
                    lemma_items_view_eq(items@, self@.entries.map_values(|e: DataStorageEntryView| entry_value(e)));
                }
                Some(DlmsData::Array(items))
            },
            3 => Some(DlmsData::LongUnsigned(self.entries.len() as u16)),
            4 => Some(DlmsData::LongUnsigned(self.capacity)),
            _ => None,
        }
    }

    /// No attribute is writable; every write is refused as attribute 0.
    pub fn apply_attribute(&mut self, attr: u8, decoded: Option<DlmsData>) -> (r: Result<(), CosemObjectError>)
        ensures
            r == Err::<(), CosemObjectError>(CosemObjectError::AttributeNotSupported(0)),
            final(self)@ == old(self)@,
    {
        Err(CosemObjectError::AttributeNotSupported(0))
    }
}

/// A value put under a new key is what a lookup of that key finds; a put
/// under a key already present leaves the lookup of that key as it was.
pub proof fn lemma_put_then_get(v: DataStorageView, key: Seq<u8>, value: DataView)
    requires
        v.put(key, value).0,
    ensures
        !has_key(v.entries, key) ==> first_key(v.put(key, value).1.entries, key, v.entries.len() as int)
            && v.put(key, value).1.entries[v.entries.len() as int].value == value,
        forall|i: int| first_key(v.entries, key, i) ==> #[trigger] first_key(v.put(key, value).1.entries, key, i)
            && v.put(key, value).1.entries[i] == v.entries[i],
{
    let t = v.put(key, value).1.entries;
    assert forall|j: int| 0 <= j < v.entries.len() implies #[trigger] t[j] == v.entries[j] by {}
    if !has_key(v.entries, key) {
        assert forall|j: int| 0 <= j < v.entries.len() implies #[trigger] t[j].key != key by {
            assert(t[j] == v.entries[j]);
        }
    }
}

/// Every operation keeps the number of entries within the capacity.
pub proof fn lemma_capacity_kept(v: DataStorageView, key: Seq<u8>, value: DataView, i: int)
    requires
        v.entries.len() <= v.capacity,
    ensures
        v.put(key, value).1.entries.len() <= v.capacity,
        0 <= i < v.entries.len() ==> v.entries.remove(i).len() <= v.capacity,
{
}

/// A stored entry carries the all-zero time stamp.
pub proof fn lemma_put_timestamp(v: DataStorageView, key: Seq<u8>, value: DataView)
    requires
        v.put(key, value).0,
    ensures
        is_zero_date_time(v.put(key, value).1.entries.last().timestamp),
{
}

} // verus!
