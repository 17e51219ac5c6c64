//! Communication control (class 206): communication channels and global
//! connection settings.

use vstd::prelude::*;
use crate::cosem::{
    lemma_items_view_eq, logical_name_data, logical_name_value, opt_view, CosemObjectError, DataView,
    DlmsData, ObisCode,
};

verus! {

/// A communication channel.
#[derive(Clone, Copy, Debug)]
pub struct CommChannel {
    pub channel_id: u8,
    pub channel_type: u8,
    pub enabled: bool,
    pub priority: u8,
}

/// Communication control: the channels, a global enable flag and the
/// auto-connect flag.
pub struct CommControl {
    logical_name: ObisCode,
    channels: Vec<CommChannel>,
    enabled: bool,
    auto_connect: bool,
}

/// The attributes of a [`CommControl`].
pub struct CommControlView {
    pub logical_name: ObisCode,
    /// Channels in the order they were added.
    pub channels: Seq<CommChannel>,
    pub enabled: bool,
    pub auto_connect: bool,
}

impl View for CommControl {
    type V = CommControlView;

    closed spec fn view(&self) -> CommControlView {
        CommControlView {
            logical_name: self.logical_name,
            channels: self.channels@,
            enabled: self.enabled,
            auto_connect: self.auto_connect,
        }
    }
}

/// Whether some channel has identifier `id`.
pub open spec fn has_channel(s: Seq<CommChannel>, id: u8) -> bool {
    exists|i: int| 0 <= i < s.len() && #[trigger] s[i].channel_id == id
}

/// `i` is the first position of a channel with identifier `id`.
pub open spec fn first_channel(s: Seq<CommChannel>, id: u8, i: int) -> bool {
    &&& 0 <= i < s.len()
    &&& s[i].channel_id == id
    &&& forall|j: int| 0 <= j < i ==> #[trigger] s[j].channel_id != id
}

/// The value of a channel: identifier, type, enabled flag, priority.
pub open spec fn channel_value(c: CommChannel) -> DataView {
    DataView::Structure(
        seq![DataView::Unsigned(c.channel_id), DataView::Unsigned(c.channel_type), DataView::Boolean(c.enabled), DataView::Unsigned(c.priority)],
    )
}

impl CommControlView {
    /// The value of an attribute, where the class exposes it.
    pub open spec fn attribute(self, attr: u8) -> Option<DataView> {
        match attr {
            1 => Some(logical_name_value(self.logical_name)),
            2 => Some(DataView::Array(self.channels.map_values(|c: CommChannel| channel_value(c)))),
            3 => Some(DataView::LongUnsigned(self.channels.len() as u16)),
            4 => Some(DataView::Boolean(self.enabled)),
            5 => Some(DataView::Boolean(self.auto_connect)),
            _ => None,
        }
    }

    /// Writing attribute `attr` with the decoded value `d` (`None` where
    /// decoding failed): the outcome and the new attributes.
    pub open spec fn write(self, attr: u8, d: Option<DataView>) -> (Result<(), CosemObjectError>, CommControlView) {
        match attr {
            4 => match d {
                Some(DataView::Boolean(v)) => (Ok(()), CommControlView { enabled: v, ..self }),
                _ => (Err(CosemObjectError::InvalidData), self),
            },
            5 => match d {
                Some(DataView::Boolean(v)) => (Ok(()), CommControlView { auto_connect: v, ..self }),
                _ => (Err(CosemObjectError::InvalidData), self),
            },
            _ => (Err(CosemObjectError::AttributeNotSupported(attr)), self),
        }
    }
}

impl CommControl {
    pub fn new(logical_name: ObisCode) -> (r: CommControl)
        ensures
            r@ == (CommControlView { logical_name, channels: Seq::empty(), enabled: true, auto_connect: true }),
    {
        CommControl { logical_name, channels: Vec::new(), enabled: true, auto_connect: true }
    }

    /// Adds an enabled channel of priority 0.
    pub fn add_channel(&mut self, channel_id: u8, channel_type: u8)
        ensures
            final(self)@ == (CommControlView {
                channels: old(self)@.channels.push(CommChannel { channel_id, channel_type, enabled: true, priority: 0 }),
                ..old(self)@
            }),
    {
        self.channels.push(CommChannel { channel_id, channel_type, enabled: true, priority: 0 });
    }

    /// The position of the first channel with identifier `channel_id`.
    fn find_channel(&self, channel_id: u8) -> (r: Option<usize>)
        ensures
            match r {
                Some(i) => first_channel(self@.channels, channel_id, i as int),
                None => !has_channel(self@.channels, channel_id),
            },
    {
        let mut i: usize = 0;
        while i < self.channels.len()
            invariant
                i <= self.channels@.len(),
                forall|j: int| 0 <= j < i ==> #[trigger] self.channels@[j].channel_id != channel_id,
            decreases self.channels@.len() - i,
        {
            if self.channels[i].channel_id == channel_id {
                return Some(i);
            }
            i = i + 1;
        }
        None
    }

    fn set_channel_enabled(&mut self, channel_id: u8, enabled: bool) -> (r: bool)
        ensures
            r == has_channel(old(self)@.channels, channel_id),
            r ==> exists|i: int| first_channel(old(self)@.channels, channel_id, i) && final(self)@ == (CommControlView {
                channels: old(self)@.channels.update(i, CommChannel { enabled, ..old(self)@.channels[i] }),
                ..old(self)@
            }),
            !r ==> final(self)@ == old(self)@,
    {
        match self.find_channel(channel_id) {
            Some(i) => {
                let mut c = self.channels[i];
                c.enabled = enabled;
                self.channels.set(i, c);
                true
            },
            None => false,
        }
    }

    /// Enables the first channel with identifier `channel_id`; returns whether there is one.
    pub fn enable_channel(&mut self, channel_id: u8) -> (r: bool)
        ensures
            r == has_channel(old(self)@.channels, channel_id),
            r ==> exists|i: int| first_channel(old(self)@.channels, channel_id, i) && final(self)@ == (CommControlView {
                channels: old(self)@.channels.update(i, CommChannel { enabled: true, ..old(self)@.channels[i] }),
                ..old(self)@
            }),
            !r ==> final(self)@ == old(self)@,
    {
        self.set_channel_enabled(channel_id, true)
    }

    /// Disables the first channel with identifier `channel_id`; returns whether there is one.
    pub fn disable_channel(&mut self, channel_id: u8) -> (r: bool)
        ensures
            r == has_channel(old(self)@.channels, channel_id),
            r ==> exists|i: int| first_channel(old(self)@.channels, channel_id, i) && final(self)@ == (CommControlView {
                channels: old(self)@.channels.update(i, CommChannel { enabled: false, ..old(self)@.channels[i] }),
                ..old(self)@
            }),
            !r ==> final(self)@ == old(self)@,
    {
        self.set_channel_enabled(channel_id, false)
    }

    /// The first channel with identifier `channel_id`.
    pub fn get_channel(&self, channel_id: u8) -> (r: Option<&CommChannel>)
        ensures
            match r {
                Some(c) => exists|i: int| first_channel(self@.channels, channel_id, i) && *c == self@.channels[i],
                None => !has_channel(self@.channels, channel_id),
            },
    {
        match self.find_channel(channel_id) {
            Some(i) => Some(&self.channels[i]),
            None => None,
        }
    }

    pub fn channel_count(&self) -> (r: usize)
        ensures
            r == self@.channels.len(),
    {
        self.channels.len()
    }

    pub fn is_enabled(&self) -> (r: bool)
        ensures
            r == self@.enabled,
    {
        self.enabled
    }

    pub fn set_enabled(&mut self, enabled: bool)
        ensures
            final(self)@ == (CommControlView { enabled, ..old(self)@ }),
    {
        self.enabled = enabled;
    }

    pub fn auto_connect(&self) -> (r: bool)
        ensures
            r == self@.auto_connect,
    {
        self.auto_connect
    }

    pub fn set_auto_connect(&mut self, auto: bool)
        ensures
            final(self)@ == (CommControlView { auto_connect: auto, ..old(self)@ }),
    {
        self.auto_connect = auto;
    }

    pub fn class_id(&self) -> (r: u16)
        ensures
            r == 206,
    {
        206
    }

    pub fn logical_name(&self) -> (r: ObisCode)
        ensures
            r == self@.logical_name,
    {
        self.logical_name
    }

    pub fn attribute_count(&self) -> (r: u8)
        ensures
            r == 6,
    {
        6
    }

    pub fn method_count(&self) -> (r: u8)
        ensures
            r == 2,
    {
        2
    }

    /// The value of attribute `attr`, for the A-XDR encoder.
    pub fn attribute_data(&self, attr: u8) -> (r: Option<DlmsData>)
        ensures
            opt_view(r) == self@.attribute(attr),
    {
        match attr {
            1 => Some(logical_name_data(&self.logical_name)),
            2 => {
                let mut items: Vec<DlmsData> = Vec::new();
                let mut i: usize = 0;
                while i < self.channels.len()
                    invariant
                        i <= self.channels@.len(),
                        items@.len() == i,
                        forall|j: int| 0 <= j < i ==> (#[trigger] items@[j])@ == channel_value(self.channels@[j]),
                    decreases self.channels@.len() - i,
                {
                    let c = self.channels[i];
                    let fields = vec![
                        DlmsData::Unsigned(c.channel_id),
                        DlmsData::Unsigned(c.channel_type),
                        DlmsData::Boolean(c.enabled),
                        DlmsData::Unsigned(c.priority),
                    ];
                    proof {
                        lemma_items_view_eq(
                            fields@,
                            seq![DataView::Unsigned(c.channel_id), DataView::Unsigned(c.channel_type), DataView::Boolean(c.enabled), DataView::Unsigned(c.priority)],
                        );
                    }
                    items.push(DlmsData::Structure(fields));
                    i = i + 1;
                }
                proof {
                    lemma_items_view_eq(items@, self@.channels.map_values(|c: CommChannel| channel_value(c)));
                }
                Some(DlmsData::Array(items))
            },
            3 => Some(DlmsData::LongUnsigned(self.channels.len() as u16)),
            4 => Some(DlmsData::Boolean(self.enabled)),
            5 => Some(DlmsData::Boolean(self.auto_connect)),
            _ => None,
        }
    }

    /// Writes attribute `attr` from the value the A-XDR decoder produced
    /// (`None` where decoding failed).
    pub fn apply_attribute(&mut self, attr: u8, decoded: Option<DlmsData>) -> (r: Result<(), CosemObjectError>)
        ensures
            (r, final(self)@) == old(self)@.write(attr, opt_view(decoded)),
    {
        match attr {
            4 => match decoded {
                Some(DlmsData::Boolean(v)) => {
                    self.enabled = v;
                    Ok(())
                },
                _ => Err(CosemObjectError::InvalidData),
            },
            5 => match decoded {
                Some(DlmsData::Boolean(v)) => {
                    self.auto_connect = v;
                    Ok(())
                },
                _ => Err(CosemObjectError::InvalidData),
            },
            _ => Err(CosemObjectError::AttributeNotSupported(attr)),
        }
    }
}

/// After enabling or disabling a channel, looking it up finds it with the
/// flag that was set, and every other channel is unchanged.
pub proof fn lemma_channel_flag_read_back(s: Seq<CommChannel>, id: u8, i: int, enabled: bool)
    requires
        first_channel(s, id, i),
    ensures
        first_channel(s.update(i, CommChannel { enabled, ..s[i] }), id, i),
        s.update(i, CommChannel { enabled, ..s[i] })[i].enabled == enabled,
        forall|j: int| 0 <= j < s.len() && j != i ==> s.update(i, CommChannel { enabled, ..s[i] })[j] == #[trigger] s[j],
{
}

/// A Boolean written to the enabled flag (4) or the auto-connect flag (5)
/// is read back unchanged; any other decoded value is refused with the
/// attributes unchanged, and so is every other attribute.
pub proof fn lemma_read_back(v: CommControlView, attr: u8, d: Option<DataView>, b: bool)
    ensures
        (attr == 4 || attr == 5) ==> v.write(attr, Some(DataView::Boolean(b))).0 is Ok
            && v.write(attr, Some(DataView::Boolean(b))).1.attribute(attr) == Some(DataView::Boolean(b)),
        (attr == 4 || attr == 5) && !(d matches Some(DataView::Boolean(_))) ==> v.write(attr, d) == (
            Err::<(), CosemObjectError>(CosemObjectError::InvalidData),
            v,
        ),
        !(attr == 4 || attr == 5) ==> v.write(attr, d) == (
            Err::<(), CosemObjectError>(CosemObjectError::AttributeNotSupported(attr)),
            v,
        ),
{
}

} // verus!
