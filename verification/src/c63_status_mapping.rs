//! IC63 Status mapping: maps the bits of a status word to descriptions.

use vstd::prelude::*;
use vstd::utf8::encode_utf8;
use crate::cosem::{logical_name_bytes, logical_name_wire, CosemObjectError, ObisCode};

verus! {

/// Status mapping: a 32-bit status word and a table that names its bits.
pub struct StatusMapping {
    logical_name: ObisCode,
    status_word: u32,
    mapping_table: Vec<(u8, String)>,
}

/// The attributes of a [`StatusMapping`].
pub struct StatusMappingView {
    pub logical_name: ObisCode,
    pub status_word: u32,
    /// (bit position, description) pairs in the order they were added.
    pub mapping_table: Seq<(u8, Seq<char>)>,
}

/// The value of a mapping table.
pub open spec fn table_view(t: Seq<(u8, String)>) -> Seq<(u8, Seq<char>)> {
    t.map_values(|e: (u8, String)| (e.0, e.1@))
}

impl View for StatusMapping {
    type V = StatusMappingView;

    closed spec fn view(&self) -> StatusMappingView {
        StatusMappingView {
            logical_name: self.logical_name,
            status_word: self.status_word,
            mapping_table: table_view(self.mapping_table@),
        }
    }
}

/// Whether bit `bit` of `word` is set; positions from 32 on are never set.
pub open spec fn bit_is_set(word: u32, bit: u8) -> bool {
    bit < 32 && (word & (1u32 << bit)) != 0
}

/// `word` with bit `bit` set to `value`; positions from 32 on leave it unchanged.
pub open spec fn with_bit(word: u32, bit: u8, value: bool) -> u32 {
    if bit < 32 {
        if value {
            word | (1u32 << bit)
        } else {
            word & !(1u32 << bit)
        }
    } else {
        word
    }
}

/// The descriptions of the table entries whose bit is set in `word`, in table order.
pub open spec fn active_descriptions(word: u32, t: Seq<(u8, Seq<char>)>) -> Seq<Seq<char>>
    decreases t.len(),
{
    if t.len() == 0 {
        Seq::empty()
    } else {
        let rest = active_descriptions(word, t.drop_last());
        if bit_is_set(word, t.last().0) {
            rest.push(t.last().1)
        } else {
            rest
        }
    }
}

/// The four bytes of a word, most significant first.
pub open spec fn be_bytes(w: u32) -> Seq<u8> {
    seq![(w >> 24u32) as u8, (w >> 16u32) as u8, (w >> 8u32) as u8, w as u8]
}

/// The word whose big-endian bytes are `b0 b1 b2 b3`.
pub open spec fn be_word(b0: u8, b1: u8, b2: u8, b3: u8) -> u32 {
    ((b0 as u32) << 24u32) | ((b1 as u32) << 16u32) | ((b2 as u32) << 8u32) | (b3 as u32)
}

/// The wire form of one table entry: a two-element structure holding the
/// bit position (tagged 0x0F) and the description as an octet-string of its
/// UTF-8 bytes (the length byte keeps the low eight bits of the byte count).
pub open spec fn entry_wire(bit: u8, desc: Seq<char>) -> Seq<u8> {
    seq![0x02u8, 0x02u8, 0x0Fu8, bit, 0x09u8, (encode_utf8(desc).len() as u8)] + encode_utf8(desc)
}

/// The wire form of the table entries, one after the other.
pub open spec fn entries_wire(t: Seq<(u8, Seq<char>)>) -> Seq<u8>
    decreases t.len(),
{
    if t.len() == 0 {
        Seq::empty()
    } else {
        entries_wire(t.drop_last()) + entry_wire(t.last().0, t.last().1)
    }
}

impl StatusMappingView {
    /// The wire form of an attribute, where the class exposes it.
    pub open spec fn attribute_wire(self, attr: u8) -> Option<Seq<u8>> {
        match attr {
            1 => Some(logical_name_wire(self.logical_name)),
            2 => Some(seq![0x06u8] + be_bytes(self.status_word)),
            3 => Some(seq![0x01u8, (self.mapping_table.len() as u8)] + entries_wire(self.mapping_table)),
            _ => None,
        }
    }

    /// Writing attribute `attr` from its wire form: the outcome and the new
    /// attributes.  A status word is taken from bytes 1 to 4 when at least
    /// five bytes are given and ignored otherwise; the table is accepted
    /// and ignored.
    pub open spec fn write(self, attr: u8, data: Seq<u8>) -> (Result<(), CosemObjectError>, StatusMappingView) {
        match attr {
            2 => if data.len() >= 5 {
                (Ok(()), StatusMappingView { status_word: be_word(data[1], data[2], data[3], data[4]), ..self })
            } else {
                (Ok(()), self)
            },
            3 => (Ok(()), self),
            _ => (Err(CosemObjectError::AttributeNotSupported(attr)), self),
        }
    }
}

impl StatusMapping {
    pub fn new(logical_name: ObisCode) -> (r: StatusMapping)
        ensures
            r@ == (StatusMappingView { logical_name, status_word: 0, mapping_table: Seq::empty() }),
    {
        let r = StatusMapping { logical_name, status_word: 0, mapping_table: Vec::new() };
        assert(r@.mapping_table =~= Seq::empty());
        r
    }

    pub fn status_word(&self) -> (r: u32)
        ensures
            r == self@.status_word,
    {
        self.status_word
    }

    pub fn set_status_word(&mut self, word: u32)
        ensures
            final(self)@ == (StatusMappingView { status_word: word, ..old(self)@ }),
    {
        self.status_word = word;
    }

    pub fn mapping_table(&self) -> (r: &[(u8, String)])
        ensures
            table_view(r@) == self@.mapping_table,
    {
        self.mapping_table.as_slice()
    }

    /// Appends a (bit position, description) entry.
    pub fn add_mapping(&mut self, bit_position: u8, description: String)
        ensures
            final(self)@ == (StatusMappingView {
                mapping_table: old(self)@.mapping_table.push((bit_position, description@)),
                ..old(self)@
            }),
    {
        self.mapping_table.push((bit_position, description));
        assert(table_view(self.mapping_table@) =~= old(self)@.mapping_table.push((bit_position, description@)));
    }

    /// Removes every entry of the table.
    pub fn clear_mappings(&mut self)
        ensures
            final(self)@ == (StatusMappingView { mapping_table: Seq::empty(), ..old(self)@ }),
    {
        self.mapping_table.clear();
        assert(table_view(self.mapping_table@) =~= Seq::empty());
    }

    pub fn get_bit_status(&self, bit_position: u8) -> (r: bool)
        ensures
            r == bit_is_set(self@.status_word, bit_position),
    {
        if bit_position < 32 {
            (self.status_word & (1u32 << bit_position)) != 0
        } else {
            false
        }
    }

    /// Sets bit `bit_position` of the status word to `value`; positions from
    /// 32 on are ignored.
    pub fn set_bit(&mut self, bit_position: u8, value: bool)
        ensures
            final(self)@ == (StatusMappingView {
                status_word: with_bit(old(self)@.status_word, bit_position, value),
                ..old(self)@
            }),
    {
        if bit_position < 32 {
            if value {
                self.status_word = self.status_word | (1u32 << bit_position);
            } else {
                self.status_word = self.status_word & !(1u32 << bit_position);
            }
        }
    }

    /// The descriptions of the entries whose bit is set, in table order.
    pub fn get_active_descriptions(&self) -> (r: Vec<&str>)
        ensures
            r@.map_values(|s: &str| s@) == active_descriptions(self@.status_word, self@.mapping_table),
    {
        let mut r: Vec<&str> = Vec::new();
        let mut i: usize = 0;
        while i < self.mapping_table.len()
            invariant
                i <= self.mapping_table@.len(),
                r@.map_values(|s: &str| s@) == active_descriptions(
                    self.status_word,
                    table_view(self.mapping_table@).take(i as int),
                ),
            decreases self.mapping_table@.len() - i,
        {
            let ghost t = table_view(self.mapping_table@);
            assert(t.take(i + 1).drop_last() =~= t.take(i as int));
            let ghost before = r@;
            let entry = &self.mapping_table[i];
            if self.get_bit_status(entry.0) {
                r.push(entry.1.as_str());
                assert(r@.map_values(|s: &str| s@) =~= before.map_values(|s: &str| s@).push(entry.1@));
            }
            i = i + 1;
        }
        assert(table_view(self.mapping_table@).take(i as int) =~= table_view(self.mapping_table@));
        r
    }

    pub fn class_id(&self) -> (r: u16)
        ensures
            r == 63,
    {
        63
    }

    pub fn logical_name(&self) -> (r: ObisCode)
        ensures
            r == self@.logical_name,
    {
        self.logical_name
    }

    pub fn attribute_count(&self) -> (r: u8)
        ensures
            r == 2,
    {
        2
    }

    pub fn method_count(&self) -> (r: u8)
        ensures
            r == 0,
    {
        0
    }

    /// The A-XDR wire form of attribute `attr`.
    pub fn attribute_to_bytes(&self, attr: u8) -> (r: Option<Vec<u8>>)
        ensures
            match r {
                Some(b) => self@.attribute_wire(attr) == Some(b@),
                None => self@.attribute_wire(attr) is None,
            },
    {
        match attr {
            1 => Some(logical_name_bytes(&self.logical_name)),
            2 => {
                let w = self.status_word;
                let bytes = vec![0x06u8, (w >> 24u32) as u8, (w >> 16u32) as u8, (w >> 8u32) as u8, w as u8];
                assert(bytes@ =~= seq![0x06u8] + be_bytes(w));
                Some(bytes)
            },
            3 => {
                let mut bytes: Vec<u8> = vec![0x01u8, self.mapping_table.len() as u8];
                let mut i: usize = 0;
                assert(bytes@ =~= seq![0x01u8, (self@.mapping_table.len() as u8)] + entries_wire(
                    self@.mapping_table.take(0),
                ));
                while i < self.mapping_table.len()
                    invariant
                        i <= self.mapping_table@.len(),
                        bytes@ == seq![0x01u8, (self@.mapping_table.len() as u8)] + entries_wire(
                            self@.mapping_table.take(i as int),
                        ),
                    decreases self.mapping_table@.len() - i,
                {
                    let ghost t = self@.mapping_table;
                    let ghost before = bytes@;
                    let entry = &self.mapping_table[i];
                    let text = entry.1.as_str().as_bytes();
                    bytes.push(0x02u8);
                    bytes.push(0x02u8);
                    bytes.push(0x0Fu8);
                    bytes.push(entry.0);
                    bytes.push(0x09u8);
                    bytes.push(text.len() as u8);
                    let mut j: usize = 0;
                    while j < text.len()
                        invariant
                            j <= text@.len(),
                            bytes@ == before + seq![0x02u8, 0x02u8, 0x0Fu8, entry.0, 0x09u8, (text@.len() as u8)]
                                + text@.take(j as int),
                        decreases text@.len() - j,
                    {
                        bytes.push(text[j]);
                        j = j + 1;
                        assert(bytes@ =~= before + seq![0x02u8, 0x02u8, 0x0Fu8, entry.0, 0x09u8, (text@.len() as u8)]
                            + text@.take(j as int));
                    }
                    assert(t.take(i + 1).drop_last() =~= t.take(i as int));
                    assert(t.take(i + 1).last() == t[i as int]);
                    assert(text@.take(j as int) =~= text@);
                    i = i + 1;
                    assert(bytes@ =~= seq![0x01u8, (self@.mapping_table.len() as u8)] + entries_wire(
                        t.take(i as int),
                    ));
                }
                assert(self@.mapping_table.take(i as int) =~= self@.mapping_table);
                Some(bytes)
            },
            _ => None,
        }
    }

    /// Writes attribute `attr` from its wire form.
    pub fn attribute_from_bytes(&mut self, attr: u8, data: &[u8]) -> (r: Result<(), CosemObjectError>)
        ensures
            (r, final(self)@) == old(self)@.write(attr, data@),
    {
        match attr {
            2 => {
                if data.len() >= 5 {
                    self.status_word = ((data[1] as u32) << 24u32) | ((data[2] as u32) << 16u32) | ((
                    data[3] as u32) << 8u32) | (data[4] as u32);
                }
                Ok(())
            },
            3 => Ok(()),
            _ => Err(CosemObjectError::AttributeNotSupported(attr)),
        }
    }
}

/// Setting a bit and reading it back gives the value set; every other bit
/// keeps its state.
pub proof fn lemma_set_bit_get_bit(word: u32, bit: u8, value: bool, other: u8)
    requires
        bit < 32,
        other != bit,
    ensures
        bit_is_set(with_bit(word, bit, value), bit) == value,
        bit_is_set(with_bit(word, bit, value), other) == bit_is_set(word, other),
{
    let w = word;
    let b = bit;
    let o = other;
    if value {
        assert((w | (1u32 << b)) & (1u32 << b) != 0) by (bit_vector)
            requires b < 32;
        if o < 32 {
            assert(((w | (1u32 << b)) & (1u32 << o) != 0) == ((w & (1u32 << o)) != 0)) by (bit_vector)
                requires b < 32, o < 32, o != b;
        }
    } else {
        assert((w & !(1u32 << b)) & (1u32 << b) == 0) by (bit_vector)
            requires b < 32;
        if o < 32 {
            assert(((w & !(1u32 << b)) & (1u32 << o) != 0) == ((w & (1u32 << o)) != 0)) by (bit_vector)
                requires b < 32, o < 32, o != b;
        }
    }
}

/// Writing the status word from its own wire form restores it.
pub proof fn lemma_status_word_round_trip(v: StatusMappingView)
    ensures
        v.attribute_wire(2) matches Some(b) && v.write(2, b) == (
            Ok::<(), CosemObjectError>(()),
            v,
        ),
{
    let w = v.status_word;
    let b = seq![0x06u8] + be_bytes(w);
    assert(b[1] == (w >> 24u32) as u8 && b[2] == (w >> 16u32) as u8);
    assert(b[3] == (w >> 8u32) as u8 && b[4] == w as u8);
    assert(be_word((w >> 24u32) as u8, (w >> 16u32) as u8, (w >> 8u32) as u8, w as u8) == w) by (bit_vector);
}

/// The active descriptions are exactly the descriptions of the table
/// entries whose bit is set in the status word, each once and in table
/// order: the table filtered by the bit of each entry, then projected onto
/// the descriptions.  In particular the number of descriptions is the
/// number of entries whose bit is set.
pub proof fn lemma_active_descriptions_are_set_entries(word: u32, t: Seq<(u8, Seq<char>)>)
    ensures
        active_descriptions(word, t) == t.filter(|e: (u8, Seq<char>)| bit_is_set(word, e.0)).map_values(
            |e: (u8, Seq<char>)| e.1,
        ),
        active_descriptions(word, t).len() == t.filter(|e: (u8, Seq<char>)| bit_is_set(word, e.0)).len(),
    decreases t.len(),
{
    reveal(Seq::filter);
    let p = |e: (u8, Seq<char>)| bit_is_set(word, e.0);
    if t.len() == 0 {
        assert(t.filter(p) =~= Seq::<(u8, Seq<char>)>::empty());
        assert(t.filter(p).map_values(|e: (u8, Seq<char>)| e.1) =~= Seq::<Seq<char>>::empty());
    } else {
        lemma_active_descriptions_are_set_entries(word, t.drop_last());
        let f = t.drop_last().filter(p);
        if p(t.last()) {
            assert(t.filter(p) == f.push(t.last()));
            assert(f.push(t.last()).map_values(|e: (u8, Seq<char>)| e.1) =~= f.map_values(
                |e: (u8, Seq<char>)| e.1,
            ).push(t.last().1));
        } else {
            assert(t.filter(p) == f);
        }
    }
}

} // verus!
