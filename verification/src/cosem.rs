//! Shared COSEM value model: OBIS codes, data values, date-time and errors.

use vstd::prelude::*;

verus! {

/// A six-group OBIS identifier `A-B:C.D.E*F`.
#[derive(Clone, Copy, Debug, PartialEq, Eq, Structural)]
pub struct ObisCode {
    pub a: u8,
    pub b: u8,
    pub c: u8,
    pub d: u8,
    pub e: u8,
    pub f: u8,
}

impl View for ObisCode {
    type V = Seq<u8>;

    /// The six value groups in order.
    open spec fn view(&self) -> Seq<u8> {
        seq![self.a, self.b, self.c, self.d, self.e, self.f]
    }
}

impl ObisCode {
    pub fn new(a: u8, b: u8, c: u8, d: u8, e: u8, f: u8) -> (r: ObisCode)
        ensures
            r == (ObisCode { a, b, c, d, e, f }),
    {
        ObisCode { a, b, c, d, e, f }
    }

    /// The value groups as six bytes.
    pub fn to_bytes(&self) -> (r: [u8; 6])
        ensures
            r@ == self@,
    {
        let r = [self.a, self.b, self.c, self.d, self.e, self.f];
        assert(r@ =~= self@);
        r
    }

    /// Builds an OBIS code from its six value groups.
    pub fn from_bytes(bytes: [u8; 6]) -> (r: ObisCode)
        ensures
            r@ == bytes@,
    {
        let r = ObisCode {
            a: bytes[0],
            b: bytes[1],
            c: bytes[2],
            d: bytes[3],
            e: bytes[4],
            f: bytes[5],
        };
        assert(r@ =~= bytes@);
        r
    }
}

/// Two OBIS codes are the same code exactly when their value groups agree.
pub proof fn lemma_obis_view_injective(x: ObisCode, y: ObisCode)
    ensures
        x@ == y@ <==> x == y,
{
    if x@ == y@ {
        assert(x@[0] == y@[0] && x@[1] == y@[1] && x@[2] == y@[2]);
        assert(x@[3] == y@[3] && x@[4] == y@[4] && x@[5] == y@[5]);
    }
}

/// A COSEM data value, as the A-XDR codec carries it.
#[derive(Debug, PartialEq)]
pub enum DlmsData {
    NullData,
    Boolean(bool),
    Integer(i8),
    Long(i16),
    DoubleLong(i32),
    Unsigned(u8),
    LongUnsigned(u16),
    DoubleLongUnsigned(u32),
    Enum(u8),
    OctetString(Vec<u8>),
    VisibleString(String),
    Utf8String(String),
    DateTime([u8; 12]),
    Time([u8; 4]),
    Array(Vec<DlmsData>),
    Structure(Vec<DlmsData>),
}

/// The mathematical value of a [`DlmsData`]: the same shape with sequences
/// in place of vectors, strings and arrays.
pub enum DataView {
    NullData,
    Boolean(bool),
    Integer(i8),
    Long(i16),
    DoubleLong(i32),
    Unsigned(u8),
    LongUnsigned(u16),
    DoubleLongUnsigned(u32),
    Enum(u8),
    OctetString(Seq<u8>),
    VisibleString(Seq<char>),
    Utf8String(Seq<char>),
    DateTime(Seq<u8>),
    Time(Seq<u8>),
    Array(Seq<DataView>),
    Structure(Seq<DataView>),
}

/// The value of one data item.
pub open spec fn data_view(d: DlmsData) -> DataView
    decreases d,
{
    match d {
        DlmsData::NullData => DataView::NullData,
        DlmsData::Boolean(b) => DataView::Boolean(b),
        DlmsData::Integer(v) => DataView::Integer(v),
        DlmsData::Long(v) => DataView::Long(v),
        DlmsData::DoubleLong(v) => DataView::DoubleLong(v),
        DlmsData::Unsigned(v) => DataView::Unsigned(v),
        DlmsData::LongUnsigned(v) => DataView::LongUnsigned(v),
        DlmsData::DoubleLongUnsigned(v) => DataView::DoubleLongUnsigned(v),
        DlmsData::Enum(v) => DataView::Enum(v),
        DlmsData::OctetString(v) => DataView::OctetString(v@),
        DlmsData::VisibleString(s) => DataView::VisibleString(s@),
        DlmsData::Utf8String(s) => DataView::Utf8String(s@),
        DlmsData::DateTime(b) => DataView::DateTime(b@),
        DlmsData::Time(b) => DataView::Time(b@),
        DlmsData::Array(items) => DataView::Array(items_view(items@)),
        DlmsData::Structure(items) => DataView::Structure(items_view(items@)),
    }
}

/// The values of a sequence of data items, element by element.
pub open spec fn items_view(s: Seq<DlmsData>) -> Seq<DataView>
    decreases s,
{
    if s.len() == 0 {
        Seq::empty()
    } else {
        items_view(s.drop_last()).push(data_view(s.last()))
    }
}

impl View for DlmsData {
    type V = DataView;

    open spec fn view(&self) -> DataView {
        data_view(*self)
    }
}

/// `items_view` maps each element to its value and keeps the length.
pub proof fn lemma_items_view(s: Seq<DlmsData>)
    ensures
        items_view(s).len() == s.len(),
        forall|i: int| 0 <= i < s.len() ==> #[trigger] items_view(s)[i] == data_view(s[i]),
    decreases s.len(),
{
    if s.len() > 0 {
        lemma_items_view(s.drop_last());
    }
}

/// Two sequences of data items with element-wise equal values have equal values.
pub proof fn lemma_items_view_ext(s: Seq<DlmsData>, t: Seq<DlmsData>)
    requires
        s.len() == t.len(),
        forall|i: int| 0 <= i < s.len() ==> data_view(#[trigger] s[i]) == data_view(t[i]),
    ensures
        items_view(s) == items_view(t),
{
    lemma_items_view(s);
    lemma_items_view(t);
    assert(items_view(s) =~= items_view(t));
}

/// A sequence of data items whose values are, element by element, the given
/// values has exactly those values.
pub proof fn lemma_items_view_eq(s: Seq<DlmsData>, t: Seq<DataView>)
    requires
        s.len() == t.len(),
        forall|j: int| 0 <= j < s.len() ==> data_view(#[trigger] s[j]) == t[j],
    ensures
        items_view(s) == t,
{
    lemma_items_view(s);
    assert(items_view(s) =~= t);
}

impl DlmsData {
    /// A copy of this value.
    pub fn copy(&self) -> (r: DlmsData)
        ensures
            r@ == self@,
        decreases self,
    {
        match self {
            DlmsData::NullData => DlmsData::NullData,
            DlmsData::Boolean(b) => DlmsData::Boolean(*b),
            DlmsData::Integer(v) => DlmsData::Integer(*v),
            DlmsData::Long(v) => DlmsData::Long(*v),
            DlmsData::DoubleLong(v) => DlmsData::DoubleLong(*v),
            DlmsData::Unsigned(v) => DlmsData::Unsigned(*v),
            DlmsData::LongUnsigned(v) => DlmsData::LongUnsigned(*v),
            DlmsData::DoubleLongUnsigned(v) => DlmsData::DoubleLongUnsigned(*v),
            DlmsData::Enum(v) => DlmsData::Enum(*v),
            DlmsData::OctetString(v) => DlmsData::OctetString(copy_bytes(v.as_slice())),
            DlmsData::VisibleString(s) => DlmsData::VisibleString(s.clone()),
            DlmsData::Utf8String(s) => DlmsData::Utf8String(s.clone()),
            DlmsData::DateTime(b) => DlmsData::DateTime(*b),
            DlmsData::Time(b) => DlmsData::Time(*b),
            DlmsData::Array(items) => DlmsData::Array(copy_items(items)),
            DlmsData::Structure(items) => DlmsData::Structure(copy_items(items)),
        }
    }
}

/// A copy of a byte vector.
pub fn copy_bytes(v: &[u8]) -> (r: Vec<u8>)
    ensures
        r@ == v@,
{
    let mut r: Vec<u8> = Vec::new();
    let mut i: usize = 0;
    while i < v.len()
        invariant
            i <= v.len(),
            r@ == v@.subrange(0, i as int),
        decreases v.len() - i,
    {
        r.push(v[i]);
        i = i + 1;
    }
    assert(r@ =~= v@);
    r
}

/// Whether two byte strings are equal.
pub fn bytes_eq(a: &[u8], b: &[u8]) -> (r: bool)
    ensures
        r == (a@ == b@),
{
    if a.len() != b.len() {
        return false;
    }
    let mut i: usize = 0;
    while i < a.len()
        invariant
            i <= a@.len(),
            a@.len() == b@.len(),
            forall|j: int| 0 <= j < i ==> a@[j] == b@[j],
        decreases a@.len() - i,
    {
        if a[i] != b[i] {
            return false;
        }
        i = i + 1;
    }
    assert(a@ =~= b@);
    true
}

/// A copy of a vector of data items.
pub fn copy_items(items: &Vec<DlmsData>) -> (r: Vec<DlmsData>)
    ensures
        items_view(r@) == items_view(items@),
    decreases items,
{
    let mut r: Vec<DlmsData> = Vec::new();
    let mut i: usize = 0;
    while i < items.len()
        invariant
            i <= items.len(),
            r@.len() == i,
            forall|j: int| 0 <= j < i ==> data_view(#[trigger] r@[j]) == data_view(items@[j]),
        decreases items.len() - i,
    {
        proof {
            vstd::std_specs::vec::axiom_vec_index_decreases(*items, i as int);
        }
        let c = items[i].copy();
        r.push(c);
        i = i + 1;
    }
    proof {
        lemma_items_view_ext(r@, items@);
    }
    r
}

/// Why a COSEM attribute access or method invocation was refused.
#[derive(Clone, Copy, Debug, PartialEq, Eq, Structural)]
pub enum CosemObjectError {
    /// The attribute does not exist or cannot be written.
    AttributeNotSupported(u8),
    /// The method does not exist.
    MethodNotSupported(u8),
    /// The supplied value has the wrong type or shape.
    InvalidData,
}

/// The number of bytes in a COSEM date-time.
pub const DATE_TIME_LEN: usize = 12;

/// A COSEM date-time; a field that is `None` is not specified.
#[derive(Clone, Copy, Debug, PartialEq, Eq, Structural)]
pub struct CosemDateTime {
    pub year: Option<u16>,
    pub month: Option<u8>,
    pub day: Option<u8>,
    pub day_of_week: Option<u8>,
    pub hour: Option<u8>,
    pub minute: Option<u8>,
    pub second: Option<u8>,
    pub hundredths: Option<u8>,
    pub deviation: Option<i16>,
    pub clock_status: Option<u8>,
}

/// A byte field on the wire: its value, or 0 where it is not specified.
pub open spec fn byte_or_zero(o: Option<u8>) -> u8 {
    match o {
        Some(v) => v,
        None => 0,
    }
}

/// A two-byte field on the wire: its value, or 0 where it is not specified.
pub open spec fn word_or_zero(o: Option<u16>) -> u16 {
    match o {
        Some(v) => v,
        None => 0,
    }
}

/// The deviation on the wire, as the unsigned word of its two's complement.
pub open spec fn deviation_word(o: Option<i16>) -> u16 {
    match o {
        Some(v) => v as u16,
        None => 0,
    }
}

/// The twelve wire bytes of a date-time: year (high, low), month, day,
/// weekday, hour, minute, second, hundredths, deviation (high, low),
/// clock status; unspecified fields are sent as zeros.
pub open spec fn date_time_wire(dt: CosemDateTime) -> Seq<u8> {
    seq![
        (word_or_zero(dt.year) / 256) as u8,
        (word_or_zero(dt.year) % 256) as u8,
        byte_or_zero(dt.month),
        byte_or_zero(dt.day),
        byte_or_zero(dt.day_of_week),
        byte_or_zero(dt.hour),
        byte_or_zero(dt.minute),
        byte_or_zero(dt.second),
        byte_or_zero(dt.hundredths),
        (deviation_word(dt.deviation) / 256) as u8,
        (deviation_word(dt.deviation) % 256) as u8,
        byte_or_zero(dt.clock_status),
    ]
}

/// The date-time read from twelve wire bytes: every field specified.
pub open spec fn date_time_from_wire(b: Seq<u8>) -> CosemDateTime {
    CosemDateTime {
        year: Some((b[0] * 256 + b[1]) as u16),
        month: Some(b[2]),
        day: Some(b[3]),
        day_of_week: Some(b[4]),
        hour: Some(b[5]),
        minute: Some(b[6]),
        second: Some(b[7]),
        hundredths: Some(b[8]),
        deviation: Some(((b[9] * 256 + b[10]) as u16) as i16),
        clock_status: Some(b[11]),
    }
}

/// The date-time with no field specified.
pub open spec fn unspecified_date_time() -> CosemDateTime {
    CosemDateTime {
        year: None,
        month: None,
        day: None,
        day_of_week: None,
        hour: None,
        minute: None,
        second: None,
        hundredths: None,
        deviation: None,
        clock_status: None,
    }
}

fn byte_field(o: Option<u8>) -> (r: u8)
    ensures
        r == byte_or_zero(o),
{
    match o {
        Some(v) => v,
        None => 0,
    }
}

impl CosemDateTime {
    /// A date-time with only the calendar date specified.
    pub fn with_date(year: u16, month: u8, day: u8) -> (r: CosemDateTime)
        ensures
            r == (CosemDateTime { year: Some(year), month: Some(month), day: Some(day), ..unspecified_date_time() }),
    {
        CosemDateTime {
            year: Some(year),
            month: Some(month),
            day: Some(day),
            day_of_week: None,
            hour: None,
            minute: None,
            second: None,
            hundredths: None,
            deviation: None,
            clock_status: None,
        }
    }

    /// Whether year, month and day are all specified.
    pub fn is_date_specified(&self) -> (r: bool)
        ensures
            r == (self.year is Some && self.month is Some && self.day is Some),
    {
        self.year.is_some() && self.month.is_some() && self.day.is_some()
    }

    /// The twelve wire bytes.
    pub fn to_bytes(&self) -> (r: [u8; 12])
        ensures
            r@ == date_time_wire(*self),
    {
        let y: u16 = match self.year {
            Some(v) => v,
            None => 0,
        };
        let d: u16 = match self.deviation {
            Some(v) => v as u16,
            None => 0,
        };
        let r = [
            (y / 256) as u8,
            (y % 256) as u8,
            byte_field(self.month),
            byte_field(self.day),
            byte_field(self.day_of_week),
            byte_field(self.hour),
            byte_field(self.minute),
            byte_field(self.second),
            byte_field(self.hundredths),
            (d / 256) as u8,
            (d % 256) as u8,
            byte_field(self.clock_status),
        ];
        assert(r@ =~= date_time_wire(*self));
        r
    }

    /// Reads a date-time from its wire form; `None` unless exactly twelve
    /// bytes are given.
    pub fn from_bytes(bytes: &[u8]) -> (r: Option<CosemDateTime>)
        ensures
            bytes@.len() == 12 <==> r is Some,
            r matches Some(dt) ==> dt == date_time_from_wire(bytes@),
    {
        if bytes.len() != DATE_TIME_LEN {
            return None;
        }
        let year: u16 = bytes[0] as u16 * 256 + bytes[1] as u16;
        let dev: u16 = bytes[9] as u16 * 256 + bytes[10] as u16;
        Some(CosemDateTime {
            year: Some(year),
            month: Some(bytes[2]),
            day: Some(bytes[3]),
            day_of_week: Some(bytes[4]),
            hour: Some(bytes[5]),
            minute: Some(bytes[6]),
            second: Some(bytes[7]),
            hundredths: Some(bytes[8]),
            deviation: Some(dev as i16),
            clock_status: Some(bytes[11]),
        })
    }
}

impl Default for CosemDateTime {
    /// The date-time with no field specified.
    fn default() -> (r: CosemDateTime)
        ensures
            r == unspecified_date_time(),
    {
        CosemDateTime {
            year: None,
            month: None,
            day: None,
            day_of_week: None,
            hour: None,
            minute: None,
            second: None,
            hundredths: None,
            deviation: None,
            clock_status: None,
        }
    }
}

/// Every twelve wire bytes are what their date-time sends.
pub proof fn lemma_wire_date_time_wire(b: Seq<u8>)
    requires
        b.len() == 12,
    ensures
        date_time_wire(date_time_from_wire(b)) == b,
{
    let (b0, b1, b9, b10) = (b[0], b[1], b[9], b[10]);
    assert(((b0 * 256 + b1) as u16) / 256 == b0 && ((b0 * 256 + b1) as u16) % 256 == b1) by (nonlinear_arith)
        requires
            b0 <= 255,
            b1 <= 255,
    ;
    assert((((b9 * 256 + b10) as u16) as i16) as u16 == (b9 * 256 + b10) as u16) by (bit_vector);
    assert(((b9 * 256 + b10) as u16) / 256 == b9 && ((b9 * 256 + b10) as u16) % 256 == b10) by (nonlinear_arith)
        requires
            b9 <= 255,
            b10 <= 255,
    ;
    assert(date_time_wire(date_time_from_wire(b)) =~= b);
}

/// A date-time with every field specified survives its wire form; one
/// with unspecified fields reads back with zeros in their place.
pub proof fn lemma_date_time_round_trip(dt: CosemDateTime)
    ensures
        date_time_from_wire(date_time_wire(dt)) == (CosemDateTime {
            year: Some(word_or_zero(dt.year)),
            month: Some(byte_or_zero(dt.month)),
            day: Some(byte_or_zero(dt.day)),
            day_of_week: Some(byte_or_zero(dt.day_of_week)),
            hour: Some(byte_or_zero(dt.hour)),
            minute: Some(byte_or_zero(dt.minute)),
            second: Some(byte_or_zero(dt.second)),
            hundredths: Some(byte_or_zero(dt.hundredths)),
            deviation: Some(deviation_word(dt.deviation) as i16),
            clock_status: Some(byte_or_zero(dt.clock_status)),
        }),
{
    let y = word_or_zero(dt.year);
    let d = deviation_word(dt.deviation);
    assert(((y / 256) as u8) * 256 + ((y % 256) as u8) == y) by (nonlinear_arith);
    assert(((d / 256) as u8) * 256 + ((d % 256) as u8) == d) by (nonlinear_arith);
}

/// A date-time with every field specified reads back as itself.
pub proof fn lemma_specified_date_time_round_trip(dt: CosemDateTime)
    requires
        dt.year is Some,
        dt.month is Some,
        dt.day is Some,
        dt.day_of_week is Some,
        dt.hour is Some,
        dt.minute is Some,
        dt.second is Some,
        dt.hundredths is Some,
        dt.deviation is Some,
        dt.clock_status is Some,
    ensures
        date_time_from_wire(date_time_wire(dt)) == dt,
{
    lemma_date_time_round_trip(dt);
    let v = dt.deviation->0;
    assert((v as u16) as i16 == v) by (bit_vector);
}

/// An all-zero date-time value, the "not yet set" time stamp used by the
/// interface classes.
pub open spec fn is_zero_date_time(d: DataView) -> bool {
    d == DataView::DateTime(Seq::new(12, |i: int| 0u8))
}

/// Builds the all-zero date-time value.
pub fn zero_date_time() -> (r: DlmsData)
    ensures
        is_zero_date_time(r@),
{
    let r = DlmsData::DateTime([0u8; 12]);
    assert(r@ == DataView::DateTime(Seq::new(12, |i: int| 0u8))) by {
        if let DlmsData::DateTime(b) = r {
            assert(b@ =~= Seq::new(12, |i: int| 0u8));
        }
    }
    r
}

/// The value as a signed 32-bit integer, where it is an integer kind that
/// converts to one (a double-long-unsigned is taken bit for bit).
pub open spec fn view_as_i32(d: DataView) -> Option<i32> {
    match d {
        DataView::Integer(v) => Some(v as i32),
        DataView::Long(v) => Some(v as i32),
        DataView::DoubleLong(v) => Some(v),
        DataView::Unsigned(v) => Some(v as i32),
        DataView::LongUnsigned(v) => Some(v as i32),
        DataView::DoubleLongUnsigned(v) => Some(v as i32),
        _ => None,
    }
}

/// The value as a byte, where it is an unsigned or an enum.
pub open spec fn view_as_u8(d: DataView) -> Option<u8> {
    match d {
        DataView::Unsigned(v) => Some(v),
        DataView::Enum(v) => Some(v),
        _ => None,
    }
}

/// The value as a boolean, where it is one.
pub open spec fn view_as_bool(d: DataView) -> Option<bool> {
    match d {
        DataView::Boolean(b) => Some(b),
        _ => None,
    }
}

/// The bytes of an octet-string value.
pub open spec fn view_as_octet_string(d: DataView) -> Option<Seq<u8>> {
    match d {
        DataView::OctetString(v) => Some(v),
        _ => None,
    }
}

impl DlmsData {
    pub fn as_i32(&self) -> (r: Option<i32>)
        ensures
            r == view_as_i32(self@),
    {
        match self {
            DlmsData::Integer(v) => Some(*v as i32),
            DlmsData::Long(v) => Some(*v as i32),
            DlmsData::DoubleLong(v) => Some(*v),
            DlmsData::Unsigned(v) => Some(*v as i32),
            DlmsData::LongUnsigned(v) => Some(*v as i32),
            DlmsData::DoubleLongUnsigned(v) => Some(*v as i32),
            _ => None,
        }
    }

    pub fn as_u8(&self) -> (r: Option<u8>)
        ensures
            r == view_as_u8(self@),
    {
        match self {
            DlmsData::Unsigned(v) => Some(*v),
            DlmsData::Enum(v) => Some(*v),
            _ => None,
        }
    }

    pub fn as_bool(&self) -> (r: Option<bool>)
        ensures
            r == view_as_bool(self@),
    {
        match self {
            DlmsData::Boolean(b) => Some(*b),
            _ => None,
        }
    }

    pub fn as_octet_string(&self) -> (r: Option<&[u8]>)
        ensures
            match r {
                Some(b) => view_as_octet_string(self@) == Some(b@),
                None => view_as_octet_string(self@) is None,
            },
    {
        match self {
            DlmsData::OctetString(v) => Some(v.as_slice()),
            _ => None,
        }
    }
}

/// The A-XDR form of a logical name: octet-string tag, length six, the six
/// value groups.
pub open spec fn logical_name_wire(ln: ObisCode) -> Seq<u8> {
    seq![0x09u8, 0x06u8] + ln@
}

/// Encodes a logical name (attribute 1 of every interface class).
pub fn logical_name_bytes(ln: &ObisCode) -> (r: Vec<u8>)
    ensures
        r@ == logical_name_wire(*ln),
{
    let r = vec![0x09u8, 0x06u8, ln.a, ln.b, ln.c, ln.d, ln.e, ln.f];
    assert(r@ =~= logical_name_wire(*ln));
    r
}

/// The logical name as an octet-string value.
pub open spec fn logical_name_value(ln: ObisCode) -> DataView {
    DataView::OctetString(ln@)
}

/// Builds the octet-string value of a logical name.
pub fn logical_name_data(ln: &ObisCode) -> (r: DlmsData)
    ensures
        r@ == logical_name_value(*ln),
{
    let b = ln.to_bytes();
    DlmsData::OctetString(copy_bytes(&b))
}

/// The reply bytes of an outcome, as a mathematical sequence.
pub open spec fn reply_view(r: Result<Vec<u8>, CosemObjectError>) -> Result<Seq<u8>, CosemObjectError> {
    match r {
        Ok(v) => Ok(v@),
        Err(e) => Err(e),
    }
}

/// The value of an optional data item.
pub open spec fn opt_view(o: Option<DlmsData>) -> Option<DataView> {
    match o {
        Some(d) => Some(d@),
        None => None,
    }
}

/// The integer in a value, or the given fallback where the value holds none.
pub open spec fn i32_or(d: DataView, fallback: i32) -> i32 {
    match view_as_i32(d) {
        Some(v) => v,
        None => fallback,
    }
}

/// The variant of a value, as a small number (equal for values of the same kind).
pub open spec fn kind(d: DataView) -> u8 {
    match d {
        DataView::NullData => 0,
        DataView::Boolean(_) => 1,
        DataView::Integer(_) => 2,
        DataView::Long(_) => 3,
        DataView::DoubleLong(_) => 4,
        DataView::Unsigned(_) => 5,
        DataView::LongUnsigned(_) => 6,
        DataView::DoubleLongUnsigned(_) => 7,
        DataView::Enum(_) => 8,
        DataView::OctetString(_) => 9,
        DataView::VisibleString(_) => 10,
        DataView::Utf8String(_) => 11,
        DataView::DateTime(_) => 12,
        DataView::Time(_) => 13,
        DataView::Array(_) => 14,
        DataView::Structure(_) => 15,
    }
}

/// Whether two values are of the same kind.
pub open spec fn same_kind(a: DataView, b: DataView) -> bool {
    kind(a) == kind(b)
}

/// The scaler-unit structure of a register: scaler and unit as enums.
pub open spec fn scaler_unit_value(scaler: i8, unit: u8) -> DataView {
    DataView::Structure(seq![DataView::Enum(scaler as u8), DataView::Enum(unit)])
}

/// Builds the scaler-unit structure of a register.
pub fn scaler_unit_data(scaler: i8, unit: u8) -> (r: DlmsData)
    ensures
        r@ == scaler_unit_value(scaler, unit),
{
    let items = vec![DlmsData::Enum(scaler as u8), DlmsData::Enum(unit)];
    proof {
        lemma_items_view(items@);
        assert(items_view(items@) =~= seq![DataView::Enum(scaler as u8), DataView::Enum(unit)]);
    }
    DlmsData::Structure(items)
}

} // verus!
