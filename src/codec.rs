use vstd::prelude::*;

verus! {

/// The big-endian 16-bit number made of a high and a low byte.
pub open spec fn be_combine(hi: u8, lo: u8) -> int {
    hi as int * 256 + lo as int
}

/// The high byte of a 16-bit number.
pub open spec fn hi_byte(v: u16) -> u8 {
    (v as int / 256) as u8
}

/// The low byte of a 16-bit number.
pub open spec fn lo_byte(v: u16) -> u8 {
    (v as int % 256) as u8
}

/// A non-table VCP value as the native layer reports it: the maximum value
/// in `mh`/`ml` and the current value in `sh`/`sl`, each high byte first.
#[derive(Clone, Copy, Debug, PartialEq, Eq)]
pub struct NonTableValue {
    pub mh: u8,
    pub ml: u8,
    pub sh: u8,
    pub sl: u8,
}

/// Decodes a non-table value into `(maximum, current)`.
pub fn decode_non_table(v: NonTableValue) -> (r: (u16, u16))
    ensures
        r.0 as int == be_combine(v.mh, v.ml),
        r.1 as int == be_combine(v.sh, v.sl),
{
    let max = (v.mh as u16) * 256 + v.ml as u16;
    let cur = (v.sh as u16) * 256 + v.sl as u16;
    (max, cur)
}

/// Splits a value that is to be set into its `(high, low)` bytes.
pub fn encode_non_table(value: u16) -> (r: (u8, u8))
    ensures
        r.0 == hi_byte(value),
        r.1 == lo_byte(value),
{
    ((value / 256) as u8, (value % 256) as u8)
}

/// Encoding a value for a set and decoding the same bytes gives the value back.
pub proof fn lemma_non_table_round_trip(value: u16)
    ensures
        be_combine(hi_byte(value), lo_byte(value)) == value as int,
{
}

/// The largest byte count that a table value's 16-bit count field holds.
pub const MAX_TABLE_BYTES: usize = 65535;

/// A table value as the native layer lays it out: a byte count and a buffer,
/// `None` where the buffer pointer is null.
#[derive(Debug)]
pub struct RawTable {
    pub bytect: u16,
    pub bytes: Option<Vec<u8>>,
}

/// The bytes that a raw table value shows: at most `bytect` bytes of its
/// buffer, and none where the count is zero or the buffer is absent.
pub open spec fn table_view(bytect: u16, bytes: Option<Seq<u8>>) -> Seq<u8> {
    match bytes {
        None => Seq::empty(),
        Some(b) => if (bytect as int) < b.len() {
            b.take(bytect as int)
        } else {
            b
        },
    }
}

/// The buffer of a raw table value, as a sequence.
pub open spec fn raw_bytes(raw: &RawTable) -> Option<Seq<u8>> {
    match raw.bytes {
        None => None,
        Some(b) => Some(b@),
    }
}

/// How many elements of a native array may be read: none where the count
/// is zero or negative or the pointer is null, else the count.
pub open spec fn readable_count(count: int, present: bool) -> int {
    if !present || count <= 0 {
        0
    } else {
        count
    }
}

/// The number of elements of a native array that may be read, given its
/// count field and whether its pointer is non-null.
pub fn readable_len(count: i32, present: bool) -> (r: usize)
    ensures
        r as int == readable_count(count as int, present),
{
    if !present || count <= 0 {
        0
    } else {
        count as usize
    }
}

/// A table VCP value: a read-only byte sequence.
#[derive(Debug)]
pub struct TableValue {
    bytes: Vec<u8>,
}

impl View for TableValue {
    type V = Seq<u8>;

    closed spec fn view(&self) -> Seq<u8> {
        self.bytes@
    }
}

impl TableValue {
    /// A table value holding exactly the given bytes.
    pub fn from_bytes(bytes: Vec<u8>) -> (r: TableValue)
        ensures
            r@ == bytes@,
    {
        TableValue { bytes }
    }

    /// Decodes a raw table value: the view is bounded by the count, and a
    /// zero count or an absent buffer gives an empty view.
    pub fn decode(raw: RawTable) -> (r: TableValue)
        ensures
            r@ == table_view(raw.bytect, raw_bytes(&raw)),
    {
        match raw.bytes {
            None => TableValue { bytes: Vec::new() },
            Some(mut b) => {
                if (raw.bytect as usize) < b.len() {
                    b.truncate(raw.bytect as usize);
                }
                TableValue { bytes: b }
            },
        }
    }

    /// The bytes of the value.
    pub fn as_slice(&self) -> (r: &[u8])
        ensures
            r@ == self@,
    {
        self.bytes.as_slice()
    }
}

/// Wraps bytes that are to be set as a table value with their count; `None`
/// where there are more bytes than the count field holds.
pub fn encode_table(val: &[u8]) -> (r: Option<RawTable>)
    ensures
        r.is_some() <==> val@.len() <= MAX_TABLE_BYTES,
        r.is_some() ==> r->0.bytect as int == val@.len() && raw_bytes(&r->0) == Some(val@),
{
    if val.len() > MAX_TABLE_BYTES {
        return None;
    }
    let mut bytes: Vec<u8> = Vec::with_capacity(val.len());
    let mut i: usize = 0;
    while i < val.len()
        invariant
            i <= val@.len(),
            bytes@ == val@.take(i as int),
        decreases val@.len() - i,
    {
        bytes.push(val[i]);
        i += 1;
        proof {
            assert(bytes@ =~= val@.take(i as int));
        }
    }
    proof {
        assert(val@.take(val@.len() as int) =~= val@);
    }
    Some(RawTable { bytect: val.len() as u16, bytes: Some(bytes) })
}

/// Setting a byte sequence as a table value and reading back what was set
/// gives the same bytes, for every length that the count field holds.
pub proof fn lemma_table_round_trip(val: Seq<u8>)
    requires
        val.len() <= MAX_TABLE_BYTES,
    ensures
        table_view(val.len() as u16, Some(val)) == val,
{
}

} // verus!
