//! Advertising and scan-response records: their typed form and their
//! type-length-value wire form.
use crate::bluetooth::uuid::{uuid_bytes_from_slice, BtUuid};
use vstd::prelude::*;
use vstd::utf8::{decode_utf8, encode_utf8, valid_utf8};

verus! {

/// Record type of the flags.
pub const BT_DATA_FLAGS: u8 = 0x01;

/// Record type of an incomplete list of 16-bit service UUIDs.
pub const BT_DATA_UUID16_SOME: u8 = 0x02;

/// Record type of a complete list of 16-bit service UUIDs.
pub const BT_DATA_UUID16_ALL: u8 = 0x03;

/// Record type of an incomplete list of 32-bit service UUIDs.
pub const BT_DATA_UUID32_SOME: u8 = 0x04;

/// Record type of a complete list of 32-bit service UUIDs.
pub const BT_DATA_UUID32_ALL: u8 = 0x05;

/// Record type of an incomplete list of 128-bit service UUIDs.
pub const BT_DATA_UUID128_SOME: u8 = 0x06;

/// Record type of a complete list of 128-bit service UUIDs.
pub const BT_DATA_UUID128_ALL: u8 = 0x07;

/// Record type of a shortened local name.
pub const BT_DATA_NAME_SHORTENED: u8 = 0x08;

/// Record type of a complete local name.
pub const BT_DATA_NAME_COMPLETE: u8 = 0x09;

/// The largest payload a record can carry: its length byte counts the type
/// byte too.
pub const MAX_PAYLOAD_LEN: usize = 254;

/// A list of service UUIDs, all of one width.
#[derive(Debug)]
pub enum UuidList {
    Short16(Vec<u16>),
    Short32(Vec<u32>),
    Full128(Vec<BtUuid>),
}

/// The contents of a [`UuidList`].
pub enum UuidListView {
    Short16(Seq<u16>),
    Short32(Seq<u32>),
    Full128(Seq<Seq<u8>>),
}

impl View for UuidList {
    type V = UuidListView;

    open spec fn view(&self) -> UuidListView {
        match self {
            UuidList::Short16(v) => UuidListView::Short16(v@),
            UuidList::Short32(v) => UuidListView::Short32(v@),
            UuidList::Full128(v) => UuidListView::Full128(v@.map_values(|u: BtUuid| u@)),
        }
    }
}

/// One element of advertising or scan-response data.
#[derive(Debug)]
pub enum BtData {
    Flags(u8),
    UuidIncomplete(UuidList),
    UuidAll(UuidList),
    CompleteName(String),
    ShortenedName(String),
    /// A record of a type that this library does not interpret, with its payload.
    UnknownType(u8, Vec<u8>),
}

/// The contents of a [`BtData`].
pub enum RecordView {
    Flags(u8),
    UuidIncomplete(UuidListView),
    UuidAll(UuidListView),
    CompleteName(Seq<char>),
    ShortenedName(Seq<char>),
    UnknownType(u8, Seq<u8>),
}

impl View for BtData {
    type V = RecordView;

    open spec fn view(&self) -> RecordView {
        match self {
            BtData::Flags(f) => RecordView::Flags(*f),
            BtData::UuidIncomplete(l) => RecordView::UuidIncomplete(l@),
            BtData::UuidAll(l) => RecordView::UuidAll(l@),
            BtData::CompleteName(s) => RecordView::CompleteName(s@),
            BtData::ShortenedName(s) => RecordView::ShortenedName(s@),
            BtData::UnknownType(t, p) => RecordView::UnknownType(*t, p@),
        }
    }
}

/// Byte `k` (0 or 1) of a 16-bit value, least significant first.
pub open spec fn le16_byte(v: u16, k: int) -> u8 {
    if k == 0 {
        v as u8
    } else {
        (v >> 8u16) as u8
    }
}

/// Byte `k` (0 to 3) of a 32-bit value, least significant first.
pub open spec fn le32_byte(v: u32, k: int) -> u8 {
    if k == 0 {
        v as u8
    } else if k == 1 {
        (v >> 8u32) as u8
    } else if k == 2 {
        (v >> 16u32) as u8
    } else {
        (v >> 24u32) as u8
    }
}

/// The 16-bit value of two bytes, least significant first.
pub open spec fn le16_value(b0: u8, b1: u8) -> u16 {
    (b0 as u16) | ((b1 as u16) << 8u16)
}

/// The 32-bit value of four bytes, least significant first.
pub open spec fn le32_value(b0: u8, b1: u8, b2: u8, b3: u8) -> u32 {
    (b0 as u32) | ((b1 as u32) << 8u32) | ((b2 as u32) << 16u32) | ((b3 as u32) << 24u32)
}

/// The on-air bytes of a UUID list: each UUID in turn, short ones least
/// significant byte first, full ones as held.
pub open spec fn list_payload(l: UuidListView) -> Seq<u8> {
    match l {
        UuidListView::Short16(v) => Seq::new(2 * v.len(), |i: int| le16_byte(v[i / 2], i % 2)),
        UuidListView::Short32(v) => Seq::new(4 * v.len(), |i: int| le32_byte(v[i / 4], i % 4)),
        UuidListView::Full128(v) => Seq::new(16 * v.len(), |i: int| v[i / 16][i % 16]),
    }
}

/// The record type of a UUID list, by its width and whether it is complete.
pub open spec fn list_type(l: UuidListView, complete: bool) -> u8 {
    match l {
        UuidListView::Short16(_) => if complete {
            BT_DATA_UUID16_ALL
        } else {
            BT_DATA_UUID16_SOME
        },
        UuidListView::Short32(_) => if complete {
            BT_DATA_UUID32_ALL
        } else {
            BT_DATA_UUID32_SOME
        },
        UuidListView::Full128(_) => if complete {
            BT_DATA_UUID128_ALL
        } else {
            BT_DATA_UUID128_SOME
        },
    }
}

/// The type byte of a record.
pub open spec fn record_type(r: RecordView) -> u8 {
    match r {
        RecordView::Flags(_) => BT_DATA_FLAGS,
        RecordView::UuidIncomplete(l) => list_type(l, false),
        RecordView::UuidAll(l) => list_type(l, true),
        RecordView::CompleteName(_) => BT_DATA_NAME_COMPLETE,
        RecordView::ShortenedName(_) => BT_DATA_NAME_SHORTENED,
        RecordView::UnknownType(t, _) => t,
    }
}

/// The payload of a record: the flags byte, the UUIDs' bytes, the UTF-8 bytes
/// of a name, or the bytes of an uninterpreted record as they are.
pub open spec fn record_payload(r: RecordView) -> Seq<u8> {
    match r {
        RecordView::Flags(f) => seq![f],
        RecordView::UuidIncomplete(l) => list_payload(l),
        RecordView::UuidAll(l) => list_payload(l),
        RecordView::CompleteName(s) => encode_utf8(s),
        RecordView::ShortenedName(s) => encode_utf8(s),
        RecordView::UnknownType(_, p) => p,
    }
}

/// Whether a record's length fits in its length byte.
pub open spec fn encodable(r: RecordView) -> bool {
    record_payload(r).len() <= MAX_PAYLOAD_LEN
}

/// The wire form of a type and a payload: `[type][1 + payload length][payload]`.
pub open spec fn tlv(t: u8, p: Seq<u8>) -> Seq<u8> {
    seq![t, (p.len() + 1) as u8] + p
}

/// The wire form of a record.
pub open spec fn record_encoding(r: RecordView) -> Seq<u8> {
    tlv(record_type(r), record_payload(r))
}

/// The wire form of a sequence of records: their encodings one after another.
pub open spec fn sequence_encoding(rs: Seq<RecordView>) -> Seq<u8>
    decreases rs.len(),
{
    if rs.len() == 0 {
        Seq::empty()
    } else {
        sequence_encoding(rs.drop_last()) + record_encoding(rs.last())
    }
}

/// A record type with its payload, as carried on the wire.
pub struct RawBtData {
    type_: u8,
    data: Vec<u8>,
}

impl View for RawBtData {
    type V = (u8, Seq<u8>);

    closed spec fn view(&self) -> (u8, Seq<u8>) {
        (self.type_, self.data@)
    }
}

fn encode_list16(v: &Vec<u16>, out: &mut Vec<u8>)
    ensures
        final(out)@ == old(out)@ + list_payload(UuidListView::Short16(v@)),
{
    let ghost start = out@;
    let mut i: usize = 0;
    while i < v.len()
        invariant
            i <= v@.len(),
            out@ =~= start + Seq::new(2 * i as nat, |j: int| le16_byte(v@[j / 2], j % 2)),
        decreases v@.len() - i,
    {
        let x = v[i];
        out.push(x as u8);
        out.push((x >> 8u16) as u8);
        i = i + 1;
    }
}

fn encode_list32(v: &Vec<u32>, out: &mut Vec<u8>)
    ensures
        final(out)@ == old(out)@ + list_payload(UuidListView::Short32(v@)),
{
    let ghost start = out@;
    let mut i: usize = 0;
    while i < v.len()
        invariant
            i <= v@.len(),
            out@ =~= start + Seq::new(4 * i as nat, |j: int| le32_byte(v@[j / 4], j % 4)),
        decreases v@.len() - i,
    {
        let x = v[i];
        out.push(x as u8);
        out.push((x >> 8u32) as u8);
        out.push((x >> 16u32) as u8);
        out.push((x >> 24u32) as u8);
        i = i + 1;
    }
}

fn encode_list128(v: &Vec<BtUuid>, out: &mut Vec<u8>)
    ensures
        final(out)@ == old(out)@ + list_payload(
            UuidListView::Full128(v@.map_values(|u: BtUuid| u@)),
        ),
{
    let ghost start = out@;
    let ghost views = v@.map_values(|u: BtUuid| u@);
    let mut i: usize = 0;
    while i < v.len()
        invariant
            i <= v@.len(),
            views == v@.map_values(|u: BtUuid| u@),
            out@ =~= start + Seq::new(16 * i as nat, |j: int| views[j / 16][j % 16]),
        decreases v@.len() - i,
    {
        let bytes = v[i].as_bytes();
        let ghost before = out@;
        let mut k: usize = 0;
        while k < 16
            invariant
                i < v@.len(),
                k <= 16,
                bytes@ == views[i as int],
                out@ =~= before + bytes@.take(k as int),
            decreases 16 - k,
        {
            out.push(bytes[k]);
            k = k + 1;
        }
        assert(bytes@.take(16) =~= bytes@);
        i = i + 1;
    }
}

fn encode_list(l: &UuidList, out: &mut Vec<u8>)
    ensures
        final(out)@ == old(out)@ + list_payload(l@),
{
    match l {
        UuidList::Short16(v) => encode_list16(v, out),
        UuidList::Short32(v) => encode_list32(v, out),
        UuidList::Full128(v) => encode_list128(v, out),
    }
}

fn list_type_number(l: &UuidList, complete: bool) -> (r: u8)
    ensures
        r == list_type(l@, complete),
{
    match l {
        UuidList::Short16(_) => if complete {
            BT_DATA_UUID16_ALL
        } else {
            BT_DATA_UUID16_SOME
        },
        UuidList::Short32(_) => if complete {
            BT_DATA_UUID32_ALL
        } else {
            BT_DATA_UUID32_SOME
        },
        UuidList::Full128(_) => if complete {
            BT_DATA_UUID128_ALL
        } else {
            BT_DATA_UUID128_SOME
        },
    }
}

fn name_bytes(s: &String) -> (r: Vec<u8>)
    ensures
        r@ == encode_utf8(s@),
{
    vstd::slice::slice_to_vec(s.as_str().as_bytes())
}

impl BtData {
    /// The record type of this element.
    pub fn type_number(&self) -> (r: u8)
        ensures
            r == record_type(self@),
    {
        match self {
            BtData::Flags(_) => BT_DATA_FLAGS,
            BtData::UuidIncomplete(l) => list_type_number(l, false),
            BtData::UuidAll(l) => list_type_number(l, true),
            BtData::CompleteName(_) => BT_DATA_NAME_COMPLETE,
            BtData::ShortenedName(_) => BT_DATA_NAME_SHORTENED,
            BtData::UnknownType(t, _) => *t,
        }
    }

    /// The payload of this element.
    pub fn data(&self) -> (r: Vec<u8>)
        ensures
            r@ == record_payload(self@),
    {
        match self {
            BtData::Flags(f) => {
                let mut out: Vec<u8> = Vec::new();
                out.push(*f);
                assert(out@ =~= seq![*f]);
                out
            },
            BtData::UuidIncomplete(l) => {
                let mut out: Vec<u8> = Vec::new();
                encode_list(l, &mut out);
                assert(out@ =~= list_payload(l@));
                out
            },
            BtData::UuidAll(l) => {
                let mut out: Vec<u8> = Vec::new();
                encode_list(l, &mut out);
                assert(out@ =~= list_payload(l@));
                out
            },
            BtData::CompleteName(s) => name_bytes(s),
            BtData::ShortenedName(s) => name_bytes(s),
            BtData::UnknownType(_, p) => p.clone(),
        }
    }

    /// The type and payload of this element.
    pub fn raw(&self) -> (r: RawBtData)
        ensures
            r@ == (record_type(self@), record_payload(self@)),
    {
        RawBtData { type_: self.type_number(), data: self.data() }
    }

    /// The wire form of this element.
    pub fn encode(&self) -> (r: Vec<u8>)
        requires
            encodable(self@),
        ensures
            r@ == record_encoding(self@),
    {
        self.raw().encode()
    }
}

impl RawBtData {
    /// The record type.
    pub fn type_(&self) -> (r: u8)
        ensures
            r == self@.0,
    {
        self.type_
    }

    /// The payload.
    pub fn data(&self) -> (r: &Vec<u8>)
        ensures
            r@ == self@.1,
    {
        &self.data
    }

    /// The wire form `[type][1 + payload length][payload]`.
    pub fn encode(&self) -> (r: Vec<u8>)
        requires
            self@.1.len() <= MAX_PAYLOAD_LEN,
        ensures
            r@ == tlv(self@.0, self@.1),
    {
        let mut out: Vec<u8> = Vec::new();
        out.push(self.type_);
        out.push((self.data.len() + 1) as u8);
        let mut i: usize = 0;
        while i < self.data.len()
            invariant
                i <= self.data@.len(),
                self.data@.len() <= MAX_PAYLOAD_LEN,
                out@ =~= seq![self.type_, (self.data@.len() + 1) as u8] + self.data@.take(i as int),
            decreases self.data@.len() - i,
        {
            out.push(self.data[i]);
            i = i + 1;
        }
        assert(self.data@.take(self.data@.len() as int) =~= self.data@);
        out
    }
}

/// The characters that `String::from_utf8_lossy` makes of a byte string.
pub uninterp spec fn lossy_utf8(b: Seq<u8>) -> Seq<char>;

/// Relies on String::from_utf8_lossy: the characters depend on the bytes
/// alone, and valid UTF-8 is decoded as it stands.
#[verifier::external_body]
fn string_from_utf8_lossy(b: &[u8]) -> (r: String)
    ensures
        r@ == lossy_utf8(b@),
        valid_utf8(b@) ==> r@ == decode_utf8(b@),
{
    String::from_utf8_lossy(b).into_owned()
}

/// The name that a payload spells: its characters where it is valid UTF-8,
/// else what the lossy conversion makes of it.
pub open spec fn name_of(p: Seq<u8>) -> Seq<char> {
    if valid_utf8(p) {
        decode_utf8(p)
    } else {
        lossy_utf8(p)
    }
}

/// Whether a record of type `t` with payload `p` is read into one of the
/// typed variants rather than kept uninterpreted.
pub open spec fn interpreted(t: u8, p: Seq<u8>) -> bool {
    (t == BT_DATA_FLAGS && p.len() == 1) || (BT_DATA_UUID16_SOME <= t <= BT_DATA_NAME_COMPLETE)
}

/// The 16-bit UUIDs of a payload, two bytes each, least significant first; a
/// trailing odd byte is ignored.
pub open spec fn decode_list16(p: Seq<u8>) -> Seq<u16> {
    Seq::new(p.len() / 2, |i: int| le16_value(p[2 * i], p[2 * i + 1]))
}

/// The 32-bit UUIDs of a payload, four bytes each, least significant first;
/// trailing bytes that make no whole UUID are ignored.
pub open spec fn decode_list32(p: Seq<u8>) -> Seq<u32> {
    Seq::new(
        p.len() / 4,
        |i: int| le32_value(p[4 * i], p[4 * i + 1], p[4 * i + 2], p[4 * i + 3]),
    )
}

/// The 128-bit UUIDs of a payload, sixteen bytes each; trailing bytes that
/// make no whole UUID are ignored.
pub open spec fn decode_list128(p: Seq<u8>) -> Seq<Seq<u8>> {
    Seq::new(p.len() / 16, |i: int| p.subrange(16 * i, 16 * i + 16))
}

/// The typed element of a record of type `t` with payload `p`. Flags carry
/// exactly one byte; any record this library does not interpret is kept as it
/// came.
pub open spec fn record_of(t: u8, p: Seq<u8>) -> RecordView {
    if t == BT_DATA_FLAGS && p.len() == 1 {
        RecordView::Flags(p[0])
    } else if t == BT_DATA_UUID16_SOME {
        RecordView::UuidIncomplete(UuidListView::Short16(decode_list16(p)))
    } else if t == BT_DATA_UUID16_ALL {
        RecordView::UuidAll(UuidListView::Short16(decode_list16(p)))
    } else if t == BT_DATA_UUID32_SOME {
        RecordView::UuidIncomplete(UuidListView::Short32(decode_list32(p)))
    } else if t == BT_DATA_UUID32_ALL {
        RecordView::UuidAll(UuidListView::Short32(decode_list32(p)))
    } else if t == BT_DATA_UUID128_SOME {
        RecordView::UuidIncomplete(UuidListView::Full128(decode_list128(p)))
    } else if t == BT_DATA_UUID128_ALL {
        RecordView::UuidAll(UuidListView::Full128(decode_list128(p)))
    } else if t == BT_DATA_NAME_SHORTENED {
        RecordView::ShortenedName(name_of(p))
    } else if t == BT_DATA_NAME_COMPLETE {
        RecordView::CompleteName(name_of(p))
    } else {
        RecordView::UnknownType(t, p)
    }
}

/// Whether `b` begins with a whole record: a type byte, a nonzero length byte
/// and as many payload bytes as the length announces.
pub open spec fn starts_with_record(b: Seq<u8>) -> bool {
    b.len() >= 2 && b[1] != 0 && b.len() >= b[1] as int + 1
}

/// The records of a byte stream, read left to right; reading stops at the
/// first record that is not whole.
pub open spec fn decode_spec(b: Seq<u8>) -> Seq<RecordView>
    decreases b.len(),
{
    if starts_with_record(b) {
        let end = b[1] as int + 1;
        seq![record_of(b[0], b.subrange(2, end))] + decode_spec(b.subrange(end, b.len() as int))
    } else {
        Seq::empty()
    }
}

proof fn lemma_chunk_in_bounds(i: int, len: int, w: int)
    requires
        0 < w,
        0 <= i < len / w,
    ensures
        w * i + w <= len,
{
    assert(w * i + w <= len) by (nonlinear_arith)
        requires
            0 < w,
            0 <= i < len / w,
    ;
}

fn decode_list16_exec(p: &[u8]) -> (r: Vec<u16>)
    ensures
        r@ == decode_list16(p@),
{
    let len = p.len();
    let n = len / 2;
    let mut out: Vec<u16> = Vec::new();
    let mut i: usize = 0;
    while i < n
        invariant
            len == p@.len(),
            n == p@.len() / 2,
            i <= n,
            out@ =~= Seq::new(i as nat, |k: int| le16_value(p@[2 * k], p@[2 * k + 1])),
        decreases n - i,
    {
        proof {
            lemma_chunk_in_bounds(i as int, p@.len() as int, 2);
        }
        let v: u16 = (p[2 * i] as u16) | ((p[2 * i + 1] as u16) << 8u16);
        out.push(v);
        i = i + 1;
    }
    out
}

fn decode_list32_exec(p: &[u8]) -> (r: Vec<u32>)
    ensures
        r@ == decode_list32(p@),
{
    let len = p.len();
    let n = len / 4;
    let mut out: Vec<u32> = Vec::new();
    let mut i: usize = 0;
    while i < n
        invariant
            len == p@.len(),
            n == p@.len() / 4,
            i <= n,
            out@ =~= Seq::new(
                i as nat,
                |k: int| le32_value(p@[4 * k], p@[4 * k + 1], p@[4 * k + 2], p@[4 * k + 3]),
            ),
        decreases n - i,
    {
        proof {
            lemma_chunk_in_bounds(i as int, p@.len() as int, 4);
        }
        let v: u32 = (p[4 * i] as u32) | ((p[4 * i + 1] as u32) << 8u32) | ((p[4 * i + 2] as u32)
            << 16u32) | ((p[4 * i + 3] as u32) << 24u32);
        out.push(v);
        i = i + 1;
    }
    out
}

fn decode_list128_exec(p: &[u8]) -> (r: Vec<BtUuid>)
    ensures
        r@.map_values(|u: BtUuid| u@) == decode_list128(p@),
{
    let len = p.len();
    let n = len / 16;
    let mut out: Vec<BtUuid> = Vec::new();
    let mut i: usize = 0;
    while i < n
        invariant
            len == p@.len(),
            n == p@.len() / 16,
            i <= n,
            out@.map_values(|u: BtUuid| u@) =~= Seq::new(
                i as nat,
                |k: int| p@.subrange(16 * k, 16 * k + 16),
            ),
        decreases n - i,
    {
        proof {
            lemma_chunk_in_bounds(i as int, p@.len() as int, 16);
        }
        let chunk = vstd::slice::slice_subrange(p, 16 * i, 16 * i + 16);
        match uuid_bytes_from_slice(chunk) {
            Some(bytes) => {
                let u = BtUuid::from_bytes(bytes);
                assert(out@.push(u).map_values(|u: BtUuid| u@) =~= out@.map_values(
                    |u: BtUuid| u@,
                ).push(u@));
                out.push(u);
            },
            None => {
                assert(false);
            },
        }
        i = i + 1;
    }
    out
}

impl BtData {
    /// The typed element of a record of type `type_` with payload `payload`.
    pub fn from_raw(type_: u8, payload: &[u8]) -> (r: BtData)
        ensures
            r@ == record_of(type_, payload@),
    {
        if type_ == BT_DATA_FLAGS && payload.len() == 1 {
            BtData::Flags(payload[0])
        } else if type_ == BT_DATA_UUID16_SOME {
            BtData::UuidIncomplete(UuidList::Short16(decode_list16_exec(payload)))
        } else if type_ == BT_DATA_UUID16_ALL {
            BtData::UuidAll(UuidList::Short16(decode_list16_exec(payload)))
        } else if type_ == BT_DATA_UUID32_SOME {
            BtData::UuidIncomplete(UuidList::Short32(decode_list32_exec(payload)))
        } else if type_ == BT_DATA_UUID32_ALL {
            BtData::UuidAll(UuidList::Short32(decode_list32_exec(payload)))
        } else if type_ == BT_DATA_UUID128_SOME {
            BtData::UuidIncomplete(UuidList::Full128(decode_list128_exec(payload)))
        } else if type_ == BT_DATA_UUID128_ALL {
            BtData::UuidAll(UuidList::Full128(decode_list128_exec(payload)))
        } else if type_ == BT_DATA_NAME_SHORTENED {
            BtData::ShortenedName(string_from_utf8_lossy(payload))
        } else if type_ == BT_DATA_NAME_COMPLETE {
            BtData::CompleteName(string_from_utf8_lossy(payload))
        } else {
            BtData::UnknownType(type_, vstd::slice::slice_to_vec(payload))
        }
    }
}

/// Reads the record that starts at `pos`: its typed element and the position
/// just past it, or `None` where no whole record starts there.
pub fn parse_record(bytes: &[u8], pos: usize) -> (r: Option<(BtData, usize)>)
    requires
        pos <= bytes@.len(),
    ensures
        match r {
            Some((d, next)) => {
                let rest = bytes@.subrange(pos as int, bytes@.len() as int);
                &&& starts_with_record(rest)
                &&& d@ == record_of(rest[0], rest.subrange(2, rest[1] as int + 1))
                &&& next == pos + rest[1] as int + 1
            },
            None => !starts_with_record(bytes@.subrange(pos as int, bytes@.len() as int)),
        },
{
    let ghost rest = bytes@.subrange(pos as int, bytes@.len() as int);
    if bytes.len() - pos < 2 {
        return None;
    }
    let type_ = bytes[pos];
    let len = bytes[pos + 1];
    if len == 0 || bytes.len() - pos < len as usize + 1 {
        return None;
    }
    let payload = vstd::slice::slice_subrange(bytes, pos + 2, pos + len as usize + 1);
    assert(payload@ =~= rest.subrange(2, rest[1] as int + 1));
    Some((BtData::from_raw(type_, payload), pos + len as usize + 1))
}

/// The typed elements of an advertising or scan-response byte stream, read
/// left to right; reading stops, without error, at the first record that is
/// not whole.
pub fn decode_sequence(bytes: &[u8]) -> (r: Vec<BtData>)
    ensures
        r@.map_values(|d: BtData| d@) == decode_spec(bytes@),
{
    let mut out: Vec<BtData> = Vec::new();
    let mut pos: usize = 0;
    assert(bytes@.subrange(0, bytes@.len() as int) =~= bytes@);
    assert(out@.map_values(|d: BtData| d@) =~= Seq::<RecordView>::empty());
    while pos < bytes.len()
        invariant
            pos <= bytes@.len(),
            out@.map_values(|d: BtData| d@) + decode_spec(
                bytes@.subrange(pos as int, bytes@.len() as int),
            ) == decode_spec(bytes@),
        decreases bytes@.len() - pos,
    {
        let ghost rest = bytes@.subrange(pos as int, bytes@.len() as int);
        match parse_record(bytes, pos) {
            Some((d, next)) => {
                proof {
                    let end = rest[1] as int + 1;
                    assert(bytes@.subrange(next as int, bytes@.len() as int) =~= rest.subrange(
                        end,
                        rest.len() as int,
                    ));
                    assert(out@.push(d).map_values(|d: BtData| d@) =~= out@.map_values(
                        |d: BtData| d@,
                    ).push(d@));
                }
                out.push(d);
                pos = next;
            },
            None => {
                assert(out@.map_values(|d: BtData| d@) =~= decode_spec(bytes@));
                return out;
            },
        }
    }
    assert(bytes@.subrange(pos as int, bytes@.len() as int) =~= Seq::<u8>::empty());
    assert(out@.map_values(|d: BtData| d@) =~= decode_spec(bytes@));
    out
}

/// The wire form of a sequence of elements: their encodings one after
/// another, with no separator.
pub fn encode_sequence(records: &[BtData]) -> (r: Vec<u8>)
    requires
        forall|i: int| 0 <= i < records@.len() ==> encodable(#[trigger] records@[i]@),
    ensures
        r@ == sequence_encoding(records@.map_values(|d: BtData| d@)),
{
    let ghost views = records@.map_values(|d: BtData| d@);
    let mut out: Vec<u8> = Vec::new();
    let mut i: usize = 0;
    while i < records.len()
        invariant
            i <= records@.len(),
            views == records@.map_values(|d: BtData| d@),
            forall|j: int| 0 <= j < records@.len() ==> encodable(#[trigger] records@[j]@),
            out@ == sequence_encoding(views.take(i as int)),
        decreases records@.len() - i,
    {
        let e = records[i].encode();
        proof {
            assert(views.take(i as int + 1).drop_last() =~= views.take(i as int));
        }
        let mut k: usize = 0;
        let ghost before = out@;
        while k < e.len()
            invariant
                k <= e@.len(),
                out@ =~= before + e@.take(k as int),
            decreases e@.len() - k,
        {
            out.push(e[k]);
            k = k + 1;
        }
        assert(e@.take(e@.len() as int) =~= e@);
        i = i + 1;
    }
    assert(views.take(records@.len() as int) =~= views);
    out
}

proof fn lemma_le16(x: u16)
    ensures
        le16_value(x as u8, (x >> 8u16) as u8) == x,
{
    assert((x as u8) as u16 | (((x >> 8u16) as u8) as u16) << 8u16 == x) by (bit_vector);
}

proof fn lemma_le32(x: u32)
    ensures
        le32_value(x as u8, (x >> 8u32) as u8, (x >> 16u32) as u8, (x >> 24u32) as u8) == x,
{
    assert((x as u8) as u32 | (((x >> 8u32) as u8) as u32) << 8u32 | (((x >> 16u32) as u8) as u32)
        << 16u32 | (((x >> 24u32) as u8) as u32) << 24u32 == x) by (bit_vector);
}

proof fn lemma_list_round_trip(l: UuidListView)
    requires
        l matches UuidListView::Full128(v) ==> forall|k: int|
            0 <= k < v.len() ==> (#[trigger] v[k]).len() == 16,
    ensures
        match l {
            UuidListView::Short16(v) => decode_list16(list_payload(l)) == v,
            UuidListView::Short32(v) => decode_list32(list_payload(l)) == v,
            UuidListView::Full128(v) => decode_list128(list_payload(l)) == v,
        },
{
    let p = list_payload(l);
    match l {
        UuidListView::Short16(v) => {
            assert forall|k: int| 0 <= k < v.len() implies #[trigger] decode_list16(p)[k] == v[k] by {
                assert(p[2 * k] == le16_byte(v[k], 0));
                assert(p[2 * k + 1] == le16_byte(v[k], 1));
                lemma_le16(v[k]);
            }
            assert(decode_list16(p) =~= v);
        },
        UuidListView::Short32(v) => {
            assert forall|k: int| 0 <= k < v.len() implies #[trigger] decode_list32(p)[k] == v[k] by {
                assert(p[4 * k] == le32_byte(v[k], 0));
                assert(p[4 * k + 1] == le32_byte(v[k], 1));
                assert(p[4 * k + 2] == le32_byte(v[k], 2));
                assert(p[4 * k + 3] == le32_byte(v[k], 3));
                lemma_le32(v[k]);
            }
            assert(decode_list32(p) =~= v);
        },
        UuidListView::Full128(v) => {
            assert forall|k: int| 0 <= k < v.len() implies #[trigger] decode_list128(p)[k] == v[k] by {
                assert forall|m: int| 0 <= m < 16 implies p.subrange(16 * k, 16 * k + 16)[m]
                    == v[k][m] by {
                    assert((16 * k + m) / 16 == k);
                    assert((16 * k + m) % 16 == m);
                }
                assert(p.subrange(16 * k, 16 * k + 16) =~= v[k]);
            }
            assert(decode_list128(p) =~= v);
        },
    }
}

/// Whether an element survives encoding and decoding: its length fits its
/// length byte, and an uninterpreted record does not carry a type and payload
/// that decoding would read into a typed variant.
pub open spec fn round_trips(d: BtData) -> bool {
    &&& encodable(d@)
    &&& d matches BtData::UnknownType(t, p) ==> !interpreted(t, p@)
}

proof fn lemma_record_of_encoding(d: BtData)
    requires
        round_trips(d),
    ensures
        record_of(record_type(d@), record_payload(d@)) == d@,
{
    broadcast use vstd::utf8::encode_utf8_valid_utf8, vstd::utf8::encode_utf8_decode_utf8;

    match d {
        BtData::UuidIncomplete(l) => {
            lemma_list_round_trip(l@);
        },
        BtData::UuidAll(l) => {
            lemma_list_round_trip(l@);
        },
        _ => {},
    }
}

/// Encoding an element and decoding the bytes gives back exactly that element,
/// for every element whose encoding can be read back unchanged.
pub proof fn lemma_record_round_trip(d: BtData)
    requires
        round_trips(d),
    ensures
        decode_spec(record_encoding(d@)) == seq![d@],
{
    lemma_truncated_tail(d, Seq::empty());
    assert(record_encoding(d@) + Seq::<u8>::empty() =~= record_encoding(d@));
}

/// A stream that holds one whole record followed by bytes that make no whole
/// record (a cut header, a zero length, or a payload that overruns the end)
/// decodes to that record alone.
pub proof fn lemma_truncated_tail(d: BtData, tail: Seq<u8>)
    requires
        round_trips(d),
        !starts_with_record(tail),
    ensures
        decode_spec(record_encoding(d@) + tail) == seq![d@],
{
    lemma_record_then_rest(d, tail);
    assert(decode_spec(tail) =~= Seq::<RecordView>::empty());
    assert(seq![d@] + Seq::<RecordView>::empty() =~= seq![d@]);
}

proof fn lemma_record_then_rest(d: BtData, rest: Seq<u8>)
    requires
        round_trips(d),
    ensures
        decode_spec(record_encoding(d@) + rest) == seq![d@] + decode_spec(rest),
{
    let b = record_encoding(d@) + rest;
    let p = record_payload(d@);
    let end = p.len() as int + 2;
    assert(b[1] as int == p.len() + 1);
    assert(b.subrange(2, end) =~= p);
    assert(b.subrange(end, b.len() as int) =~= rest);
    lemma_record_of_encoding(d);
}

proof fn lemma_sequence_encoding_front(rs: Seq<RecordView>)
    requires
        rs.len() > 0,
    ensures
        sequence_encoding(rs) == record_encoding(rs[0]) + sequence_encoding(rs.drop_first()),
    decreases rs.len(),
{
    if rs.len() == 1 {
        assert(rs.drop_last() =~= Seq::<RecordView>::empty());
        assert(rs.drop_first() =~= Seq::<RecordView>::empty());
        assert(sequence_encoding(rs) =~= record_encoding(rs[0]) + sequence_encoding(rs.drop_first()));
    } else {
        lemma_sequence_encoding_front(rs.drop_last());
        assert(rs.drop_last().drop_first() =~= rs.drop_first().drop_last());
        assert(rs.drop_first().last() == rs.last());
        assert(sequence_encoding(rs) =~= record_encoding(rs[0]) + sequence_encoding(rs.drop_first()));
    }
}

/// Encoding a sequence of elements and decoding the bytes gives back the same
/// elements in the same order, where each element can be read back unchanged.
pub proof fn lemma_sequence_round_trip(ds: Seq<BtData>)
    requires
        forall|i: int| 0 <= i < ds.len() ==> round_trips(#[trigger] ds[i]),
    ensures
        decode_spec(sequence_encoding(ds.map_values(|d: BtData| d@))) == ds.map_values(
            |d: BtData| d@,
        ),
    decreases ds.len(),
{
    let rs = ds.map_values(|d: BtData| d@);
    if ds.len() == 0 {
        assert(rs =~= Seq::<RecordView>::empty());
        assert(decode_spec(Seq::<u8>::empty()) =~= Seq::<RecordView>::empty());
    } else {
        let tail = ds.drop_first();
        assert(rs.drop_first() =~= tail.map_values(|d: BtData| d@));
        lemma_sequence_round_trip(tail);
        lemma_sequence_encoding_front(rs);
        lemma_record_then_rest(ds[0], sequence_encoding(rs.drop_first()));
        assert(seq![ds[0]@] + rs.drop_first() =~= rs);
    }
}

} // verus!
