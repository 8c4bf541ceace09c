//! UUIDs of the three Bluetooth widths and the base-UUID arithmetic between them.
use vstd::prelude::*;

verus! {

/// Attribute type of a primary service declaration.
pub const PRIMARY_SERVICE_UUID: u16 = 0x2800;

/// Attribute type of a characteristic declaration.
pub const GATT_CHARACTERISTIC_UUID: u16 = 0x2803;

/// Attribute type of a characteristic presentation format descriptor.
pub const GATT_CHARACTERISTIC_PRESENTATION_FORMAT_UUID: u16 = 0x2904;

/// Attribute type of a client characteristic configuration descriptor.
pub const GATT_CLIENT_CHARACTERISTIC_CONFIGURATOR_UUID: u16 = 0x2902;

/// Second field of the Bluetooth base UUID `00000000-0000-1000-8000-00805F9B34FB`.
pub const BT_BASE_D2: u16 = 0x0000;

/// Third field of the Bluetooth base UUID.
pub const BT_BASE_D3: u16 = 0x1000;

/// The bytes of a 32-bit value, most significant first.
pub open spec fn be_bytes32(n: u32) -> Seq<u8> {
    seq![(n >> 24u32) as u8, (n >> 16u32) as u8, (n >> 8u32) as u8, n as u8]
}

/// The bytes of a 16-bit value, most significant first.
pub open spec fn be_bytes16(n: u16) -> Seq<u8> {
    seq![(n >> 8u16) as u8, n as u8]
}

/// The 32-bit value of four bytes, most significant first.
pub open spec fn be_value32(b0: u8, b1: u8, b2: u8, b3: u8) -> u32 {
    (b0 as u32) << 24u32 | (b1 as u32) << 16u32 | (b2 as u32) << 8u32 | (b3 as u32)
}

/// The last eight bytes of the Bluetooth base UUID.
pub open spec fn base_d4() -> Seq<u8> {
    seq![0x80u8, 0x00u8, 0x00u8, 0x80u8, 0x5Fu8, 0x9Bu8, 0x34u8, 0xFBu8]
}

/// The full UUID, in standard byte order, that the short UUID `n` stands for:
/// the base UUID with its leading 32-bit field replaced by `n`.
pub open spec fn expanded(n: u32) -> Seq<u8> {
    be_bytes32(n) + be_bytes16(BT_BASE_D2) + be_bytes16(BT_BASE_D3) + base_d4()
}

/// The leading 32-bit field of a full UUID in standard byte order.
pub open spec fn leading_field(b: Seq<u8>) -> u32 {
    be_value32(b[0], b[1], b[2], b[3])
}

/// Relies on uuid::Uuid::from_fields: the bytes of `d1`, `d2` and `d3`, each
/// most significant first, followed by `d4`; and on uuid::Uuid::as_bytes,
/// which hands them back in that order.
#[verifier::external_body]
fn uuid_from_fields(d1: u32, d2: u16, d3: u16, d4: &[u8; 8]) -> (r: [u8; 16])
    ensures
        r@ == be_bytes32(d1) + be_bytes16(d2) + be_bytes16(d3) + d4@,
{
    *uuid::Uuid::from_fields(d1, d2, d3, d4).as_bytes()
}

/// Relies on uuid::Uuid::from_bytes, which keeps the bytes as given, and on
/// uuid::Uuid::as_fields, whose first field reads bytes 0 to 3, most
/// significant first.
#[verifier::external_body]
fn uuid_leading_field(bytes: [u8; 16]) -> (r: u32)
    ensures
        r == leading_field(bytes@),
{
    uuid::Uuid::from_bytes(bytes).as_fields().0
}

/// Relies on uuid::Uuid::from_slice: it accepts exactly 16 bytes and keeps them
/// in their order, which uuid::Uuid::as_bytes hands back.
#[verifier::external_body]
pub(crate) fn uuid_bytes_from_slice(b: &[u8]) -> (r: Option<[u8; 16]>)
    ensures
        r is Some <==> b@.len() == 16,
        r matches Some(a) ==> a@ == b@,
{
    match uuid::Uuid::from_slice(b) {
        Ok(u) => Some(*u.as_bytes()),
        Err(_) => None,
    }
}

/// A full 128-bit UUID, held as its 16 bytes.
#[derive(Clone, Copy, Debug)]
pub struct BtUuid {
    pub bytes: [u8; 16],
}

impl View for BtUuid {
    type V = Seq<u8>;

    open spec fn view(&self) -> Seq<u8> {
        self.bytes@
    }
}

impl PartialEq for BtUuid {
    fn eq(&self, other: &BtUuid) -> (r: bool) {
        same_bytes16(&self.bytes, &other.bytes)
    }
}

impl vstd::std_specs::cmp::PartialEqSpecImpl for BtUuid {
    open spec fn obeys_eq_spec() -> bool {
        true
    }

    open spec fn eq_spec(&self, other: &BtUuid) -> bool {
        self@ == other@
    }
}

impl Eq for BtUuid {}

/// A 16-bit short UUID.
#[derive(Clone, Copy, Debug, PartialEq, Eq, Structural)]
pub struct BtUuid16 {
    pub val: u16,
}

/// A 32-bit short UUID.
#[derive(Clone, Copy, Debug, PartialEq, Eq, Structural)]
pub struct BtUuid32 {
    pub val: u32,
}

/// A 128-bit UUID in the byte order in which it goes on air.
#[derive(Clone, Copy, Debug)]
pub struct BtUuid128 {
    pub val: [u8; 16],
}

/// A UUID tagged with its declared width.
#[derive(Clone, Copy, Debug)]
pub enum RawUuid {
    Short16(u16),
    Short32(u32),
    Full128([u8; 16]),
}

/// Equality of tagged UUIDs: the widths must agree, then the values.
pub open spec fn same_uuid(one: RawUuid, other: RawUuid) -> bool {
    match (one, other) {
        (RawUuid::Short16(a), RawUuid::Short16(b)) => a == b,
        (RawUuid::Short32(a), RawUuid::Short32(b)) => a == b,
        (RawUuid::Full128(a), RawUuid::Full128(b)) => a@ == b@,
        _ => false,
    }
}

/// The full UUID that the short UUID `n` stands for.
pub open spec fn expand_spec(n: u32) -> BtUuid {
    let e = expanded(n);
    BtUuid {
        bytes: [
            e[0], e[1], e[2], e[3], e[4], e[5], e[6], e[7],
            e[8], e[9], e[10], e[11], e[12], e[13], e[14], e[15],
        ],
    }
}

/// The 32-bit short form of a full UUID: its leading field.
pub open spec fn reduce32_spec(u: BtUuid) -> BtUuid32 {
    BtUuid32 { val: leading_field(u@) }
}

/// The 16-bit short form of a full UUID: the low half of its leading field.
pub open spec fn reduce16_spec(u: BtUuid) -> BtUuid16 {
    BtUuid16 { val: leading_field(u@) as u16 }
}

proof fn lemma_expand_view(n: u32, u: BtUuid)
    requires
        u@ == expanded(n),
    ensures
        u == expand_spec(n),
{
    assert(u.bytes =~= expand_spec(n).bytes);
}

/// The full UUID of the short UUID `n`.
fn expand(n: u32) -> (r: BtUuid)
    ensures
        r == expand_spec(n),
        r@ == expanded(n),
{
    let d4: [u8; 8] = [0x80, 0x00, 0x00, 0x80, 0x5F, 0x9B, 0x34, 0xFB];
    assert(d4@ =~= base_d4());
    let r = BtUuid { bytes: uuid_from_fields(n, BT_BASE_D2, BT_BASE_D3, &d4) };
    proof {
        lemma_expand_view(n, r);
    }
    r
}

impl BtUuid {
    /// The UUID whose bytes are `bytes`, in the order given.
    pub fn from_bytes(bytes: [u8; 16]) -> (r: BtUuid)
        ensures
            r@ == bytes@,
    {
        BtUuid { bytes }
    }

    /// The UUID of a standard (big-endian) 128-bit value, its bytes reversed
    /// into the order in which Bluetooth sends them.
    pub fn from_uuid(uuid: [u8; 16]) -> (r: BtUuid)
        ensures
            r@ == uuid@.reverse(),
    {
        let r = BtUuid {
            bytes: [
                uuid[15], uuid[14], uuid[13], uuid[12], uuid[11], uuid[10], uuid[9], uuid[8],
                uuid[7], uuid[6], uuid[5], uuid[4], uuid[3], uuid[2], uuid[1], uuid[0],
            ],
        };
        assert(r@ =~= uuid@.reverse());
        r
    }

    /// The full UUID of the 32-bit service identifier `service_id`.
    pub fn service_uuid_32(service_id: u32) -> (r: BtUuid)
        ensures
            r == expand_spec(service_id),
            r@ == expanded(service_id),
    {
        expand(service_id)
    }

    /// The same bytes as a 128-bit UUID.
    pub fn to_uuid128(&self) -> (r: BtUuid128)
        ensures
            r.val@ == self@,
    {
        BtUuid128 { val: self.bytes }
    }

    /// The bytes of the UUID.
    pub fn as_bytes(&self) -> (r: [u8; 16])
        ensures
            r@ == self@,
    {
        self.bytes
    }
}

impl From<u32> for BtUuid {
    fn from(number: u32) -> (r: Self) {
        expand(number)
    }
}

impl vstd::std_specs::convert::FromSpecImpl<u32> for BtUuid {
    open spec fn obeys_from_spec() -> bool {
        true
    }

    open spec fn from_spec(number: u32) -> BtUuid {
        expand_spec(number)
    }
}

impl From<u16> for BtUuid {
    fn from(number: u16) -> (r: Self) {
        expand(number as u32)
    }
}

impl vstd::std_specs::convert::FromSpecImpl<u16> for BtUuid {
    open spec fn obeys_from_spec() -> bool {
        true
    }

    open spec fn from_spec(number: u16) -> BtUuid {
        expand_spec(number as u32)
    }
}

impl From<BtUuid16> for BtUuid {
    fn from(uuid: BtUuid16) -> (r: Self) {
        expand(uuid.val as u32)
    }
}

impl vstd::std_specs::convert::FromSpecImpl<BtUuid16> for BtUuid {
    open spec fn obeys_from_spec() -> bool {
        true
    }

    open spec fn from_spec(uuid: BtUuid16) -> BtUuid {
        expand_spec(uuid.val as u32)
    }
}

impl From<BtUuid32> for BtUuid {
    fn from(uuid: BtUuid32) -> (r: Self) {
        expand(uuid.val)
    }
}

impl vstd::std_specs::convert::FromSpecImpl<BtUuid32> for BtUuid {
    open spec fn obeys_from_spec() -> bool {
        true
    }

    open spec fn from_spec(uuid: BtUuid32) -> BtUuid {
        expand_spec(uuid.val)
    }
}

impl From<BtUuid128> for BtUuid {
    fn from(uuid: BtUuid128) -> (r: Self) {
        BtUuid { bytes: uuid.val }
    }
}

impl vstd::std_specs::convert::FromSpecImpl<BtUuid128> for BtUuid {
    open spec fn obeys_from_spec() -> bool {
        true
    }

    open spec fn from_spec(uuid: BtUuid128) -> BtUuid {
        BtUuid { bytes: uuid.val }
    }
}

impl From<BtUuid> for BtUuid128 {
    fn from(uuid: BtUuid) -> (r: Self) {
        BtUuid128 { val: uuid.bytes }
    }
}

impl vstd::std_specs::convert::FromSpecImpl<BtUuid> for BtUuid128 {
    open spec fn obeys_from_spec() -> bool {
        true
    }

    open spec fn from_spec(uuid: BtUuid) -> BtUuid128 {
        BtUuid128 { val: uuid.bytes }
    }
}

impl From<BtUuid> for BtUuid32 {
    fn from(uuid: BtUuid) -> (r: Self) {
        BtUuid32 { val: uuid_leading_field(uuid.bytes) }
    }
}

impl vstd::std_specs::convert::FromSpecImpl<BtUuid> for BtUuid32 {
    open spec fn obeys_from_spec() -> bool {
        true
    }

    open spec fn from_spec(uuid: BtUuid) -> BtUuid32 {
        reduce32_spec(uuid)
    }
}

impl From<BtUuid> for BtUuid16 {
    fn from(uuid: BtUuid) -> (r: Self) {
        BtUuid16 { val: uuid_leading_field(uuid.bytes) as u16 }
    }
}

impl vstd::std_specs::convert::FromSpecImpl<BtUuid> for BtUuid16 {
    open spec fn obeys_from_spec() -> bool {
        true
    }

    open spec fn from_spec(uuid: BtUuid) -> BtUuid16 {
        reduce16_spec(uuid)
    }
}

/// A 16-bit short UUID of value `d1`.
pub fn uuid16(d1: u16) -> (r: BtUuid16)
    ensures
        r.val == d1,
{
    BtUuid16 { val: d1 }
}

impl BtUuid16 {
    /// The UUID tagged with its width.
    pub fn raw(&self) -> (r: RawUuid)
        ensures
            r == RawUuid::Short16(self.val),
    {
        RawUuid::Short16(self.val)
    }
}

impl BtUuid32 {
    /// The UUID tagged with its width.
    pub fn raw(&self) -> (r: RawUuid)
        ensures
            r == RawUuid::Short32(self.val),
    {
        RawUuid::Short32(self.val)
    }
}

impl BtUuid128 {
    /// The UUID tagged with its width.
    pub fn raw(&self) -> (r: RawUuid)
        ensures
            r == RawUuid::Full128(self.val),
    {
        RawUuid::Full128(self.val)
    }
}

/// Whether two 16-byte values are equal.
pub(crate) fn same_bytes16(a: &[u8; 16], b: &[u8; 16]) -> (r: bool)
    ensures
        r == (a@ == b@),
{
    let mut i: usize = 0;
    while i < 16
        invariant
            0 <= i <= 16,
            forall|j: int| 0 <= j < i ==> a@[j] == b@[j],
        decreases 16 - i,
    {
        if a[i] != b[i] {
            assert(a@[i as int] != b@[i as int]);
            return false;
        }
        i = i + 1;
    }
    assert(a@ =~= b@);
    true
}

/// Whether two tagged UUIDs are equal: UUIDs of different declared widths are
/// never equal, even where their values coincide.
pub fn compare_uuids(one: &RawUuid, other: &RawUuid) -> (r: bool)
    ensures
        r == same_uuid(*one, *other),
{
    match (one, other) {
        (RawUuid::Short16(a), RawUuid::Short16(b)) => *a == *b,
        (RawUuid::Short32(a), RawUuid::Short32(b)) => *a == *b,
        (RawUuid::Full128(a), RawUuid::Full128(b)) => same_bytes16(a, b),
        _ => false,
    }
}

/// Expanding a short UUID to the full base-UUID form and reducing it back
/// gives the short UUID again, for 16-bit and for 32-bit values.
pub proof fn lemma_short_uuid_round_trip(n16: u16, n32: u32)
    ensures
        reduce16_spec(expand_spec(n16 as u32)).val == n16,
        reduce32_spec(expand_spec(n32)).val == n32,
{
    let e16 = expanded(n16 as u32);
    let e32 = expanded(n32);
    assert(expand_spec(n16 as u32)@ =~= e16);
    assert(expand_spec(n32)@ =~= e32);
    let m = n16 as u32;
    assert(be_value32((m >> 24u32) as u8, (m >> 16u32) as u8, (m >> 8u32) as u8, m as u8) as u16
        == n16) by (bit_vector)
        requires
            m == n16 as u32,
    ;
    assert(be_value32((n32 >> 24u32) as u8, (n32 >> 16u32) as u8, (n32 >> 8u32) as u8, n32 as u8)
        == n32) by (bit_vector);
}

} // verus!
