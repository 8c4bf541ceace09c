//! Advertising, scanning and connection parameters, addresses, and their
//! fixed-layout forms handed to the host.
use vstd::prelude::*;
use vstd::string::StringExecFns;

verus! {

/// Advertising flag: limited discoverable mode.
pub const LE_AD_LIMITED: u8 = 0x01;

/// Advertising flag: general discoverable mode.
pub const LE_AD_GENERAL: u8 = 0x02;

/// Advertising flag: BR/EDR not supported.
pub const LE_AD_NO_BREDR: u8 = 0x04;

/// Advertising option: no option.
pub const LE_ADV_OPT_NONE: u32 = 0;

/// Advertising option: connectable advertising.
pub const LE_ADV_OPT_CONNECTABLE: u32 = 0x0000_0001;

/// Advertising option: include the device name.
pub const LE_ADV_OPT_USE_NAME: u32 = 0x0000_0008;

/// Advertising option: put the device name in the advertising data.
pub const LE_ADV_OPT_FORCE_NAME_IN_AD: u32 = 0x0004_0000;

/// Scan option: no option.
pub const LE_SCAN_OPT_NONE: u32 = 0;

/// Scan option: filter duplicates.
pub const LE_SCAN_OPT_FILTER_DUPLICATE: u32 = 0x01;

/// Scan option: filter by the accept list.
pub const LE_SCAN_OPT_FILTER_ACCEPT_LIST: u32 = 0x02;

/// Scan option: scan on the coded PHY.
pub const LE_SCAN_OPT_CODED: u32 = 0x04;

/// Scan option: do not scan on the 1M PHY.
pub const LE_SCAN_OPT_NO_1M: u32 = 0x08;

/// Scan type: passive scanning.
pub const LE_SCAN_TYPE_PASSIVE: u8 = 0x00;

/// Scan type: active scanning.
pub const LE_SCAN_TYPE_ACTIVE: u8 = 0x01;

/// Address type: public.
pub const ADDR_LE_PUBLIC: u8 = 0x00;

/// Address type: random.
pub const ADDR_LE_RANDOM: u8 = 0x01;

/// Address type: public identity.
pub const ADDR_LE_PUBLIC_ID: u8 = 0x02;

/// Address type: random identity.
pub const ADDR_LE_RANDOM_ID: u8 = 0x03;

/// The advertising flags this library knows.
pub open spec fn advertisement_flags_all() -> u8 {
    LE_AD_LIMITED | LE_AD_GENERAL | LE_AD_NO_BREDR
}

/// The advertising options this library knows.
pub open spec fn advertisement_options_all() -> u32 {
    LE_ADV_OPT_CONNECTABLE | LE_ADV_OPT_USE_NAME | LE_ADV_OPT_FORCE_NAME_IN_AD
}

/// The scan options this library knows.
pub open spec fn scan_options_all() -> u32 {
    LE_SCAN_OPT_FILTER_DUPLICATE | LE_SCAN_OPT_FILTER_ACCEPT_LIST | LE_SCAN_OPT_CODED
        | LE_SCAN_OPT_NO_1M
}

/// The scan types this library knows.
pub open spec fn scan_type_all() -> u8 {
    LE_SCAN_TYPE_ACTIVE
}

/// A set of advertising flags.
#[derive(Clone, Copy, Debug, PartialEq, Eq, Structural)]
pub struct AdvertisementFlags {
    bits: u8,
}

/// A set of advertising options.
#[derive(Clone, Copy, Debug, PartialEq, Eq, Structural)]
pub struct AdvertisementOptions {
    bits: u32,
}

/// A set of scan options.
#[derive(Clone, Copy, Debug, PartialEq, Eq, Structural)]
pub struct ScanOptions {
    bits: u32,
}

/// The scan type, as a set of bits.
#[derive(Clone, Copy, Debug, PartialEq, Eq, Structural)]
pub struct ScanType {
    bits: u8,
}

impl View for AdvertisementFlags {
    type V = u8;

    closed spec fn view(&self) -> u8 {
        self.bits
    }
}

impl View for AdvertisementOptions {
    type V = u32;

    closed spec fn view(&self) -> u32 {
        self.bits
    }
}

impl View for ScanOptions {
    type V = u32;

    closed spec fn view(&self) -> u32 {
        self.bits
    }
}

impl View for ScanType {
    type V = u8;

    closed spec fn view(&self) -> u8 {
        self.bits
    }
}

impl AdvertisementFlags {
    /// The set of the known flags among `bits`; the others are dropped.
    pub fn from_bits_truncate(bits: u8) -> (r: Self)
        ensures
            r@ == bits & advertisement_flags_all(),
    {
        AdvertisementFlags { bits: bits & (LE_AD_LIMITED | LE_AD_GENERAL | LE_AD_NO_BREDR) }
    }

    /// The bits of the set.
    pub fn bits(&self) -> (r: u8)
        ensures
            r == self@,
    {
        self.bits
    }

    /// The union of two sets.
    pub fn union(self, other: Self) -> (r: Self)
        ensures
            r@ == self@ | other@,
    {
        AdvertisementFlags { bits: self.bits | other.bits }
    }

    /// Whether every flag of `other` is in the set.
    pub fn contains(&self, other: Self) -> (r: bool)
        ensures
            r == (self@ & other@ == other@),
    {
        self.bits & other.bits == other.bits
    }
}

impl AdvertisementOptions {
    /// The set of the known options among `bits`; the others are dropped.
    pub fn from_bits_truncate(bits: u32) -> (r: Self)
        ensures
            r@ == bits & advertisement_options_all(),
    {
        AdvertisementOptions {
            bits: bits & (LE_ADV_OPT_CONNECTABLE | LE_ADV_OPT_USE_NAME
                | LE_ADV_OPT_FORCE_NAME_IN_AD),
        }
    }

    /// The bits of the set.
    pub fn bits(&self) -> (r: u32)
        ensures
            r == self@,
    {
        self.bits
    }

    /// The union of two sets.
    pub fn union(self, other: Self) -> (r: Self)
        ensures
            r@ == self@ | other@,
    {
        AdvertisementOptions { bits: self.bits | other.bits }
    }

    /// Whether every option of `other` is in the set.
    pub fn contains(&self, other: Self) -> (r: bool)
        ensures
            r == (self@ & other@ == other@),
    {
        self.bits & other.bits == other.bits
    }
}

impl ScanOptions {
    /// The set of the known options among `bits`; the others are dropped.
    pub fn from_bits_truncate(bits: u32) -> (r: Self)
        ensures
            r@ == bits & scan_options_all(),
    {
        ScanOptions {
            bits: bits & (LE_SCAN_OPT_FILTER_DUPLICATE | LE_SCAN_OPT_FILTER_ACCEPT_LIST
                | LE_SCAN_OPT_CODED | LE_SCAN_OPT_NO_1M),
        }
    }

    /// The bits of the set.
    pub fn bits(&self) -> (r: u32)
        ensures
            r == self@,
    {
        self.bits
    }

    /// The union of two sets.
    pub fn union(self, other: Self) -> (r: Self)
        ensures
            r@ == self@ | other@,
    {
        ScanOptions { bits: self.bits | other.bits }
    }

    /// Whether every option of `other` is in the set.
    pub fn contains(&self, other: Self) -> (r: bool)
        ensures
            r == (self@ & other@ == other@),
    {
        self.bits & other.bits == other.bits
    }
}

impl ScanType {
    /// The scan type of the known bits among `bits`: passive where none is set.
    pub fn from_bits_truncate(bits: u8) -> (r: Self)
        ensures
            r@ == bits & scan_type_all(),
    {
        ScanType { bits: bits & LE_SCAN_TYPE_ACTIVE }
    }

    /// The bits of the scan type.
    pub fn bits(&self) -> (r: u8)
        ensures
            r == self@,
    {
        self.bits
    }
}

/// Preferred connection parameters, in the host's units.
#[derive(Clone, Copy, Debug, PartialEq, Eq, Structural)]
pub struct ConnectionParameters {
    pub interval_min: u16,
    pub interval_max: u16,
    pub latency: u16,
    pub timeout: u16,
}

impl ConnectionParameters {
    /// Intervals of 30 ms to 50 ms, no latency, a supervision timeout of 4 s.
    pub fn default() -> (r: ConnectionParameters)
        ensures
            r == (ConnectionParameters {
                interval_min: 0x0018,
                interval_max: 0x0028,
                latency: 0,
                timeout: 400,
            }),
    {
        ConnectionParameters { interval_min: 0x0018, interval_max: 0x0028, latency: 0, timeout: 400 }
    }
}

/// Parameters for creating a connection, in the host's units.
#[derive(Clone, Copy, Debug, PartialEq, Eq, Structural)]
pub struct ConnectionCreationParameters {
    pub options: u32,
    pub interval: u16,
    pub window: u16,
    pub interval_coded: u16,
    pub window_coded: u16,
    pub timeout: u16,
}

impl ConnectionCreationParameters {
    /// A scan interval of 60 ms and a window of 30 ms, nothing else set.
    pub fn default() -> (r: ConnectionCreationParameters)
        ensures
            r == (ConnectionCreationParameters {
                options: 0,
                interval: 0x0060,
                window: 0x0030,
                interval_coded: 0,
                window_coded: 0,
                timeout: 0,
            }),
    {
        ConnectionCreationParameters {
            options: 0,
            interval: 0x0060,
            window: 0x0030,
            interval_coded: 0,
            window_coded: 0,
            timeout: 0,
        }
    }
}

/// The type of a Bluetooth LE address.
#[derive(Clone, Copy, Debug, PartialEq, Eq, Structural)]
pub enum AddressType {
    Public,
    Random,
    PublicId,
    RandomId,
    Other(u8),
}

/// The address type that the number `n` stands for.
pub open spec fn address_type_of(n: u8) -> AddressType {
    if n == ADDR_LE_PUBLIC {
        AddressType::Public
    } else if n == ADDR_LE_RANDOM {
        AddressType::Random
    } else if n == ADDR_LE_PUBLIC_ID {
        AddressType::PublicId
    } else if n == ADDR_LE_RANDOM_ID {
        AddressType::RandomId
    } else {
        AddressType::Other(n)
    }
}

/// The number of an address type.
pub open spec fn address_type_number(t: AddressType) -> u8 {
    match t {
        AddressType::Public => ADDR_LE_PUBLIC,
        AddressType::Random => ADDR_LE_RANDOM,
        AddressType::PublicId => ADDR_LE_PUBLIC_ID,
        AddressType::RandomId => ADDR_LE_RANDOM_ID,
        AddressType::Other(n) => n,
    }
}

impl From<u8> for AddressType {
    fn from(number: u8) -> (r: Self) {
        if number == ADDR_LE_PUBLIC {
            AddressType::Public
        } else if number == ADDR_LE_RANDOM {
            AddressType::Random
        } else if number == ADDR_LE_PUBLIC_ID {
            AddressType::PublicId
        } else if number == ADDR_LE_RANDOM_ID {
            AddressType::RandomId
        } else {
            AddressType::Other(number)
        }
    }
}

impl vstd::std_specs::convert::FromSpecImpl<u8> for AddressType {
    open spec fn obeys_from_spec() -> bool {
        true
    }

    open spec fn from_spec(number: u8) -> AddressType {
        address_type_of(number)
    }
}

/// The character of the hexadecimal digit `d`.
pub open spec fn hex_char(d: nat) -> char {
    seq!['0', '1', '2', '3', '4', '5', '6', '7', '8', '9', 'a', 'b', 'c', 'd', 'e', 'f'][d as int]
}

/// A byte as two lower-case hexadecimal digits.
pub open spec fn hex2(b: u8) -> Seq<char> {
    seq![hex_char((b / 16) as nat), hex_char((b % 16) as nat)]
}

fn hex_digit_str(d: u8) -> (r: &'static str)
    requires
        d < 16,
    ensures
        r@ == seq![hex_char(d as nat)],
{
    proof {
        reveal_strlit("0");
        reveal_strlit("1");
        reveal_strlit("2");
        reveal_strlit("3");
        reveal_strlit("4");
        reveal_strlit("5");
        reveal_strlit("6");
        reveal_strlit("7");
        reveal_strlit("8");
        reveal_strlit("9");
        reveal_strlit("a");
        reveal_strlit("b");
        reveal_strlit("c");
        reveal_strlit("d");
        reveal_strlit("e");
        reveal_strlit("f");
    }
    if d < 8 {
        if d == 0 {
            "0"
        } else if d == 1 {
            "1"
        } else if d == 2 {
            "2"
        } else if d == 3 {
            "3"
        } else if d == 4 {
            "4"
        } else if d == 5 {
            "5"
        } else if d == 6 {
            "6"
        } else {
            "7"
        }
    } else {
        if d == 8 {
            "8"
        } else if d == 9 {
            "9"
        } else if d == 10 {
            "a"
        } else if d == 11 {
            "b"
        } else if d == 12 {
            "c"
        } else if d == 13 {
            "d"
        } else if d == 14 {
            "e"
        } else {
            "f"
        }
    }
}

fn push_hex2(s: &mut String, b: u8)
    ensures
        final(s)@ == old(s)@ + hex2(b),
{
    s.append(hex_digit_str(b / 16));
    s.append(hex_digit_str(b % 16));
    assert(final(s)@ =~= old(s)@ + hex2(b));
}

/// The text of an address type.
pub open spec fn address_type_text(t: AddressType) -> Seq<char> {
    match t {
        AddressType::Public => "public"@,
        AddressType::Random => "random"@,
        AddressType::PublicId => "public-id"@,
        AddressType::RandomId => "random-id"@,
        AddressType::Other(n) => "unknown: 0x"@ + hex2(n),
    }
}

/// The text of an address: its bytes most significant first, in hexadecimal
/// and separated by colons, then its type in parentheses.
pub open spec fn address_text(a: Seq<u8>, t: AddressType) -> Seq<char> {
    hex2(a[5]) + ":"@ + hex2(a[4]) + ":"@ + hex2(a[3]) + ":"@ + hex2(a[2]) + ":"@ + hex2(a[1])
        + ":"@ + hex2(a[0]) + " ("@ + address_type_text(t) + ")"@
}

fn address_string(a: &[u8; 6], t: AddressType) -> (r: String)
    ensures
        r@ == address_text(a@, t),
{
    let mut s = String::new();
    push_hex2(&mut s, a[5]);
    s.append(":");
    push_hex2(&mut s, a[4]);
    s.append(":");
    push_hex2(&mut s, a[3]);
    s.append(":");
    push_hex2(&mut s, a[2]);
    s.append(":");
    push_hex2(&mut s, a[1]);
    s.append(":");
    push_hex2(&mut s, a[0]);
    s.append(" (");
    let d = t.description();
    s.append(d.as_str());
    s.append(")");
    assert(s@ =~= address_text(a@, t));
    s
}

impl AddressType {
    /// The text of the address type.
    pub fn description(&self) -> (r: String)
        ensures
            r@ == address_type_text(*self),
    {
        match self {
            AddressType::Public => String::from_str("public"),
            AddressType::Random => String::from_str("random"),
            AddressType::PublicId => String::from_str("public-id"),
            AddressType::RandomId => String::from_str("random-id"),
            AddressType::Other(n) => {
                let mut s = String::from_str("unknown: 0x");
                push_hex2(&mut s, *n);
                s
            },
        }
    }

    /// The number of the address type.
    pub fn number(&self) -> (r: u8)
        ensures
            r == address_type_number(*self),
    {
        match self {
            AddressType::Public => ADDR_LE_PUBLIC,
            AddressType::Random => ADDR_LE_RANDOM,
            AddressType::PublicId => ADDR_LE_PUBLIC_ID,
            AddressType::RandomId => ADDR_LE_RANDOM_ID,
            AddressType::Other(n) => *n,
        }
    }
}

/// An LE address as the host hands it over: a type number and six bytes,
/// least significant first.
#[derive(Clone, Copy, Debug)]
pub struct AddressWrapper {
    pub type_: u8,
    pub val: [u8; 6],
}

impl AddressWrapper {
    /// The six bytes of the address.
    pub fn address(&self) -> (r: &[u8])
        ensures
            r@ == self.val@,
    {
        self.val.as_slice()
    }

    /// The text of the address, as `aa:bb:cc:dd:ee:ff (type)`.
    pub fn description(&self) -> (r: String)
        ensures
            r@ == address_text(self.val@, address_type_of(self.type_)),
    {
        address_string(&self.val, self.address_type())
    }

    /// The type of the address.
    pub fn address_type(&self) -> (r: AddressType)
        ensures
            r == address_type_of(self.type_),
    {
        AddressType::from(self.type_)
    }
}

/// An LE address: six bytes, least significant first, and its type.
#[derive(Clone, Copy, Debug)]
pub struct LeAddress {
    pub address: [u8; 6],
    pub addr_type: AddressType,
}

impl LeAddress {
    pub fn new(addr_type: AddressType, address: [u8; 6]) -> (r: Self)
        ensures
            r.addr_type == addr_type,
            r.address == address,
    {
        Self { addr_type, address }
    }

    /// The text of the address, as `aa:bb:cc:dd:ee:ff (type)`.
    pub fn description(&self) -> (r: String)
        ensures
            r@ == address_text(self.address@, self.addr_type),
    {
        address_string(&self.address, self.addr_type)
    }

    /// The address in the host's form.
    pub fn to_wrapper(&self) -> (r: AddressWrapper)
        ensures
            r.type_ == address_type_number(self.addr_type),
            r.val == self.address,
    {
        AddressWrapper { type_: self.addr_type.number(), val: self.address }
    }
}

/// Parameters of advertising.
#[derive(Clone, Copy, Debug)]
pub struct AdvertisementParameters {
    pub id: u8,
    pub sid: u8,
    pub secondary_max_skip: u8,
    pub options: AdvertisementOptions,
    pub interval_min: u32,
    pub interval_max: u32,
    pub peer: Option<LeAddress>,
}

impl AdvertisementParameters {
    pub fn new(
        id: u8,
        sid: u8,
        secondary_max_skip: u8,
        options: AdvertisementOptions,
        interval_min: u32,
        interval_max: u32,
        peer: Option<LeAddress>,
    ) -> (r: Self)
        ensures
            r.id == id,
            r.sid == sid,
            r.secondary_max_skip == secondary_max_skip,
            r.options == options,
            r.interval_min == interval_min,
            r.interval_max == interval_max,
            r.peer == peer,
    {
        AdvertisementParameters {
            id,
            sid,
            secondary_max_skip,
            options,
            interval_min,
            interval_max,
            peer,
        }
    }

    /// The fixed-layout form of the parameters.
    pub open spec fn to_raw_spec(&self) -> LeAdvParam {
        LeAdvParam {
            id: self.id,
            sid: self.sid,
            secondary_max_skip: self.secondary_max_skip,
            options: self.options@,
            interval_min: self.interval_min,
            interval_max: self.interval_max,
            peer: match self.peer {
                Some(p) => Some(
                    AddressWrapper { type_: address_type_number(p.addr_type), val: p.address },
                ),
                None => None,
            },
        }
    }

    /// The fixed-layout form handed to the host: each field copied, the
    /// options flattened to their bits, the peer converted where present.
    pub fn to_raw(&self) -> (r: LeAdvParam)
        ensures
            r == self.to_raw_spec(),
    {
        let peer = match &self.peer {
            Some(p) => Some(p.to_wrapper()),
            None => None,
        };
        LeAdvParam {
            id: self.id,
            sid: self.sid,
            secondary_max_skip: self.secondary_max_skip,
            options: self.options.bits(),
            interval_min: self.interval_min,
            interval_max: self.interval_max,
            peer,
        }
    }
}

/// Advertising parameters in the fixed layout the host reads; an absent peer
/// becomes a null pointer at the host boundary.
#[derive(Clone, Copy, Debug)]
pub struct LeAdvParam {
    pub id: u8,
    pub sid: u8,
    pub secondary_max_skip: u8,
    pub options: u32,
    pub interval_min: u32,
    pub interval_max: u32,
    pub peer: Option<AddressWrapper>,
}

/// Parameters of scanning.
#[derive(Clone, Copy, Debug, PartialEq, Eq, Structural)]
pub struct ScanParameters {
    pub type_: ScanType,
    pub options: ScanOptions,
    pub interval: u16,
    pub window: u16,
    pub timeout: u16,
    pub interval_coded: u16,
    pub window_coded: u16,
}

impl ScanParameters {
    pub fn new(
        type_: ScanType,
        options: ScanOptions,
        interval: u16,
        window: u16,
        timeout: u16,
        interval_coded: u16,
        window_coded: u16,
    ) -> (r: Self)
        ensures
            r == (ScanParameters {
                type_,
                options,
                interval,
                window,
                timeout,
                interval_coded,
                window_coded,
            }),
    {
        Self { type_, options, interval, window, timeout, interval_coded, window_coded }
    }

    /// The fixed-layout form handed to the host: each field copied, the type
    /// and the options flattened to their bits.
    pub fn to_raw(&self) -> (r: LeScanParam)
        ensures
            r == (LeScanParam {
                type_: self.type_@,
                options: self.options@,
                interval: self.interval,
                window: self.window,
                timeout: self.timeout,
                interval_coded: self.interval_coded,
                window_coded: self.window_coded,
            }),
    {
        LeScanParam {
            type_: self.type_.bits(),
            options: self.options.bits(),
            interval: self.interval,
            window: self.window,
            timeout: self.timeout,
            interval_coded: self.interval_coded,
            window_coded: self.window_coded,
        }
    }
}

/// Scan parameters in the fixed layout the host reads.
#[derive(Clone, Copy, Debug, PartialEq, Eq, Structural)]
pub struct LeScanParam {
    pub type_: u8,
    pub options: u32,
    pub interval: u16,
    pub window: u16,
    pub timeout: u16,
    pub interval_coded: u16,
    pub window_coded: u16,
}

} // verus!
