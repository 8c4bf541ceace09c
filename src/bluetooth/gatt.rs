//! The GATT attribute table: attributes, services, the choice of the handler
//! that serves an access, and the assignment of handles at registration.
use crate::bluetooth::uuid::{BtUuid128, RawUuid, GATT_CHARACTERISTIC_UUID, PRIMARY_SERVICE_UUID};
use crate::bluetooth::BluetoothContext;
use crate::{ErrorNumber, ZephyrError, ZephyrResult};
use vstd::prelude::*;

verus! {

/// Permission: no access.
pub const GATT_PERM_NONE: u8 = 0x00;

/// Permission: the attribute may be read.
pub const GATT_PERM_READ: u8 = 0x01;

/// Permission: the attribute may be written.
pub const GATT_PERM_WRITE: u8 = 0x02;

/// The lowest attribute handle.
pub const FIRST_ATTRIBUTE_HANDLE: u16 = 0x0001;

/// The highest attribute handle.
pub const LAST_ATTRIBUTE_HANDLE: u16 = 0xffff;

/// Discovery of primary services.
pub const GATT_DISCOVER_PRIMARY: u8 = 0;

/// Discovery of secondary services.
pub const GATT_DISCOVER_SECONDARY: u8 = 1;

/// Discovery of included services.
pub const GATT_DISCOVER_INCLUDE: u8 = 2;

/// Discovery of characteristic descriptors.
pub const GATT_DISCOVER_DESCRIPTOR: u8 = 4;

/// Discovery of the standard characteristic descriptors.
pub const GATT_DISCOVER_STD_CHAR_DESC: u8 = 6;

/// A discovery callback's answer: stop.
pub const GATT_ITER_STOP: u8 = 0;

/// A discovery callback's answer: go on.
pub const GATT_ITER_CONTINUE: u8 = 1;

/// The status with which the host refuses an attribute table whose handles
/// do not increase (`-EINVAL`).
pub const INVALID_ARGUMENT: i32 = -22;

/// The read handler of an attribute. Application handlers are named by their
/// index in the application's table of handlers, in one of two calling
/// conventions: the host's native one, or the typed one of this library.
#[derive(Clone, Copy, Debug, PartialEq, Eq, Structural)]
pub enum AttributeReadCallback {
    Native(u32),
    Typed(u32),
    /// The host's read of a service declaration: the service's UUID.
    ServiceDeclaration,
    /// The host's read of a characteristic declaration: properties, value
    /// handle and UUID.
    CharacteristicDeclaration,
}

/// The write handler of an attribute, named by its index in the
/// application's table of handlers.
#[derive(Clone, Copy, Debug, PartialEq, Eq, Structural)]
pub enum AttributeWriteCallback {
    Native(u32),
    Typed(u32),
}

/// The value of a characteristic declaration.
#[derive(Clone, Copy, Debug)]
pub struct CharacteristicDeclaration {
    pub uuid: RawUuid,
    pub value_handle: u16,
    pub properties: u8,
}

/// What an attribute refers to besides its type.
#[derive(Clone, Copy, Debug)]
pub enum UserData {
    Nothing,
    /// The UUID of a declared service.
    Service(RawUuid),
    /// The value of a characteristic declaration.
    Characteristic(CharacteristicDeclaration),
    /// Application data, named by its index in the application's storage.
    Application(u32),
}

/// One attribute of a GATT table. A handle of 0 asks the host to assign one.
#[derive(Clone, Copy, Debug)]
pub struct GattAttribute {
    pub uuid: RawUuid,
    pub read: Option<AttributeReadCallback>,
    pub write: Option<AttributeWriteCallback>,
    pub user_data: UserData,
    pub handle: u16,
    pub perm: u8,
}

impl GattAttribute {
    pub fn new(
        uuid: RawUuid,
        read: Option<AttributeReadCallback>,
        write: Option<AttributeWriteCallback>,
        user_data: UserData,
        handle: u16,
        perm: u8,
    ) -> (r: Self)
        ensures
            r == (GattAttribute { uuid, read, write, user_data, handle, perm }),
    {
        GattAttribute { uuid, read, write, user_data, handle, perm }
    }
}

/// An attribute whose handle the host assigns.
pub fn gatt_attribute(
    uuid: RawUuid,
    perm: u8,
    read: Option<AttributeReadCallback>,
    write: Option<AttributeWriteCallback>,
    user_data: UserData,
) -> (r: GattAttribute)
    ensures
        r == (GattAttribute { uuid, read, write, user_data, handle: 0, perm }),
{
    GattAttribute::new(uuid, read, write, user_data, 0, perm)
}

/// The declaration of a primary service of UUID `uuid`.
pub fn gatt_primary_service(uuid: RawUuid) -> (r: GattAttribute)
    ensures
        r == (GattAttribute {
            uuid: RawUuid::Short16(PRIMARY_SERVICE_UUID),
            read: Some(AttributeReadCallback::ServiceDeclaration),
            write: None,
            user_data: UserData::Service(uuid),
            handle: 0,
            perm: GATT_PERM_READ,
        }),
{
    gatt_attribute(
        RawUuid::Short16(PRIMARY_SERVICE_UUID),
        GATT_PERM_READ,
        Some(AttributeReadCallback::ServiceDeclaration),
        None,
        UserData::Service(uuid),
    )
}

/// A characteristic: its declaration, which the host reads with its own
/// handler, immediately followed by its value attribute.
pub fn gatt_characteristic(
    uuid: RawUuid,
    properties: u8,
    perm: u8,
    read: Option<AttributeReadCallback>,
    write: Option<AttributeWriteCallback>,
    value: UserData,
) -> (r: (GattAttribute, GattAttribute))
    ensures
        r.0 == (GattAttribute {
            uuid: RawUuid::Short16(GATT_CHARACTERISTIC_UUID),
            read: Some(AttributeReadCallback::CharacteristicDeclaration),
            write: None,
            user_data: UserData::Characteristic(
                CharacteristicDeclaration { uuid, value_handle: 0, properties },
            ),
            handle: 0,
            perm: GATT_PERM_READ,
        }),
        r.1 == (GattAttribute { uuid, read, write, user_data: value, handle: 0, perm }),
{
    let declaration = gatt_attribute(
        RawUuid::Short16(GATT_CHARACTERISTIC_UUID),
        GATT_PERM_READ,
        Some(AttributeReadCallback::CharacteristicDeclaration),
        None,
        UserData::Characteristic(CharacteristicDeclaration { uuid, value_handle: 0, properties }),
    );
    (declaration, gatt_attribute(uuid, perm, read, write, value))
}

/// The handler chosen to serve a read.
#[derive(Clone, Copy, Debug, PartialEq, Eq, Structural)]
pub enum ReadDispatch {
    /// Call the application handler of this index with the host's pointers.
    Native(u32),
    /// Call the application handler of this index with typed views.
    Typed(u32),
    /// Let the host read the service declaration.
    ServiceDeclaration,
    /// Let the host read the characteristic declaration.
    CharacteristicDeclaration,
}

/// The handler chosen to serve a write.
#[derive(Clone, Copy, Debug, PartialEq, Eq, Structural)]
pub enum WriteDispatch {
    Native(u32),
    Typed(u32),
}

/// Chooses the handler that serves a read of `attribute`. The host refuses a
/// read of an attribute without a read handler before it gets here.
pub fn dispatch_read(attribute: &GattAttribute) -> (r: ReadDispatch)
    requires
        attribute.read is Some,
    ensures
        r == match attribute.read.unwrap() {
            AttributeReadCallback::Native(i) => ReadDispatch::Native(i),
            AttributeReadCallback::Typed(i) => ReadDispatch::Typed(i),
            AttributeReadCallback::ServiceDeclaration => ReadDispatch::ServiceDeclaration,
            AttributeReadCallback::CharacteristicDeclaration => ReadDispatch::CharacteristicDeclaration,
        },
{
    match attribute.read {
        Some(AttributeReadCallback::Native(i)) => ReadDispatch::Native(i),
        Some(AttributeReadCallback::Typed(i)) => ReadDispatch::Typed(i),
        Some(AttributeReadCallback::ServiceDeclaration) => ReadDispatch::ServiceDeclaration,
        Some(AttributeReadCallback::CharacteristicDeclaration) => ReadDispatch::CharacteristicDeclaration,
        None => ReadDispatch::ServiceDeclaration,
    }
}

/// Chooses the handler that serves a write of `attribute`. The host refuses
/// a write of an attribute without a write handler before it gets here.
pub fn dispatch_write(attribute: &GattAttribute) -> (r: WriteDispatch)
    requires
        attribute.write is Some,
    ensures
        r == match attribute.write.unwrap() {
            AttributeWriteCallback::Native(i) => WriteDispatch::Native(i),
            AttributeWriteCallback::Typed(i) => WriteDispatch::Typed(i),
        },
{
    match attribute.write {
        Some(AttributeWriteCallback::Native(i)) => WriteDispatch::Native(i),
        Some(AttributeWriteCallback::Typed(i)) => WriteDispatch::Typed(i),
        None => WriteDispatch::Native(0),
    }
}

/// The handle that the attribute of requested handle `h` gets after an
/// attribute of handle `prev`: the next one where `h` is 0, `h` itself where
/// it is higher than `prev`; none where the handles would not increase.
pub open spec fn next_handle(prev: u16, h: u16) -> Option<u16> {
    if h == 0 {
        if prev < LAST_ATTRIBUTE_HANDLE {
            Some((prev + 1) as u16)
        } else {
            None
        }
    } else if h > prev {
        Some(h)
    } else {
        None
    }
}

/// The handles that attributes of requested handles `hs` get, in order, after
/// the handle `last`; none where that cannot be done.
pub open spec fn assigned_handles(hs: Seq<u16>, last: u16) -> Option<Seq<u16>>
    decreases hs.len(),
{
    if hs.len() == 0 {
        Some(Seq::empty())
    } else {
        match assigned_handles(hs.drop_last(), last) {
            Some(prefix) => {
                let prev = if prefix.len() == 0 {
                    last
                } else {
                    prefix.last()
                };
                match next_handle(prev, hs.last()) {
                    Some(h) => Some(prefix.push(h)),
                    None => None,
                }
            },
            None => None,
        }
    }
}

/// An ordered table of attributes, in declaration order.
pub struct GattService {
    attrs: Vec<GattAttribute>,
}

impl View for GattService {
    type V = Seq<GattAttribute>;

    closed spec fn view(&self) -> Seq<GattAttribute> {
        self.attrs@
    }
}

/// The handles of a sequence of attributes.
pub open spec fn handles_of(attrs: Seq<GattAttribute>) -> Seq<u16> {
    attrs.map_values(|a: GattAttribute| a.handle)
}

impl GattService {
    /// The service of the attributes `attrs`, in the order given.
    pub fn new(attrs: Vec<GattAttribute>) -> (r: Self)
        ensures
            r@ == attrs@,
    {
        GattService { attrs }
    }

    /// The number of attributes.
    pub fn len(&self) -> (r: usize)
        ensures
            r == self@.len(),
    {
        self.attrs.len()
    }

    /// The attribute at position `i`.
    pub fn attribute(&self, i: usize) -> (r: GattAttribute)
        requires
            i < self@.len(),
        ensures
            r == self@[i as int],
    {
        self.attrs[i]
    }

    /// Assigns the handles as the host does at registration, after the
    /// handle `last` already in use: an attribute of handle 0 gets the next
    /// handle, one with a handle keeps it where it is higher than the one
    /// before. Returns the last handle in use afterwards; where the handles
    /// cannot increase, returns the host's invalid-argument error and leaves
    /// the table as it was.
    pub fn assign_handles(&mut self, last: u16) -> (r: ZephyrResult<u16>)
        ensures
            r is Ok <==> assigned_handles(handles_of(old(self)@), last) is Some,
            r matches Ok(new_last) ==> {
                let hs = assigned_handles(handles_of(old(self)@), last).unwrap();
                &&& handles_of(final(self)@) == hs
                &&& final(self)@.len() == old(self)@.len()
                &&& forall|i: int|
                    0 <= i < old(self)@.len() ==> (#[trigger] final(self)@[i]) == (GattAttribute {
                        handle: hs[i],
                        ..old(self)@[i]
                    })
                &&& new_last == if hs.len() == 0 {
                    last
                } else {
                    hs.last()
                }
            },
            r matches Err(e) ==> final(self)@ == old(self)@ && e.spec_number()
                == ErrorNumber::Other(22),
    {
        let ghost hs0 = handles_of(self.attrs@);
        let mut out: Vec<GattAttribute> = Vec::new();
        let mut prev: u16 = last;
        let mut i: usize = 0;
        while i < self.attrs.len()
            invariant
                i <= self.attrs@.len(),
                hs0 == handles_of(self.attrs@),
                out@.len() == i,
                assigned_handles(hs0.take(i as int), last) == Some(handles_of(out@)),
                prev == if i == 0 {
                    last
                } else {
                    out@.last().handle
                },
                forall|j: int|
                    0 <= j < i ==> (#[trigger] out@[j]) == (GattAttribute {
                        handle: out@[j].handle,
                        ..self.attrs@[j]
                    }),
            decreases self.attrs@.len() - i,
        {
            let a = self.attrs[i];
            proof {
                assert(hs0.take(i as int + 1).drop_last() =~= hs0.take(i as int));
                assert(hs0.take(i as int + 1).last() == a.handle);
            }
            let h: u16 = if a.handle == 0 {
                if prev < LAST_ATTRIBUTE_HANDLE {
                    prev + 1
                } else {
                    proof {
                        lemma_assigned_prefix_fails(hs0, last, i as int + 1);
                    }
                    return Err(ZephyrError::from_errno_with_context(INVALID_ARGUMENT, &BluetoothContext {}));
                }
            } else if a.handle > prev {
                a.handle
            } else {
                proof {
                    lemma_assigned_prefix_fails(hs0, last, i as int + 1);
                }
                return Err(ZephyrError::from_errno_with_context(INVALID_ARGUMENT, &BluetoothContext {}));
            };
            let b = GattAttribute { handle: h, ..a };
            proof {
                assert(handles_of(out@.push(b)) =~= handles_of(out@).push(h));
            }
            out.push(b);
            prev = h;
            i = i + 1;
        }
        proof {
            assert(hs0.take(i as int) =~= hs0);
        }
        self.attrs = out;
        Ok(prev)
    }
}

proof fn lemma_assigned_prefix_fails(hs: Seq<u16>, last: u16, n: int)
    requires
        0 <= n <= hs.len(),
        assigned_handles(hs.take(n), last) is None,
    ensures
        assigned_handles(hs, last) is None,
    decreases hs.len() - n,
{
    if n < hs.len() {
        assert(hs.take(n + 1).drop_last() =~= hs.take(n));
        lemma_assigned_prefix_fails(hs, last, n + 1);
    } else {
        assert(hs.take(n) =~= hs);
    }
}

/// Handle assignment keeps the declaration order: the assigned handles are
/// strictly increasing, all above the handle already in use, and a handle
/// that was asked for is kept.
pub proof fn lemma_assigned_handles_increase(hs: Seq<u16>, last: u16)
    requires
        assigned_handles(hs, last) is Some,
    ensures
        ({
            let out = assigned_handles(hs, last).unwrap();
            &&& out.len() == hs.len()
            &&& forall|i: int, j: int| 0 <= i < j < out.len() ==> out[i] < out[j]
            &&& forall|i: int| 0 <= i < out.len() ==> last < #[trigger] out[i]
            &&& forall|i: int| 0 <= i < out.len() && hs[i] != 0 ==> #[trigger] out[i] == hs[i]
        }),
    decreases hs.len(),
{
    if hs.len() > 0 {
        lemma_assigned_handles_increase(hs.drop_last(), last);
    }
}

/// Where no handle is asked for, the attributes get the handles right after
/// the one already in use, one after another.
pub proof fn lemma_auto_handles_consecutive(hs: Seq<u16>, last: u16)
    requires
        forall|i: int| 0 <= i < hs.len() ==> hs[i] == 0,
        last + hs.len() <= LAST_ATTRIBUTE_HANDLE,
    ensures
        assigned_handles(hs, last) == Some(Seq::new(hs.len(), |i: int| (last + i + 1) as u16)),
    decreases hs.len(),
{
    if hs.len() > 0 {
        lemma_auto_handles_consecutive(hs.drop_last(), last);
        assert(Seq::new(hs.drop_last().len(), |i: int| (last + i + 1) as u16).push(
            (last + hs.len()) as u16,
        ) =~= Seq::new(hs.len(), |i: int| (last + i + 1) as u16));
    } else {
        assert(Seq::new(hs.len(), |i: int| (last + i + 1) as u16) =~= Seq::<u16>::empty());
    }
}

/// Parameters of a notification of the attribute of a given UUID.
#[derive(Clone, Debug)]
pub struct NotifyParams {
    pub uuid: BtUuid128,
    pub data: Vec<u8>,
    pub len: u16,
}

impl NotifyParams {
    /// A notification of `data` for the attribute of UUID `attribute`.
    pub fn by_uuid(attribute: &BtUuid128, data: &[u8]) -> (r: Self)
        requires
            data@.len() <= u16::MAX,
        ensures
            r.uuid.val@ == attribute.val@,
            r.data@ == data@,
            r.len == data@.len(),
    {
        NotifyParams {
            uuid: *attribute,
            data: vstd::slice::slice_to_vec(data),
            len: data.len() as u16,
        }
    }
}

/// Parameters of a discovery on a connection.
#[derive(Clone, Copy, Debug)]
pub struct DiscoverParameters {
    pub uuid: BtUuid128,
    /// The index of the discovery callback in the application's table.
    pub discover_cb: u32,
    pub start_handle: u16,
    pub end_handle: u16,
    pub type_: u8,
}

impl DiscoverParameters {
    pub fn new(uuid: &BtUuid128, discover_cb: u32, start_handle: u16, end_handle: u16, type_: u8) -> (r: DiscoverParameters)
        ensures
            r.uuid.val@ == uuid.val@,
            r.discover_cb == discover_cb,
            r.start_handle == start_handle,
            r.end_handle == end_handle,
            r.type_ == type_,
    {
        DiscoverParameters { uuid: *uuid, discover_cb, start_handle, end_handle, type_ }
    }
}

} // verus!
