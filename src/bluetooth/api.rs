//! The single-use capability to the enabled Bluetooth host, and the checks and
//! conversions made before each call into the host.
use crate::bluetooth::data::{record_payload, record_type, BtData, RawBtData};
use crate::bluetooth::le::{AdvertisementParameters, LeAdvParam};
use crate::bluetooth::BluetoothContext;
use crate::{check_status, classify_status, Context, ErrorNumber, ZephyrError, ZephyrResult};
use vstd::prelude::*;
use vstd::string::StringSliceAdditionalSpecFns;

verus! {

/// The capability to use the enabled Bluetooth host. Only an
/// [`ApiContainer`] hands one out, and each container only once.
pub struct Api {
    _private: (),
}

/// The placeholder that holds the one capability of a process until it is taken.
pub struct ApiContainer {
    api: Option<Api>,
}

/// What taking the capability out of a container does: it is handed out
/// exactly when the container held it, and the container holds it no more.
pub open spec fn take_api_post(before: ApiContainer, r: Option<Api>, after: ApiContainer) -> bool {
    &&& (r is Some <==> before.holds_api())
    &&& !after.holds_api()
}

impl ApiContainer {
    /// A container that holds the capability. An application creates one for
    /// the whole process.
    pub fn new() -> (r: Self)
        ensures
            r.holds_api(),
    {
        ApiContainer { api: Some(Api { _private: () }) }
    }

    /// Whether the capability is still in the container.
    pub closed spec fn holds_api(&self) -> bool {
        self.api is Some
    }

    /// Whether the capability is still in the container.
    pub fn has_api(&self) -> (r: bool)
        ensures
            r == self.holds_api(),
    {
        self.api.is_some()
    }

    /// Takes the capability out; `None` where it was taken before.
    pub fn take_api(&mut self) -> (r: Option<Api>)
        ensures
            take_api_post(*old(self), r, *final(self)),
    {
        self.api.take()
    }
}

/// Two takes from one container never both hand out the capability: the
/// second one yields nothing.
pub proof fn lemma_second_take_fails(
    c0: ApiContainer,
    first: Option<Api>,
    c1: ApiContainer,
    second: Option<Api>,
    c2: ApiContainer,
)
    requires
        take_api_post(c0, first, c1),
        take_api_post(c1, second, c2),
    ensures
        second is None,
{
}

impl Api {
    /// The outcome of enabling the host, given the status its enable call
    /// reported: the capability on success, an error of the Bluetooth layer
    /// otherwise.
    pub fn enabled(self, errno: i32) -> (r: ZephyrResult<Api>)
        ensures
            r is Ok <==> errno == 0,
            r matches Err(e) ==> e.spec_number() == classify_status(errno) && e.spec_context()
                == Some(BluetoothContext {}.spec_name()),
    {
        if errno == 0 {
            Ok(self)
        } else {
            Err(ZephyrError::from_errno_with_context(errno, &BluetoothContext {}))
        }
    }

    /// Checks a device name before it is handed to the host as a C string: a
    /// name whose UTF-8 bytes hold a zero byte cannot be, and is refused as
    /// not implemented.
    pub fn check_name(name: &str) -> (r: ZephyrResult<()>)
        ensures
            r is Ok <==> !name.spec_bytes().contains(0u8),
            r matches Err(e) ==> e.spec_number() == ErrorNumber::NotImplemented && e.spec_context()
                == Some(BluetoothContext {}.spec_name()),
    {
        let bytes = name.as_bytes();
        let mut i: usize = 0;
        while i < bytes.len()
            invariant
                i <= bytes@.len(),
                bytes@ == name.spec_bytes(),
                forall|j: int| 0 <= j < i ==> bytes@[j] != 0u8,
            decreases bytes@.len() - i,
        {
            if bytes[i] == 0 {
                return Err(ZephyrError::new_with_context(ErrorNumber::NotImplemented, &BluetoothContext {}));
            }
            i = i + 1;
        }
        Ok(())
    }

    /// The result of a host call made with this capability, from the status
    /// it reported.
    pub fn host_result(&self, errno: i32) -> (r: ZephyrResult<()>)
        ensures
            r is Ok <==> errno == 0,
            r matches Err(e) ==> e.spec_number() == classify_status(errno) && e.spec_context()
                == Some(BluetoothContext {}.spec_name()),
    {
        check_status(errno, &BluetoothContext {})
    }
}

/// The type and payload of each element, in order.
pub open spec fn raw_views(records: Seq<BtData>) -> Seq<(u8, Seq<u8>)> {
    records.map_values(|d: BtData| (record_type(d@), record_payload(d@)))
}

fn raw_records(records: &[BtData]) -> (r: Vec<RawBtData>)
    ensures
        r@.map_values(|x: RawBtData| x@) == raw_views(records@),
{
    let mut out: Vec<RawBtData> = Vec::new();
    let mut i: usize = 0;
    while i < records.len()
        invariant
            i <= records@.len(),
            out@.map_values(|x: RawBtData| x@) =~= raw_views(records@).take(i as int),
        decreases records@.len() - i,
    {
        let raw = records[i].raw();
        assert(out@.push(raw).map_values(|x: RawBtData| x@) =~= out@.map_values(
            |x: RawBtData| x@,
        ).push(raw@));
        out.push(raw);
        assert(raw_views(records@).take(i as int + 1) =~= raw_views(records@).take(i as int).push(
            raw@,
        ));
        i = i + 1;
    }
    assert(raw_views(records@).take(records@.len() as int) =~= raw_views(records@));
    out
}

/// Everything a start of advertising hands to the host: the parameters in
/// their fixed layout, and the advertising and scan-response elements as
/// type and payload.
pub struct RawAdvertisementHandle {
    pub raw_ad_data: Option<Vec<RawBtData>>,
    pub raw_sd_data: Option<Vec<RawBtData>>,
    pub adv_param: LeAdvParam,
}

/// The elements handed to the host for an optional list of elements.
pub open spec fn raw_list_view(v: Option<Vec<RawBtData>>) -> Option<Seq<(u8, Seq<u8>)>> {
    match v {
        Some(v) => Some(v@.map_values(|x: RawBtData| x@)),
        None => None,
    }
}

impl RawAdvertisementHandle {
    pub fn new(
        parameters: &AdvertisementParameters,
        advertisement_data: Option<&[BtData]>,
        scan_response_data: Option<&[BtData]>,
    ) -> (r: Self)
        ensures
            r.adv_param == parameters.to_raw_spec(),
            raw_list_view(r.raw_ad_data) == match advertisement_data {
                Some(s) => Some(raw_views(s@)),
                None => None::<Seq<(u8, Seq<u8>)>>,
            },
            raw_list_view(r.raw_sd_data) == match scan_response_data {
                Some(s) => Some(raw_views(s@)),
                None => None::<Seq<(u8, Seq<u8>)>>,
            },
    {
        let adv_param = parameters.to_raw();
        let raw_ad_data = match advertisement_data {
            Some(s) => Some(raw_records(s)),
            None => None,
        };
        let raw_sd_data = match scan_response_data {
            Some(s) => Some(raw_records(s)),
            None => None,
        };
        RawAdvertisementHandle { raw_ad_data, raw_sd_data, adv_param }
    }

    /// The number of advertising elements; 0 where there are none.
    pub fn ad_len(&self) -> (r: usize)
        ensures
            r == match self.raw_ad_data {
                Some(v) => v@.len(),
                None => 0,
            },
    {
        match &self.raw_ad_data {
            Some(v) => v.len(),
            None => 0,
        }
    }

    /// The number of scan-response elements; 0 where there are none.
    pub fn sd_len(&self) -> (r: usize)
        ensures
            r == match self.raw_sd_data {
                Some(v) => v@.len(),
                None => 0,
            },
    {
        match &self.raw_sd_data {
            Some(v) => v.len(),
            None => 0,
        }
    }
}

} // verus!
