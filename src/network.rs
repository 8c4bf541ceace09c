//! A simple network buffer, as the host hands over received advertising data.
use crate::bluetooth::data::{decode_sequence, decode_spec, BtData};
use vstd::prelude::*;

verus! {

/// A buffer of `size` bytes of which the first `len` hold data.
pub struct NetworkBufferSimple {
    data: Vec<u8>,
    size: u16,
}

impl View for NetworkBufferSimple {
    type V = Seq<u8>;

    /// The bytes that hold data.
    closed spec fn view(&self) -> Seq<u8> {
        self.data@
    }
}

impl NetworkBufferSimple {
    /// The buffer over `data`, of which the first `len` bytes hold data and
    /// which has room for `size`.
    pub fn new(data: &[u8], len: u16, size: u16) -> (r: Self)
        requires
            len <= data@.len(),
        ensures
            r@ == data@.take(len as int),
            r.spec_size() == size,
    {
        let held = vstd::slice::slice_subrange(data, 0, len as usize);
        NetworkBufferSimple { data: vstd::slice::slice_to_vec(held), size }
    }

    /// The room of the buffer.
    pub closed spec fn spec_size(&self) -> u16 {
        self.size
    }

    /// The room of the buffer.
    pub fn size(&self) -> (r: u16)
        ensures
            r == self.spec_size(),
    {
        self.size
    }

    /// The bytes that hold data.
    pub fn data(&self) -> (r: &[u8])
        ensures
            r@ == self@,
    {
        self.data.as_slice()
    }

    /// The advertising elements in the buffer, read as
    /// [`decode_sequence`] reads them.
    pub fn parse_bt_data(&self) -> (r: Vec<BtData>)
        ensures
            r@.map_values(|d: BtData| d@) == decode_spec(self@),
    {
        decode_sequence(self.data.as_slice())
    }
}

} // verus!
