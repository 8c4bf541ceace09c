//! The Bluetooth Low Energy layer.
use crate::Context;
use vstd::prelude::*;

pub mod api;
pub mod data;
pub mod gatt;
pub mod le;
pub mod uuid;

verus! {

/// The subsystem name carried by every error of the Bluetooth layer.
pub struct BluetoothContext {}

impl Context for BluetoothContext {
    open spec fn spec_name(&self) -> Seq<char> {
        seq!['b', 'l', 'u', 'e', 't', 'o', 'o', 't', 'h']
    }

    fn name(&self) -> (r: &'static str) {
        let r = "bluetooth";
        proof {
            reveal_strlit("bluetooth");
        }
        r
    }
}

} // verus!
