//! Sensor values, and the context of errors raised by the sensor wrappers.
use crate::Context;
use vstd::prelude::*;

verus! {

/// The subsystem name carried by every error of the sensor wrappers.
pub struct SensorWrapperContext {}

impl Context for SensorWrapperContext {
    open spec fn spec_name(&self) -> Seq<char> {
        seq!['s', 'e', 'n', 's', 'o', 'r', ' ', 'w', 'r', 'a', 'p', 'p', 'e', 'r']
    }

    fn name(&self) -> (r: &'static str) {
        let r = "sensor wrapper";
        proof {
            reveal_strlit("sensor wrapper");
        }
        r
    }
}

/// A sensor value as Zephyr represents it: `val1 + val2 * 10^-6`.
///
/// A value is normalized where `0 <= val2 < 1_000_000`; every conversion of
/// this library yields a normalized value.
#[derive(Copy, Clone, Debug, PartialEq, Eq, Structural)]
pub struct SensorValue {
    pub val1: i32,
    pub val2: i32,
}

impl From<i32> for SensorValue {
    fn from(other: i32) -> (r: Self) {
        SensorValue { val1: other, val2: 0 }
    }
}

impl vstd::std_specs::convert::FromSpecImpl<i32> for SensorValue {
    open spec fn obeys_from_spec() -> bool {
        true
    }

    open spec fn from_spec(other: i32) -> SensorValue {
        SensorValue { val1: other, val2: 0 }
    }
}

impl From<SensorValue> for i32 {
    fn from(other: SensorValue) -> (r: Self) {
        other.val1
    }
}

impl vstd::std_specs::convert::FromSpecImpl<SensorValue> for i32 {
    open spec fn obeys_from_spec() -> bool {
        true
    }

    open spec fn from_spec(other: SensorValue) -> i32 {
        other.val1
    }
}

} // verus!
