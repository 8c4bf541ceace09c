//! The parts of the GPIO wrappers that decide rather than call.
use crate::Context;
use vstd::prelude::*;

verus! {

/// The subsystem name carried by every error of the GPIO wrappers.
pub struct GpioWrapperContext {}

impl Context for GpioWrapperContext {
    open spec fn spec_name(&self) -> Seq<char> {
        seq!['g', 'p', 'i', 'o', ' ', 'w', 'r', 'a', 'p', 'p', 'e', 'r', ' ', 'c', 'o', 'n', 't', 'e', 'x', 't']
    }

    fn name(&self) -> (r: &'static str) {
        let r = "gpio wrapper context";
        proof {
            reveal_strlit("gpio wrapper context");
        }
        r
    }
}

/// The port mask that selects pin `pin` of a 32-pin port.
pub fn pin_mask(pin: u8) -> (r: u32)
    requires
        pin < 32,
    ensures
        r == 1u32 << pin,
{
    1u32 << pin
}

} // verus!
