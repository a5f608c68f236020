use vstd::prelude::*;

verus! {

/// The system clock frequency the SoC is configured for, in hertz.
pub const SYSTEM_CLOCK_FREQUENCY: u32 = 500000000;

pub fn sysclk() -> (r: u32)
    ensures
        r == SYSTEM_CLOCK_FREQUENCY,
{
    SYSTEM_CLOCK_FREQUENCY
}

/// The interrupt lines of the USB controller and its endpoint engines.
#[derive(Clone, Copy, Debug, PartialEq, Eq, Structural)]
#[allow(non_camel_case_types)]
pub enum Interrupt {
    USB2,
    USB2_EP_CONTROL,
    USB2_EP_IN,
    USB2_EP_OUT,
}

/// Marker for the control-endpoint register block of the USB controller.
#[allow(non_camel_case_types)]
pub struct USB2_EP_CONTROL;

/// Marker for the IN-endpoint register block of the USB controller.
#[allow(non_camel_case_types)]
pub struct USB2_EP_IN;

/// Marker for the OUT-endpoint register block of the USB controller.
#[allow(non_camel_case_types)]
pub struct USB2_EP_OUT;

/// The interrupt pending in the CPU's machine IRQ pending register, or the
/// raw register bits when none or an unknown one is pending. This port has
/// no pending register wired up yet, so nothing is ever pending.
pub fn pending() -> (r: Result<Interrupt, usize>)
    ensures
        r == Err::<Interrupt, usize>(0usize),
{
    Err(0)
}

} // verus!
