use vstd::prelude::*;

verus! {

/// The two GPIO pmod channels tracing can drive.
#[derive(Clone, Copy, Debug, PartialEq, Eq, Structural)]
pub enum Channel {
    A,
    B,
}

/// A logic analyzer attached to the debug pmods: tracing raises a pin
/// around the traced operation. Implementations belong to the board
/// support; [`NoOpAnalyzer`] is the default when none is attached.
pub trait LogicAnalyzer {
    fn high(&self, channel: Channel, bit_number: u8);

    fn low(&self, channel: Channel, bit_number: u8);
}

/// The pin assignments used for tracing.
#[non_exhaustive]
pub struct Bit;

impl Bit {
    // pmod A
    pub const A_GET_EVENTS: u8 = 0;

    pub const A_READ_CONTROL: u8 = 1;

    pub const A_READ_ENDPOINT: u8 = 2;

    pub const A_WRITE_ENDPOINT: u8 = 3;

    pub const A_PRIME_RECEIVE: u8 = 4;

    pub const A_PACKET_PUSH: u8 = 6;

    pub const A_PACKET_POP: u8 = 7;

    // pmod B
    pub const B_EP_IS_0: u8 = 0;

    pub const B_EP_IS_1: u8 = 1;

    pub const B_IRQ_BUS_RESET: u8 = 2;

    pub const B_IRQ_EP_CONTROL: u8 = 3;

    pub const B_IRQ_EP_IN: u8 = 4;

    pub const B_IRQ_EP_OUT: u8 = 5;
}

/// An analyzer that drives no pins, for systems without one attached.
pub struct NoOpAnalyzer;

impl LogicAnalyzer for NoOpAnalyzer {
    fn high(&self, channel: Channel, bit_number: u8) {
    }

    fn low(&self, channel: Channel, bit_number: u8) {
    }
}

/// Issues a pulse on the given channel and bit number around `f`: the pin
/// goes high, `f` runs, the pin goes low, and `f`'s result is handed back.
/// The analyzer is injected by the caller; tracing in interrupt handlers
/// and in the main loop must use separate channels.
pub fn trace<A: LogicAnalyzer, R, F: FnOnce() -> R>(
    analyzer: &A,
    channel: Channel,
    bit_number: u8,
    f: F,
) -> (r: R)
    requires
        f.requires(()),
    ensures
        f.ensures((), r),
{
    analyzer.high(channel, bit_number);
    let result = f();
    analyzer.low(channel, bit_number);
    result
}

} // verus!
