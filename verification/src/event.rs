use vstd::prelude::*;
use crate::setup::SetupPacket;

verus! {

/// A bus event reported by the USB peripheral for one of its endpoints.
///
/// An event never owns payload bytes: data packets are pulled from the
/// peripheral on demand when the event is handled.
#[derive(Clone, Copy, Debug, PartialEq, Eq, Structural)]
pub enum UsbEvent {
    BusReset,
    /// A setup packet arrived on the given endpoint.
    ReceiveSetupPacket(u8, SetupPacket),
    /// A data packet arrived on the given endpoint.
    ReceivePacket(u8),
    /// A previously queued write on the given endpoint finished.
    SendComplete(u8),
}

impl UsbEvent {
    /// The endpoint an event belongs to; a bus reset belongs to none.
    pub open spec fn spec_endpoint(self) -> Option<u8> {
        match self {
            UsbEvent::BusReset => None,
            UsbEvent::ReceiveSetupPacket(ep, _) => Some(ep),
            UsbEvent::ReceivePacket(ep) => Some(ep),
            UsbEvent::SendComplete(ep) => Some(ep),
        }
    }

    pub fn endpoint(&self) -> (r: Option<u8>)
        ensures
            r == self.spec_endpoint(),
    {
        match self {
            UsbEvent::BusReset => None,
            UsbEvent::ReceiveSetupPacket(ep, _) => Some(*ep),
            UsbEvent::ReceivePacket(ep) => Some(*ep),
            UsbEvent::SendComplete(ep) => Some(*ep),
        }
    }
}

/// The logical USB interface an event belongs to: the control port that
/// carries the vendor protocol, or the target-facing port handled by an
/// external sink.
#[derive(Clone, Copy, Debug, PartialEq, Eq, Structural)]
pub enum UsbInterface {
    Control,
    Target,
}

/// An event produced in interrupt context and carried through the event
/// queue to the main loop.
#[derive(Clone, Copy, Debug, PartialEq, Eq)]
pub enum InterruptEvent {
    /// A bus event on one of the logical USB interfaces.
    Usb(UsbInterface, UsbEvent),
    /// An error reported from interrupt context, such as a queue overflow.
    ErrorMessage(&'static str),
}

} // verus!
