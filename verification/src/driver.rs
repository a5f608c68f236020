use vstd::prelude::*;

verus! {

/// The bus speeds a device can advertise. This design drives the bus at
/// one fixed speed chosen at connection time.
#[derive(Clone, Copy, Debug, PartialEq, Eq, Structural)]
pub enum Speed {
    Low,
    Full,
    High,
    Unknown,
}

/// The observable state of the USB peripheral, as far as the control
/// endpoint's logic is concerned.
///
/// The peripheral itself is hardware; this record is its specification-level
/// shadow. `in_data` is the payload handed to the most recent IN-side write,
/// `out_packet` is the packet the host has made available for the next read,
/// and the remaining fields record the latest device address, stall signals,
/// receive priming and endpoint-halt clearing requested by the device.
#[verifier::ext_equal]
pub struct DriverModel {
    pub connected: Option<Speed>,
    pub events_enabled: bool,
    pub address: u8,
    pub in_data: Seq<u8>,
    pub in_stalled: bool,
    pub out_stalled: bool,
    pub out_primed: bool,
    pub out_packet: Seq<u8>,
    pub cleared_halt: Option<u8>,
}

/// Equality of two peripheral models on every field the device controls.
///
/// `out_packet` is excluded: it is owned by the host, and reading a packet
/// leaves whatever the host sends next in its place.
pub open spec fn drv_matches(actual: DriverModel, expected: DriverModel) -> bool {
    &&& actual.connected == expected.connected
    &&& actual.events_enabled == expected.events_enabled
    &&& actual.address == expected.address
    &&& actual.in_data == expected.in_data
    &&& actual.in_stalled == expected.in_stalled
    &&& actual.out_stalled == expected.out_stalled
    &&& actual.out_primed == expected.out_primed
    &&& actual.cleared_halt == expected.cleared_halt
}

/// `s` cut down to at most `n` bytes; the whole of `s` when `n` is larger.
pub open spec fn take_at_most(s: Seq<u8>, n: int) -> Seq<u8> {
    if n < 0 {
        Seq::empty()
    } else if n < s.len() {
        s.take(n)
    } else {
        s
    }
}

/// The operations the control logic needs from a USB device peripheral.
///
/// All operations are synchronous register-level interactions with no
/// partial-completion state; the hardware layer implements them, and the
/// contracts state their effect on the peripheral's observable model.
/// A write of an empty slice sends a zero-length packet.
pub trait UsbDriver: Sized {
    /// The peripheral's observable state.
    spec fn model(&self) -> DriverModel;

    /// Connects the device to the bus, advertising the given speed.
    fn connect(&mut self, device_speed: Speed)
        ensures
            final(self).model() == (DriverModel {
                connected: Some(device_speed),
                ..old(self).model()
            }),
    ;

    /// Enables the device-level interrupt event sources.
    fn enable_events(&mut self)
        ensures
            final(self).model() == (DriverModel { events_enabled: true, ..old(self).model() }),
    ;

    /// Disables the device-level interrupt event sources.
    fn disable_events(&mut self)
        ensures
            final(self).model() == (DriverModel { events_enabled: false, ..old(self).model() }),
    ;

    /// Reads the packet the host delivered on the given OUT endpoint.
    /// An empty result is a zero-length packet. What the host delivers
    /// next is out of the device's hands, so `out_packet` afterwards is
    /// unconstrained.
    fn read(&mut self, endpoint_number: u8) -> (data: Vec<u8>)
        ensures
            data@ == old(self).model().out_packet,
            drv_matches(final(self).model(), old(self).model()),
    ;

    /// Writes a packet on the given IN endpoint.
    fn write(&mut self, endpoint_number: u8, data: &[u8])
        ensures
            final(self).model() == (DriverModel { in_data: data@, ..old(self).model() }),
    ;

    /// Writes at most `requested_length` bytes of `data` on the given IN
    /// endpoint, truncating the payload to what the host asked for.
    fn write_requested(&mut self, endpoint_number: u8, requested_length: usize, data: &[u8])
        ensures
            final(self).model() == (DriverModel {
                in_data: take_at_most(data@, requested_length as int),
                ..old(self).model()
            }),
    ;

    /// Applies a device address assigned by the host.
    fn set_address(&mut self, address: u8)
        ensures
            final(self).model() == (DriverModel { address, ..old(self).model() }),
    ;

    /// Signals a protocol failure to the host on the IN side.
    fn stall_endpoint_in(&mut self, endpoint_number: u8)
        ensures
            final(self).model() == (DriverModel { in_stalled: true, ..old(self).model() }),
    ;

    /// Signals a protocol failure to the host on the OUT side.
    fn stall_endpoint_out(&mut self, endpoint_number: u8)
        ensures
            final(self).model() == (DriverModel { out_stalled: true, ..old(self).model() }),
    ;

    /// Prepares the given OUT endpoint to receive a single packet.
    fn ep_out_prime_receive(&mut self, endpoint_number: u8)
        ensures
            final(self).model() == (DriverModel { out_primed: true, ..old(self).model() }),
    ;

    /// Clears the halt condition on the endpoint with the given address.
    fn clear_feature_endpoint_halt(&mut self, endpoint_address: u8)
        ensures
            final(self).model() == (DriverModel {
                cleared_halt: Some(endpoint_address),
                ..old(self).model()
            }),
    ;
}

} // verus!
