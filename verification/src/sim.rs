use vstd::prelude::*;
use crate::driver::{take_at_most, DriverModel, Speed, UsbDriver};
use crate::gcp::{CommandRegistry, GreatError};

verus! {

/// A fresh copy of a byte string.
pub fn copy_bytes(data: &[u8]) -> (r: Vec<u8>)
    ensures
        r@ == data@,
{
    let mut bytes: Vec<u8> = Vec::new();
    let mut i: usize = 0;
    while i < data.len()
        invariant
            i <= data@.len(),
            bytes@ == data@.take(i as int),
        decreases data@.len() - i,
    {
        bytes.push(data[i]);
        proof {
            assert(bytes@ =~= data@.take(i + 1));
        }
        i += 1;
    }
    proof {
        assert(bytes@ =~= data@);
    }
    bytes
}

/// A software stand-in for the USB peripheral: it keeps the observable
/// state of the hardware in plain fields, so the protocol core can be run
/// and examined off the device. The host side is played by `host_send`,
/// which queues the packets a read will return.
pub struct SimDriver {
    pub connected: Option<Speed>,
    pub events_enabled: bool,
    pub address: u8,
    pub in_data: Vec<u8>,
    pub in_stalled: bool,
    pub out_stalled: bool,
    pub out_primed: bool,
    pub host_packets: Vec<Vec<u8>>,
    pub cleared_halt: Option<u8>,
}

impl SimDriver {
    pub fn new() -> (r: SimDriver)
        ensures
            r.model() == (DriverModel {
                connected: None,
                events_enabled: false,
                address: 0,
                in_data: Seq::empty(),
                in_stalled: false,
                out_stalled: false,
                out_primed: false,
                out_packet: Seq::empty(),
                cleared_halt: None,
            }),
    {
        let r = SimDriver {
            connected: None,
            events_enabled: false,
            address: 0,
            in_data: Vec::new(),
            in_stalled: false,
            out_stalled: false,
            out_primed: false,
            host_packets: Vec::new(),
            cleared_halt: None,
        };
        proof {
            assert(r.model() =~= (DriverModel {
                connected: None,
                events_enabled: false,
                address: 0,
                in_data: Seq::empty(),
                in_stalled: false,
                out_stalled: false,
                out_primed: false,
                out_packet: Seq::empty(),
                cleared_halt: None,
            }));
        }
        r
    }

    /// Queues a packet the host sends; reads return queued packets oldest
    /// first.
    pub fn host_send(&mut self, packet: Vec<u8>)
        ensures
            final(self).model() == (DriverModel {
                out_packet: if old(self).host_packets@.len() == 0 {
                    packet@
                } else {
                    old(self).model().out_packet
                },
                ..old(self).model()
            }),
            final(self).host_packets@ == old(self).host_packets@.push(packet),
    {
        self.host_packets.push(packet);
        proof {
            assert(self.model() =~= (DriverModel {
                out_packet: if old(self).host_packets@.len() == 0 {
                    self.host_packets@[0]@
                } else {
                    old(self).model().out_packet
                },
                ..old(self).model()
            }));
        }
    }

    /// The bytes most recently written to the IN side.
    pub fn sent(&self) -> (r: &[u8])
        ensures
            r@ == self.model().in_data,
    {
        self.in_data.as_slice()
    }

    /// The device address most recently applied.
    pub fn address(&self) -> (r: u8)
        ensures
            r == self.model().address,
    {
        self.address
    }

    /// Whether a stall has been signaled on the IN side.
    pub fn in_stalled(&self) -> (r: bool)
        ensures
            r == self.model().in_stalled,
    {
        self.in_stalled
    }

    /// Whether a stall has been signaled on the OUT side.
    pub fn out_stalled(&self) -> (r: bool)
        ensures
            r == self.model().out_stalled,
    {
        self.out_stalled
    }

    /// Whether the OUT side has been primed to receive.
    pub fn out_primed(&self) -> (r: bool)
        ensures
            r == self.model().out_primed,
    {
        self.out_primed
    }

    /// The endpoint address whose halt was last cleared, if any.
    pub fn cleared_halt(&self) -> (r: Option<u8>)
        ensures
            r == self.model().cleared_halt,
    {
        self.cleared_halt
    }
}

impl UsbDriver for SimDriver {
    open spec fn model(&self) -> DriverModel {
        DriverModel {
            connected: self.connected,
            events_enabled: self.events_enabled,
            address: self.address,
            in_data: self.in_data@,
            in_stalled: self.in_stalled,
            out_stalled: self.out_stalled,
            out_primed: self.out_primed,
            out_packet: if self.host_packets@.len() > 0 {
                self.host_packets@[0]@
            } else {
                Seq::empty()
            },
            cleared_halt: self.cleared_halt,
        }
    }

    fn connect(&mut self, device_speed: Speed) {
        self.connected = Some(device_speed);
        proof {
            assert(self.model() =~= (DriverModel {
                connected: Some(device_speed),
                ..old(self).model()
            }));
        }
    }

    fn enable_events(&mut self) {
        self.events_enabled = true;
        proof {
            assert(self.model() =~= (DriverModel { events_enabled: true, ..old(self).model() }));
        }
    }

    fn disable_events(&mut self) {
        self.events_enabled = false;
        proof {
            assert(self.model() =~= (DriverModel { events_enabled: false, ..old(self).model() }));
        }
    }

    fn read(&mut self, endpoint_number: u8) -> (data: Vec<u8>) {
        if self.host_packets.len() > 0 {
            self.host_packets.remove(0)
        } else {
            Vec::new()
        }
    }

    fn write(&mut self, endpoint_number: u8, data: &[u8]) {
        self.in_data = copy_bytes(data);
        proof {
            assert(self.model() =~= (DriverModel { in_data: data@, ..old(self).model() }));
        }
    }

    fn write_requested(&mut self, endpoint_number: u8, requested_length: usize, data: &[u8]) {
        let take = if requested_length < data.len() {
            requested_length
        } else {
            data.len()
        };
        let mut sent: Vec<u8> = Vec::new();
        let mut i: usize = 0;
        while i < take
            invariant
                i <= take,
                take <= data@.len(),
                sent@ == data@.take(i as int),
            decreases take - i,
        {
            sent.push(data[i]);
            proof {
                assert(sent@ =~= data@.take(i + 1));
            }
            i += 1;
        }
        self.in_data = sent;
        proof {
            assert(self.model() =~= (DriverModel {
                in_data: take_at_most(data@, requested_length as int),
                ..old(self).model()
            }));
        }
    }

    fn set_address(&mut self, address: u8) {
        self.address = address;
        proof {
            assert(self.model() =~= (DriverModel { address, ..old(self).model() }));
        }
    }

    fn stall_endpoint_in(&mut self, endpoint_number: u8) {
        self.in_stalled = true;
        proof {
            assert(self.model() =~= (DriverModel { in_stalled: true, ..old(self).model() }));
        }
    }

    fn stall_endpoint_out(&mut self, endpoint_number: u8) {
        self.out_stalled = true;
        proof {
            assert(self.model() =~= (DriverModel { out_stalled: true, ..old(self).model() }));
        }
    }

    fn ep_out_prime_receive(&mut self, endpoint_number: u8) {
        self.out_primed = true;
        proof {
            assert(self.model() =~= (DriverModel { out_primed: true, ..old(self).model() }));
        }
    }

    fn clear_feature_endpoint_halt(&mut self, endpoint_address: u8) {
        self.cleared_halt = Some(endpoint_address);
        proof {
            assert(self.model() =~= (DriverModel {
                cleared_halt: Some(endpoint_address),
                ..old(self).model()
            }));
        }
    }
}

/// One answer a [`SimRegistry`] knows: the response bytes for one
/// (class, verb) pair.
pub struct RegistryEntry {
    pub class_id: u32,
    pub verb_number: u32,
    pub response: Vec<u8>,
}

/// What a table of entries answers: the response of the first entry with
/// the given class and verb, or invalid-argument when none matches.
pub open spec fn registry_lookup(entries: Seq<RegistryEntry>, class_id: u32, verb_number: u32) -> Result<Seq<u8>, GreatError>
    decreases entries.len(),
{
    if entries.len() == 0 {
        Err(GreatError::InvalidArgument)
    } else if entries[0].class_id == class_id && entries[0].verb_number == verb_number {
        Ok(entries[0].response@)
    } else {
        registry_lookup(entries.skip(1), class_id, verb_number)
    }
}

/// A command registry driven by a fixed table: each known (class, verb)
/// pair answers with fixed response bytes, everything else is an
/// invalid-argument error. It stands in for the class-based dispatch the
/// board wires in.
pub struct SimRegistry {
    pub entries: Vec<RegistryEntry>,
}

impl SimRegistry {
    pub fn new() -> (r: SimRegistry)
        ensures
            r.entries@ == Seq::<RegistryEntry>::empty(),
    {
        SimRegistry { entries: Vec::new() }
    }

    /// Adds an answer to the table.
    pub fn insert(&mut self, class_id: u32, verb_number: u32, response: Vec<u8>)
        ensures
            final(self).entries@ == old(self).entries@.push(
                RegistryEntry { class_id, verb_number, response },
            ),
    {
        self.entries.push(RegistryEntry { class_id, verb_number, response });
    }
}

impl CommandRegistry for SimRegistry {
    open spec fn dispatch_spec(&self, class_id: u32, verb_number: u32, arguments: Seq<u8>) -> Result<Seq<u8>, GreatError> {
        registry_lookup(self.entries@, class_id, verb_number)
    }

    fn dispatch(&mut self, class_id: u32, verb_number: u32, arguments: &[u8]) -> (r: Result<
        Vec<u8>,
        GreatError,
    >) {
        let mut i: usize = 0;
        proof {
            assert(self.entries@.skip(0) =~= self.entries@);
        }
        while i < self.entries.len()
            invariant
                i <= self.entries@.len(),
                self == old(self),
                registry_lookup(self.entries@.skip(i as int), class_id, verb_number)
                    == registry_lookup(self.entries@, class_id, verb_number),
                forall|j: int| 0 <= j < i ==> !(self.entries@[j].class_id == class_id
                    && self.entries@[j].verb_number == verb_number),
            decreases self.entries@.len() - i,
        {
            let entry = &self.entries[i];
            if entry.class_id == class_id && entry.verb_number == verb_number {
                proof {
                    assert(self.entries@.skip(i as int)[0] == self.entries@[i as int]);
                }
                return Ok(copy_bytes(self.entries[i].response.as_slice()));
            }
            proof {
                assert(self.entries@.skip(i as int).skip(1) =~= self.entries@.skip(i + 1));
            }
            i += 1;
        }
        proof {
            assert(self.entries@.skip(i as int) =~= Seq::<RegistryEntry>::empty());
        }
        Err(GreatError::InvalidArgument)
    }
}

} // verus!
