use vstd::prelude::*;
use crate::driver::{take_at_most, DriverModel, UsbDriver};
use crate::setup::SetupPacket;

verus! {

/// Descriptor type codes used in the high byte of a GetDescriptor value.
pub const DESCRIPTOR_TYPE_DEVICE: u16 = 1;

pub const DESCRIPTOR_TYPE_CONFIGURATION: u16 = 2;

pub const DESCRIPTOR_TYPE_STRING: u16 = 3;

pub const DESCRIPTOR_TYPE_DEVICE_QUALIFIER: u16 = 6;

pub const DESCRIPTOR_TYPE_OTHER_SPEED_CONFIGURATION: u16 = 7;

/// The specification-level view of a descriptor bundle: each table as the
/// bytes it puts on the wire.
#[verifier::ext_equal]
pub struct DescriptorsView {
    pub device: Seq<u8>,
    pub configuration: Seq<u8>,
    pub strings: Seq<Seq<u8>>,
    pub device_qualifier: Option<Seq<u8>>,
    pub other_speed_configuration: Option<Seq<u8>>,
}

/// The prebuilt descriptor tables a control endpoint answers GetDescriptor
/// requests from. Building the tables themselves is the board support's
/// business; the bundle only stores and serves their bytes. String
/// descriptor zero (the language id table) sits at index 0 of `strings`.
pub struct Descriptors {
    pub device: Vec<u8>,
    pub configuration: Vec<u8>,
    pub strings: Vec<Vec<u8>>,
    pub device_qualifier: Option<Vec<u8>>,
    pub other_speed_configuration: Option<Vec<u8>>,
}

impl View for Descriptors {
    type V = DescriptorsView;

    open spec fn view(&self) -> DescriptorsView {
        DescriptorsView {
            device: self.device@,
            configuration: self.configuration@,
            strings: Seq::new(self.strings@.len(), |i: int| self.strings@[i]@),
            device_qualifier: match self.device_qualifier {
                Some(v) => Some(v@),
                None => None,
            },
            other_speed_configuration: match self.other_speed_configuration {
                Some(v) => Some(v@),
                None => None,
            },
        }
    }
}

/// The descriptor bytes a GetDescriptor packet selects: the descriptor type
/// sits in the value's high byte, the (string) index in its low byte.
/// `None` when the bundle has nothing under that type and index.
pub open spec fn descriptor_lookup(d: DescriptorsView, packet: SetupPacket) -> Option<Seq<u8>> {
    let descriptor_type = packet.value / 0x100;
    let index = packet.value % 0x100;
    if descriptor_type == DESCRIPTOR_TYPE_DEVICE {
        Some(d.device)
    } else if descriptor_type == DESCRIPTOR_TYPE_CONFIGURATION {
        Some(d.configuration)
    } else if descriptor_type == DESCRIPTOR_TYPE_STRING {
        if index < d.strings.len() {
            Some(d.strings[index as int])
        } else {
            None
        }
    } else if descriptor_type == DESCRIPTOR_TYPE_DEVICE_QUALIFIER {
        d.device_qualifier
    } else if descriptor_type == DESCRIPTOR_TYPE_OTHER_SPEED_CONFIGURATION {
        d.other_speed_configuration
    } else {
        None
    }
}

impl Descriptors {
    /// Answers a GetDescriptor request: writes the selected descriptor,
    /// truncated to the length the host asked for, or stalls the IN side
    /// when the bundle has nothing under the requested type and index.
    /// Returns whether a descriptor was written.
    pub fn write<D: UsbDriver>(&self, usb: &mut D, endpoint_number: u8, packet: &SetupPacket) -> (handled: bool)
        ensures
            match descriptor_lookup(self@, *packet) {
                Some(bytes) => handled && final(usb).model() == (DriverModel {
                    in_data: take_at_most(bytes, packet.length as int),
                    ..old(usb).model()
                }),
                None => !handled && final(usb).model() == (DriverModel {
                    in_stalled: true,
                    ..old(usb).model()
                }),
            },
    {
        let descriptor_type = packet.value / 0x100;
        let index = (packet.value % 0x100) as usize;
        let requested_length = packet.length as usize;
        if descriptor_type == DESCRIPTOR_TYPE_DEVICE {
            usb.write_requested(endpoint_number, requested_length, self.device.as_slice());
            true
        } else if descriptor_type == DESCRIPTOR_TYPE_CONFIGURATION {
            usb.write_requested(endpoint_number, requested_length, self.configuration.as_slice());
            true
        } else if descriptor_type == DESCRIPTOR_TYPE_STRING {
            if index < self.strings.len() {
                usb.write_requested(endpoint_number, requested_length, self.strings[index].as_slice());
                true
            } else {
                usb.stall_endpoint_in(endpoint_number);
                false
            }
        } else if descriptor_type == DESCRIPTOR_TYPE_DEVICE_QUALIFIER {
            match &self.device_qualifier {
                Some(bytes) => {
                    usb.write_requested(endpoint_number, requested_length, bytes.as_slice());
                    true
                }
                None => {
                    usb.stall_endpoint_in(endpoint_number);
                    false
                }
            }
        } else if descriptor_type == DESCRIPTOR_TYPE_OTHER_SPEED_CONFIGURATION {
            match &self.other_speed_configuration {
                Some(bytes) => {
                    usb.write_requested(endpoint_number, requested_length, bytes.as_slice());
                    true
                }
                None => {
                    usb.stall_endpoint_in(endpoint_number);
                    false
                }
            }
        } else {
            usb.stall_endpoint_in(endpoint_number);
            false
        }
    }
}

} // verus!
