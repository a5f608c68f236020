use vstd::prelude::*;

verus! {

/// Transfer direction, encoded in bit 7 of `SetupPacket::request_type`.
#[derive(Clone, Copy, Debug, PartialEq, Eq, Structural)]
pub enum Direction {
    HostToDevice,
    DeviceToHost,
}

/// Request-type class, encoded in bits 5..6 of `SetupPacket::request_type`.
#[derive(Clone, Copy, Debug, PartialEq, Eq, Structural)]
pub enum RequestType {
    Standard,
    Class,
    Vendor,
    Reserved,
}

/// Request recipient, encoded in bits 0..4 of `SetupPacket::request_type`.
#[derive(Clone, Copy, Debug, PartialEq, Eq, Structural)]
pub enum Recipient {
    Device,
    Interface,
    Endpoint,
    Other,
    Reserved,
}

/// The standard request codes, plus a catch-all for everything else.
#[derive(Clone, Copy, Debug, PartialEq, Eq, Structural)]
pub enum Request {
    GetStatus,
    ClearFeature,
    SetFeature,
    SetAddress,
    GetDescriptor,
    SetDescriptor,
    GetConfiguration,
    SetConfiguration,
    GetInterface,
    SetInterface,
    SynchronizeFrame,
    Unknown(u8),
}

/// Feature selectors used by ClearFeature / SetFeature.
#[derive(Clone, Copy, Debug, PartialEq, Eq, Structural)]
pub enum Feature {
    EndpointHalt,
    DeviceRemoteWakeup,
    Unknown(u16),
}

/// The 8-byte header that initiates a USB control transfer.
///
/// `request_type` keeps the raw bmRequestType byte; the decoded views are
/// available through `direction`, `request_type` and `recipient`. The
/// 16-bit fields are stored in host order and laid out little-endian on
/// the wire, exactly as the USB control-transfer model prescribes.
#[derive(Clone, Copy, Debug, PartialEq, Eq, Structural)]
pub struct SetupPacket {
    pub request_type: u8,
    pub request: u8,
    pub value: u16,
    pub index: u16,
    pub length: u16,
}

/// The 16-bit value laid out little-endian as `lo`, `hi`.
pub open spec fn le16(lo: u8, hi: u8) -> u16 {
    (lo + hi * 0x100) as u16
}

impl SetupPacket {
    pub open spec fn spec_direction(self) -> Direction {
        if self.request_type >= 0x80 {
            Direction::DeviceToHost
        } else {
            Direction::HostToDevice
        }
    }

    pub open spec fn spec_request_type(self) -> RequestType {
        let bits = (self.request_type / 0x20) % 4;
        if bits == 0 {
            RequestType::Standard
        } else if bits == 1 {
            RequestType::Class
        } else if bits == 2 {
            RequestType::Vendor
        } else {
            RequestType::Reserved
        }
    }

    pub open spec fn spec_recipient(self) -> Recipient {
        let bits = self.request_type % 0x20;
        if bits == 0 {
            Recipient::Device
        } else if bits == 1 {
            Recipient::Interface
        } else if bits == 2 {
            Recipient::Endpoint
        } else if bits == 3 {
            Recipient::Other
        } else {
            Recipient::Reserved
        }
    }

    pub open spec fn spec_request(self) -> Request {
        Request::spec_from_code(self.request)
    }

    /// A packet rebuilt from the 8 wire bytes, little-endian 16-bit fields.
    pub open spec fn spec_from_bytes(bytes: Seq<u8>) -> SetupPacket {
        SetupPacket {
            request_type: bytes[0],
            request: bytes[1],
            value: le16(bytes[2], bytes[3]),
            index: le16(bytes[4], bytes[5]),
            length: le16(bytes[6], bytes[7]),
        }
    }

    /// The 8 wire bytes of this packet, little-endian 16-bit fields.
    pub open spec fn spec_to_bytes(self) -> Seq<u8> {
        seq![
            self.request_type,
            self.request,
            (self.value % 0x100) as u8,
            (self.value / 0x100) as u8,
            (self.index % 0x100) as u8,
            (self.index / 0x100) as u8,
            (self.length % 0x100) as u8,
            (self.length / 0x100) as u8,
        ]
    }

    pub fn direction(&self) -> (r: Direction)
        ensures
            r == self.spec_direction(),
    {
        if self.request_type >= 0x80 {
            Direction::DeviceToHost
        } else {
            Direction::HostToDevice
        }
    }

    pub fn request_type(&self) -> (r: RequestType)
        ensures
            r == self.spec_request_type(),
    {
        let bits = (self.request_type / 0x20) % 4;
        if bits == 0 {
            RequestType::Standard
        } else if bits == 1 {
            RequestType::Class
        } else if bits == 2 {
            RequestType::Vendor
        } else {
            RequestType::Reserved
        }
    }

    pub fn recipient(&self) -> (r: Recipient)
        ensures
            r == self.spec_recipient(),
    {
        let bits = self.request_type % 0x20;
        if bits == 0 {
            Recipient::Device
        } else if bits == 1 {
            Recipient::Interface
        } else if bits == 2 {
            Recipient::Endpoint
        } else if bits == 3 {
            Recipient::Other
        } else {
            Recipient::Reserved
        }
    }

    pub fn request(&self) -> (r: Request)
        ensures
            r == self.spec_request(),
    {
        Request::from_code(self.request)
    }

    /// Decodes the 8-byte header exactly as it appears on the wire.
    pub fn from_bytes(bytes: &[u8]) -> (r: SetupPacket)
        requires
            bytes@.len() == 8,
        ensures
            r == SetupPacket::spec_from_bytes(bytes@),
    {
        SetupPacket {
            request_type: bytes[0],
            request: bytes[1],
            value: bytes[2] as u16 + bytes[3] as u16 * 0x100,
            index: bytes[4] as u16 + bytes[5] as u16 * 0x100,
            length: bytes[6] as u16 + bytes[7] as u16 * 0x100,
        }
    }

    /// Encodes the header back into its 8 wire bytes.
    pub fn to_bytes(&self) -> (r: Vec<u8>)
        ensures
            r@ == self.spec_to_bytes(),
    {
        let mut bytes: Vec<u8> = Vec::new();
        bytes.push(self.request_type);
        bytes.push(self.request);
        bytes.push((self.value % 0x100) as u8);
        bytes.push((self.value / 0x100) as u8);
        bytes.push((self.index % 0x100) as u8);
        bytes.push((self.index / 0x100) as u8);
        bytes.push((self.length % 0x100) as u8);
        bytes.push((self.length / 0x100) as u8);
        proof {
            assert(bytes@ =~= self.spec_to_bytes());
        }
        bytes
    }
}

/// Decoding a packet from bytes and encoding it again gives the same bytes,
/// and encoding then decoding gives the same packet: the layout is bit-exact.
pub proof fn lemma_setup_packet_round_trip(packet: SetupPacket, bytes: Seq<u8>)
    requires
        bytes.len() == 8,
    ensures
        SetupPacket::spec_from_bytes(packet.spec_to_bytes()) == packet,
        SetupPacket::spec_from_bytes(bytes).spec_to_bytes() =~= bytes,
{
}

impl Request {
    pub open spec fn spec_from_code(code: u8) -> Request {
        if code == 0 {
            Request::GetStatus
        } else if code == 1 {
            Request::ClearFeature
        } else if code == 3 {
            Request::SetFeature
        } else if code == 5 {
            Request::SetAddress
        } else if code == 6 {
            Request::GetDescriptor
        } else if code == 7 {
            Request::SetDescriptor
        } else if code == 8 {
            Request::GetConfiguration
        } else if code == 9 {
            Request::SetConfiguration
        } else if code == 10 {
            Request::GetInterface
        } else if code == 11 {
            Request::SetInterface
        } else if code == 12 {
            Request::SynchronizeFrame
        } else {
            Request::Unknown(code)
        }
    }

    pub fn from_code(code: u8) -> (r: Request)
        ensures
            r == Request::spec_from_code(code),
    {
        match code {
            0 => Request::GetStatus,
            1 => Request::ClearFeature,
            3 => Request::SetFeature,
            5 => Request::SetAddress,
            6 => Request::GetDescriptor,
            7 => Request::SetDescriptor,
            8 => Request::GetConfiguration,
            9 => Request::SetConfiguration,
            10 => Request::GetInterface,
            11 => Request::SetInterface,
            12 => Request::SynchronizeFrame,
            _ => Request::Unknown(code),
        }
    }
}

impl Feature {
    pub open spec fn spec_from_value(value: u16) -> Feature {
        if value == 0 {
            Feature::EndpointHalt
        } else if value == 1 {
            Feature::DeviceRemoteWakeup
        } else {
            Feature::Unknown(value)
        }
    }

    pub fn from_value(value: u16) -> (r: Feature)
        ensures
            r == Feature::spec_from_value(value),
    {
        match value {
            0 => Feature::EndpointHalt,
            1 => Feature::DeviceRemoteWakeup,
            _ => Feature::Unknown(value),
        }
    }
}

} // verus!
