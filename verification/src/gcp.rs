use vstd::prelude::*;
use crate::driver::{drv_matches, take_at_most, DriverModel, UsbDriver};
use crate::setup::{Direction, Recipient, RequestType, SetupPacket};

verus! {

/// Error codes of the command protocol, numbered like the POSIX errno
/// values the host-side tooling expects.
#[derive(Clone, Copy, Debug, PartialEq, Eq, Structural)]
pub enum GreatError {
    InvalidArgument,
    FunctionNotImplemented,
    NoBufferSpaceAvailable,
    StateNotRecoverable,
}

/// The numeric code of an error, as sent to the host.
pub open spec fn error_code(e: GreatError) -> u32 {
    match e {
        GreatError::InvalidArgument => 22,
        GreatError::FunctionNotImplemented => 38,
        GreatError::NoBufferSpaceAvailable => 105,
        GreatError::StateNotRecoverable => 131,
    }
}

impl GreatError {
    pub fn code(&self) -> (r: u32)
        ensures
            r == error_code(*self),
    {
        match self {
            GreatError::InvalidArgument => 22,
            GreatError::FunctionNotImplemented => 38,
            GreatError::NoBufferSpaceAvailable => 105,
            GreatError::StateNotRecoverable => 131,
        }
    }
}

/// The four bytes of `x` in little-endian order.
pub open spec fn u32_le_bytes(x: u32) -> Seq<u8> {
    seq![
        (x % 0x100) as u8,
        ((x / 0x100) % 0x100) as u8,
        ((x / 0x10000) % 0x100) as u8,
        ((x / 0x1000000) % 0x100) as u8,
    ]
}

/// Encodes a 32-bit value little-endian, as the abort phase sends error
/// codes to the host.
pub fn encode_u32_le(x: u32) -> (r: Vec<u8>)
    ensures
        r@ == u32_le_bytes(x),
{
    let mut bytes: Vec<u8> = Vec::new();
    bytes.push((x % 0x100) as u8);
    bytes.push((x / 0x100 % 0x100) as u8);
    bytes.push((x / 0x10000 % 0x100) as u8);
    bytes.push((x / 0x1000000 % 0x100) as u8);
    proof {
        assert(bytes@ =~= u32_le_bytes(x));
    }
    bytes
}

/// The 32-bit value laid out little-endian at offset `at` of `data`.
pub open spec fn le32_at(data: Seq<u8>, at: int) -> u32 {
    (data[at] + data[at + 1] * 0x100 + data[at + 2] * 0x10000 + data[at + 3] * 0x1000000) as u32
}

/// Whether a byte string is long enough to carry a command header.
pub open spec fn is_command(data: Seq<u8>) -> bool {
    data.len() >= 8
}

/// The class identifier of a command: bytes 0..4, little-endian.
pub open spec fn command_class(data: Seq<u8>) -> u32 {
    le32_at(data, 0)
}

/// The verb number of a command: bytes 4..8, little-endian.
pub open spec fn command_verb(data: Seq<u8>) -> u32 {
    le32_at(data, 4)
}

/// The opaque argument bytes of a command: everything after the header.
pub open spec fn command_args(data: Seq<u8>) -> Seq<u8> {
    data.skip(8)
}

/// A command addressed to the registry: a class identifier, a verb number
/// and opaque argument bytes, parsed from the fixed-offset binary layout
/// the host sends as the data stage of a vendor control transfer.
pub struct Command {
    pub class_id: u32,
    pub verb_number: u32,
    pub arguments: Vec<u8>,
}

impl Command {
    /// Parses the command header; fails exactly when the data is shorter
    /// than the 8-byte header.
    pub fn parse(data: &[u8]) -> (r: Option<Command>)
        ensures
            match r {
                Some(command) => {
                    &&& is_command(data@)
                    &&& command.class_id == command_class(data@)
                    &&& command.verb_number == command_verb(data@)
                    &&& command.arguments@ == command_args(data@)
                },
                None => !is_command(data@),
            },
    {
        if data.len() < 8 {
            return None;
        }
        let class_id = read_u32_le(data, 0);
        let verb_number = read_u32_le(data, 4);
        let mut arguments: Vec<u8> = Vec::new();
        let mut i: usize = 8;
        while i < data.len()
            invariant
                8 <= i <= data@.len(),
                arguments@ == data@.subrange(8, i as int),
            decreases data@.len() - i,
        {
            arguments.push(data[i]);
            proof {
                assert(arguments@ =~= data@.subrange(8, i + 1));
            }
            i += 1;
        }
        proof {
            assert(arguments@ =~= command_args(data@));
        }
        Some(Command { class_id, verb_number, arguments })
    }
}

/// Reads a little-endian 32-bit value at offset `at`.
fn read_u32_le(data: &[u8], at: usize) -> (r: u32)
    requires
        at + 4 <= data@.len(),
    ensures
        r == le32_at(data@, at as int),
{
    data[at] as u32 + data[at + 1] as u32 * 0x100 + data[at + 2] as u32 * 0x10000 + data[at
        + 3] as u32 * 0x1000000
}

/// The vendor request codes the dispatcher recognizes.
#[derive(Clone, Copy, Debug, PartialEq, Eq, Structural)]
pub enum VendorRequest {
    /// A command-protocol transfer; the packet's value selects the phase.
    UsbCommandRequest,
    /// Hands the control port over to the external advertiser subsystem.
    ApolloClaimInterface,
    Unknown(u8),
}

pub const VENDOR_REQUEST_USB_COMMAND: u8 = 0x65;

pub const VENDOR_REQUEST_APOLLO_CLAIM_INTERFACE: u8 = 0xf0;

impl VendorRequest {
    pub open spec fn spec_from_code(code: u8) -> VendorRequest {
        if code == VENDOR_REQUEST_USB_COMMAND {
            VendorRequest::UsbCommandRequest
        } else if code == VENDOR_REQUEST_APOLLO_CLAIM_INTERFACE {
            VendorRequest::ApolloClaimInterface
        } else {
            VendorRequest::Unknown(code)
        }
    }

    pub fn from_code(code: u8) -> (r: VendorRequest)
        ensures
            r == VendorRequest::spec_from_code(code),
    {
        if code == VENDOR_REQUEST_USB_COMMAND {
            VendorRequest::UsbCommandRequest
        } else if code == VENDOR_REQUEST_APOLLO_CLAIM_INTERFACE {
            VendorRequest::ApolloClaimInterface
        } else {
            VendorRequest::Unknown(code)
        }
    }
}

/// The protocol phases selected by a command request's value field.
#[derive(Clone, Copy, Debug, PartialEq, Eq, Structural)]
pub enum VendorValue {
    Execute,
    Cancel,
    Unknown(u16),
}

pub const VENDOR_VALUE_EXECUTE: u16 = 0x0000;

pub const VENDOR_VALUE_CANCEL: u16 = 0xf000;

impl VendorValue {
    pub open spec fn spec_from_value(value: u16) -> VendorValue {
        if value == VENDOR_VALUE_EXECUTE {
            VendorValue::Execute
        } else if value == VENDOR_VALUE_CANCEL {
            VendorValue::Cancel
        } else {
            VendorValue::Unknown(value)
        }
    }

    pub fn from_value(value: u16) -> (r: VendorValue)
        ensures
            r == VendorValue::spec_from_value(value),
    {
        if value == VENDOR_VALUE_EXECUTE {
            VendorValue::Execute
        } else if value == VENDOR_VALUE_CANCEL {
            VendorValue::Cancel
        } else {
            VendorValue::Unknown(value)
        }
    }
}

/// The command registry: resolves a (class, verb, arguments) triple to a
/// response buffer or an error code. The per-class verb implementations
/// live outside the protocol core; `dispatch_spec` is their
/// specification-level answer, and `dispatch` must agree with it.
pub trait CommandRegistry: Sized {
    /// What the registry answers for a given command.
    spec fn dispatch_spec(&self, class_id: u32, verb_number: u32, arguments: Seq<u8>) -> Result<
        Seq<u8>,
        GreatError,
    >;

    /// Executes one command.
    fn dispatch(&mut self, class_id: u32, verb_number: u32, arguments: &[u8]) -> (r: Result<
        Vec<u8>,
        GreatError,
    >)
        ensures
            match r {
                Ok(response) => old(self).dispatch_spec(class_id, verb_number, arguments@)
                    == Ok::<Seq<u8>, GreatError>(response@),
                Err(e) => old(self).dispatch_spec(class_id, verb_number, arguments@)
                    == Err::<Seq<u8>, GreatError>(e),
            },
    ;
}

/// The specification-level view of the dispatcher's two pending slots.
#[verifier::ext_equal]
pub struct GcpView {
    pub response: Option<Seq<u8>>,
    pub error: Option<GreatError>,
}

/// One transition of the vendor dispatcher: its slots and the peripheral
/// afterwards.
#[verifier::ext_equal]
pub struct VendorStep {
    pub gcp: GcpView,
    pub drv: DriverModel,
}

/// The submit phase: the command parsed from the receive buffer goes to
/// the registry; its answer fills exactly one of the two slots. An error
/// stalls the IN side so the host knows to issue an abort fetch. Data too
/// short for a command header changes nothing.
pub open spec fn submit_step(
    pre: GcpView,
    drv: DriverModel,
    data: Seq<u8>,
    registry_result: Result<Seq<u8>, GreatError>,
) -> VendorStep {
    if !is_command(data) {
        VendorStep { gcp: pre, drv }
    } else {
        match registry_result {
            Ok(response) => VendorStep {
                gcp: GcpView { response: Some(response), error: None },
                drv,
            },
            Err(e) => VendorStep {
                gcp: GcpView { response: None, error: Some(e) },
                drv: DriverModel { in_stalled: true, ..drv },
            },
        }
    }
}

/// The fetch phase: a pending response is written back, truncated to the
/// length the host asked for, and its slot cleared; a pending error is
/// left for the abort phase; neither pending is a protocol violation by
/// the host, answered with a stall of the IN side.
pub open spec fn fetch_step(pre: GcpView, drv: DriverModel, packet: SetupPacket) -> VendorStep {
    match pre.response {
        Some(response) => VendorStep {
            gcp: GcpView { response: None, error: pre.error },
            drv: DriverModel {
                out_primed: true,
                in_data: take_at_most(response, packet.length as int),
                ..drv
            },
        },
        None => match pre.error {
            Some(_) => VendorStep { gcp: pre, drv },
            None => VendorStep {
                gcp: pre,
                drv: DriverModel { in_stalled: true, ..drv },
            },
        },
    }
}

/// The abort phase: the pending error code — or the generic
/// state-not-recoverable code when none is pending — goes back to the
/// host, 4 bytes little-endian, and both slots are cleared.
pub open spec fn abort_step(pre: GcpView, drv: DriverModel, packet: SetupPacket) -> VendorStep {
    let code = match pre.error {
        Some(e) => error_code(e),
        None => error_code(GreatError::StateNotRecoverable),
    };
    VendorStep {
        gcp: GcpView { response: None, error: None },
        drv: DriverModel {
            out_primed: true,
            in_data: take_at_most(u32_le_bytes(code), packet.length as int),
            ..drv
        },
    }
}

/// A rejection: the endpoint matching the request's direction is stalled.
pub open spec fn reject_step(pre: GcpView, drv: DriverModel, packet: SetupPacket) -> VendorStep {
    VendorStep {
        gcp: pre,
        drv: if packet.spec_direction() == Direction::HostToDevice {
            DriverModel { out_stalled: true, ..drv }
        } else {
            DriverModel { in_stalled: true, ..drv }
        },
    }
}

/// The full vendor dispatch table over one returned setup packet. `data`
/// is the payload collected by the control endpoint, and
/// `registry_result` what the registry answers if the submit phase runs.
pub open spec fn vendor_step(
    pre: GcpView,
    drv: DriverModel,
    packet: SetupPacket,
    data: Seq<u8>,
    registry_result: Result<Seq<u8>, GreatError>,
) -> VendorStep {
    match (
        packet.spec_request_type(),
        packet.spec_recipient(),
        VendorRequest::spec_from_code(packet.request),
    ) {
        (RequestType::Vendor, Recipient::Interface, VendorRequest::ApolloClaimInterface) => {
            // acknowledged with a ZLP; the port handover happens outside
            VendorStep { gcp: pre, drv: DriverModel { in_data: Seq::empty(), ..drv } }
        }
        (RequestType::Vendor, _, VendorRequest::UsbCommandRequest) => {
            match (VendorValue::spec_from_value(packet.value), packet.spec_direction()) {
                (VendorValue::Execute, Direction::HostToDevice) => submit_step(
                    pre,
                    drv,
                    data,
                    registry_result,
                ),
                (VendorValue::Execute, Direction::DeviceToHost) => fetch_step(pre, drv, packet),
                (VendorValue::Cancel, Direction::DeviceToHost) => abort_step(pre, drv, packet),
                _ => reject_step(pre, drv, packet),
            }
        }
        _ => reject_step(pre, drv, packet),
    }
}

/// At most one of the two pending slots is populated.
pub open spec fn slots_exclusive(gcp: GcpView) -> bool {
    !(gcp.response is Some && gcp.error is Some)
}

/// The pending-response and pending-error slots are mutually exclusive:
/// a dispatcher whose slots are exclusive keeps them so through every
/// vendor transition.
pub proof fn lemma_slots_stay_exclusive(
    pre: GcpView,
    drv: DriverModel,
    packet: SetupPacket,
    data: Seq<u8>,
    registry_result: Result<Seq<u8>, GreatError>,
)
    requires
        slots_exclusive(pre),
    ensures
        slots_exclusive(vendor_step(pre, drv, packet, data, registry_result).gcp),
{
}

/// A vendor transition only reads and writes the device-controlled fields
/// of the peripheral model: feeding it two models that agree on those
/// fields gives the same slots and agreeing models again.
pub proof fn lemma_vendor_step_matches(
    pre: GcpView,
    d1: DriverModel,
    d2: DriverModel,
    packet: SetupPacket,
    data: Seq<u8>,
    registry_result: Result<Seq<u8>, GreatError>,
)
    requires
        drv_matches(d1, d2),
    ensures
        ({
            let s1 = vendor_step(pre, d1, packet, data, registry_result);
            let s2 = vendor_step(pre, d2, packet, data, registry_result);
            &&& s1.gcp == s2.gcp
            &&& drv_matches(s1.drv, s2.drv)
        }),
{
}

/// The vendor command dispatcher: consumes the setup packets the control
/// state machine hands back, drives the three-phase command protocol
/// against the registry, and keeps at most one pending response or error
/// between the phases.
pub struct GcpDispatch {
    response: Option<Vec<u8>>,
    last_error: Option<GreatError>,
}

impl View for GcpDispatch {
    type V = GcpView;

    closed spec fn view(&self) -> GcpView {
        GcpView {
            response: match self.response {
                Some(ref r) => Some(r@),
                None => None,
            },
            error: self.last_error,
        }
    }
}

impl GcpDispatch {
    pub fn new() -> (r: GcpDispatch)
        ensures
            r@ == (GcpView { response: None, error: None }),
    {
        let r = GcpDispatch { response: None, last_error: None };
        proof {
            assert(r@ =~= (GcpView { response: None, error: None }));
        }
        r
    }

    /// Handles one setup packet the control state machine did not handle:
    /// the slots and the peripheral change exactly as `vendor_step`
    /// prescribes, with the registry's own answer deciding the submit
    /// phase. `data` is the payload the control endpoint collected for
    /// this packet.
    pub fn handle_vendor_request<D: UsbDriver, R: CommandRegistry>(
        &mut self,
        usb: &mut D,
        registry: &mut R,
        packet: &SetupPacket,
        data: &[u8],
    )
        ensures
            ({
                let step = vendor_step(
                    old(self)@,
                    old(usb).model(),
                    *packet,
                    data@,
                    old(registry).dispatch_spec(
                        command_class(data@),
                        command_verb(data@),
                        command_args(data@),
                    ),
                );
                &&& final(self)@ == step.gcp
                &&& drv_matches(final(usb).model(), step.drv)
            }),
    {
        match (packet.request_type(), packet.recipient(), VendorRequest::from_code(packet.request)) {
            (RequestType::Vendor, Recipient::Interface, VendorRequest::ApolloClaimInterface) => {
                // acknowledge; handing the port to the advertiser is the
                // caller's business
                let zlp: [u8; 0] = [];
                usb.write(0, zlp.as_slice());
                proof {
                    assert(zlp@ =~= Seq::<u8>::empty());
                }
            }
            (RequestType::Vendor, _, VendorRequest::UsbCommandRequest) => {
                match (VendorValue::from_value(packet.value), packet.direction()) {
                    (VendorValue::Execute, Direction::HostToDevice) => {
                        self.dispatch_command(usb, registry, data);
                    }
                    (VendorValue::Execute, Direction::DeviceToHost) => {
                        self.dispatch_response(usb, packet);
                    }
                    (VendorValue::Cancel, Direction::DeviceToHost) => {
                        self.dispatch_abort(usb, packet);
                    }
                    _ => {
                        stall_by_direction(usb, packet);
                    }
                }
            }
            _ => {
                // unknown vendor requests — the legacy enumeration scan
                // among them — and stray non-vendor requests
                stall_by_direction(usb, packet);
            }
        }
    }

    /// The submit phase: parses the collected payload and lets the
    /// registry's answer fill the slots, exactly as `submit_step` says.
    fn dispatch_command<D: UsbDriver, R: CommandRegistry>(
        &mut self,
        usb: &mut D,
        registry: &mut R,
        data: &[u8],
    )
        ensures
            ({
                let step = submit_step(
                    old(self)@,
                    old(usb).model(),
                    data@,
                    old(registry).dispatch_spec(
                        command_class(data@),
                        command_verb(data@),
                        command_args(data@),
                    ),
                );
                &&& final(self)@ == step.gcp
                &&& drv_matches(final(usb).model(), step.drv)
            }),
    {
        let command = match Command::parse(data) {
            Some(command) => command,
            None => {
                // too short for a command header: nothing to dispatch
                return ;
            }
        };
        let result = registry.dispatch(
            command.class_id,
            command.verb_number,
            command.arguments.as_slice(),
        );
        self.store_result(usb, result);
    }

    /// Stores the registry's answer: exactly one slot filled, and the IN
    /// side stalled on an error so the host issues an abort fetch.
    fn store_result<D: UsbDriver>(&mut self, usb: &mut D, result: Result<Vec<u8>, GreatError>)
        ensures
            ({
                match result {
                    Ok(ref response) => {
                        &&& final(self)@ == (GcpView { response: Some(response@), error: None })
                        &&& drv_matches(final(usb).model(), old(usb).model())
                    },
                    Err(e) => {
                        &&& final(self)@ == (GcpView { response: None, error: Some(e) })
                        &&& drv_matches(
                            final(usb).model(),
                            DriverModel { in_stalled: true, ..old(usb).model() },
                        )
                    },
                }
            }),
    {
        match result {
            Ok(response) => {
                self.response = Some(response);
                self.last_error = None;
            }
            Err(e) => {
                self.response = None;
                self.last_error = Some(e);
                // make the host issue an abort fetch
                usb.stall_endpoint_in(0);
            }
        }
    }

    /// The fetch phase, exactly as `fetch_step` says.
    fn dispatch_response<D: UsbDriver>(&mut self, usb: &mut D, packet: &SetupPacket)
        ensures
            ({
                let step = fetch_step(old(self)@, old(usb).model(), *packet);
                &&& final(self)@ == step.gcp
                &&& drv_matches(final(usb).model(), step.drv)
            }),
    {
        let mut response: Option<Vec<u8>> = None;
        core::mem::swap(&mut response, &mut self.response);
        match response {
            Some(response) => {
                // prime to receive the host's status-stage ZLP
                usb.ep_out_prime_receive(0);
                usb.write_requested(0, packet.length as usize, response.as_slice());
            }
            None => {
                if self.last_error.is_some() {
                    // the host is expected to switch to the abort phase
                } else {
                    // a response was requested but nothing is pending
                    usb.stall_endpoint_in(0);
                }
            }
        }
    }

    /// The abort phase, exactly as `abort_step` says.
    fn dispatch_abort<D: UsbDriver>(&mut self, usb: &mut D, packet: &SetupPacket)
        ensures
            ({
                let step = abort_step(old(self)@, old(usb).model(), *packet);
                &&& final(self)@ == step.gcp
                &&& drv_matches(final(usb).model(), step.drv)
            }),
    {
        // prime to receive the host's status-stage ZLP
        usb.ep_out_prime_receive(0);
        let code = match self.last_error {
            Some(e) => e.code(),
            None => GreatError::StateNotRecoverable.code(),
        };
        let encoded = encode_u32_le(code);
        usb.write_requested(0, packet.length as usize, encoded.as_slice());
        self.response = None;
        self.last_error = None;
    }

    /// Whether a response is pending for the fetch phase.
    pub fn response_pending(&self) -> (r: bool)
        ensures
            r == (self@.response is Some),
    {
        self.response.is_some()
    }

    /// Whether an error is pending for the abort phase.
    pub fn error_pending(&self) -> (r: bool)
        ensures
            r == (self@.error is Some),
    {
        self.last_error.is_some()
    }
}

/// Whether a setup packet is a command request selecting the given phase
/// and direction.
pub open spec fn is_command_request(packet: SetupPacket, value: VendorValue, direction: Direction) -> bool {
    &&& packet.spec_request_type() == RequestType::Vendor
    &&& VendorRequest::spec_from_code(packet.request) == VendorRequest::UsbCommandRequest
    &&& VendorValue::spec_from_value(packet.value) == value
    &&& packet.spec_direction() == direction
}

/// A submit phase whose registry answer is a response, followed at once by
/// a fetch phase, hands the host exactly those response bytes, cut down to
/// the length it asked for — and the pending slot is empty immediately
/// after, with no error left behind.
pub proof fn lemma_submit_fetch_round_trip(
    pre: GcpView,
    drv: DriverModel,
    drv2: DriverModel,
    submit_packet: SetupPacket,
    fetch_packet: SetupPacket,
    data: Seq<u8>,
    fetch_data: Seq<u8>,
    fetch_registry_result: Result<Seq<u8>, GreatError>,
    response: Seq<u8>,
)
    requires
        is_command_request(submit_packet, VendorValue::Execute, Direction::HostToDevice),
        is_command_request(fetch_packet, VendorValue::Execute, Direction::DeviceToHost),
        is_command(data),
    ensures
        ({
            let submitted = vendor_step(pre, drv, submit_packet, data, Ok(response));
            let fetched = vendor_step(
                submitted.gcp,
                drv2,
                fetch_packet,
                fetch_data,
                fetch_registry_result,
            );
            &&& submitted.gcp == (GcpView { response: Some(response), error: None })
            &&& fetched.drv.in_data == take_at_most(response, fetch_packet.length as int)
            &&& fetched.drv.out_primed
            &&& fetched.gcp == (GcpView { response: None, error: None })
        }),
{
}

/// If the submit phase produced an error, the following abort fetch
/// returns that error's 4-byte little-endian code; with nothing pending it
/// returns the code of the generic state-not-recoverable error. Both slots
/// are cleared either way.
pub proof fn lemma_abort_returns_error(
    pre: GcpView,
    drv: DriverModel,
    packet: SetupPacket,
    data: Seq<u8>,
    registry_result: Result<Seq<u8>, GreatError>,
)
    requires
        is_command_request(packet, VendorValue::Cancel, Direction::DeviceToHost),
        packet.length >= 4,
    ensures
        ({
            let aborted = vendor_step(pre, drv, packet, data, registry_result);
            &&& aborted.drv.in_data == match pre.error {
                Some(e) => u32_le_bytes(error_code(e)),
                None => u32_le_bytes(error_code(GreatError::StateNotRecoverable)),
            }
            &&& aborted.drv.out_primed
            &&& aborted.gcp == (GcpView { response: None, error: None })
        }),
{
    let code = match pre.error {
        Some(e) => error_code(e),
        None => error_code(GreatError::StateNotRecoverable),
    };
    assert(take_at_most(u32_le_bytes(code), packet.length as int) =~= u32_le_bytes(code));
}

/// Rejects a request by stalling the endpoint matching its direction.
fn stall_by_direction<D: UsbDriver>(usb: &mut D, packet: &SetupPacket)
    ensures
        final(usb).model() == (if packet.spec_direction() == Direction::HostToDevice {
            DriverModel { out_stalled: true, ..old(usb).model() }
        } else {
            DriverModel { in_stalled: true, ..old(usb).model() }
        }),
{
    match packet.direction() {
        Direction::HostToDevice => usb.stall_endpoint_out(0),
        Direction::DeviceToHost => usb.stall_endpoint_in(0),
    }
}

} // verus!
