use vstd::prelude::*;
use crate::descriptor::{descriptor_lookup, Descriptors, DescriptorsView};
use crate::driver::{drv_matches, take_at_most, DriverModel, UsbDriver};
use crate::event::UsbEvent;
use crate::setup::{Direction, Feature, Recipient, Request, RequestType, SetupPacket};

verus! {

/// The current state of the control-transfer protocol on one endpoint.
///
/// `Idle` is re-entered after every completed transaction cycle; `Stall` is
/// a recoverable quasi-terminal state that the next setup packet clears.
#[derive(Clone, Copy, Debug, PartialEq, Eq, Structural)]
pub enum State {
    Idle,
    Send,
    WaitForZlp,
    SetAddress(u8),
    ReceiveHostData(SetupPacket),
    FinishHostData(SetupPacket),
    Complete,
    Stall,
}

/// The specification-level view of a [`Control`] record.
#[verifier::ext_equal]
pub struct CtrlView {
    pub endpoint_number: u8,
    pub state: State,
    pub configuration: Option<u8>,
    pub feature_remote_wakeup: bool,
    pub rx: Seq<u8>,
    pub capacity: nat,
    pub descriptors: DescriptorsView,
}

impl CtrlView {
    /// The receive cursor never runs past the buffer's fixed capacity.
    pub open spec fn wf(self) -> bool {
        self.rx.len() <= self.capacity
    }
}

/// One transition of the control state machine: the record afterwards, the
/// peripheral afterwards, and the setup packet handed back to the caller
/// when the machine does not handle it itself.
#[verifier::ext_equal]
pub struct CtrlStep {
    pub ctrl: CtrlView,
    pub drv: DriverModel,
    pub ret: Option<SetupPacket>,
}

/// A transition that only forces the protocol state back to `Idle`,
/// used for every (state, event) pair outside the protocol.
pub open spec fn reset_step(pre: CtrlView, drv: DriverModel) -> CtrlStep {
    CtrlStep { ctrl: CtrlView { state: State::Idle, ..pre }, drv, ret: None }
}

/// A transition that leaves everything as it is.
pub open spec fn ignore_step(pre: CtrlView, drv: DriverModel) -> CtrlStep {
    CtrlStep { ctrl: pre, drv, ret: None }
}

/// How a setup packet arriving in `Idle` (or `Stall`, which it clears) is
/// handled: the standard enumeration requests of the transition table, the
/// host-to-device data path for everything the machine does not recognize
/// but that carries data, and the hand-back of the rest to the caller.
pub open spec fn setup_step(pre: CtrlView, drv: DriverModel, packet: SetupPacket) -> CtrlStep {
    match (packet.spec_direction(), packet.spec_request_type(), packet.spec_request()) {
        (Direction::DeviceToHost, RequestType::Standard, Request::GetDescriptor) => {
            match descriptor_lookup(pre.descriptors, packet) {
                Some(bytes) => CtrlStep {
                    ctrl: CtrlView { state: State::Send, ..pre },
                    drv: DriverModel {
                        in_data: take_at_most(bytes, packet.length as int),
                        ..drv
                    },
                    ret: None,
                },
                None => CtrlStep {
                    ctrl: CtrlView { state: State::Stall, ..pre },
                    drv: DriverModel { in_stalled: true, ..drv },
                    ret: None,
                },
            }
        }
        (Direction::HostToDevice, RequestType::Standard, Request::SetAddress) => CtrlStep {
            ctrl: CtrlView { state: State::SetAddress((packet.value % 0x80) as u8), ..pre },
            drv: DriverModel { in_data: Seq::empty(), ..drv },
            ret: None,
        },
        (Direction::HostToDevice, RequestType::Standard, Request::SetConfiguration) => {
            if packet.value > 1 {
                CtrlStep {
                    ctrl: CtrlView { state: State::Stall, configuration: None, ..pre },
                    drv: DriverModel { out_stalled: true, ..drv },
                    ret: None,
                }
            } else {
                CtrlStep {
                    ctrl: CtrlView {
                        state: State::Complete,
                        configuration: Some(packet.value as u8),
                        ..pre
                    },
                    drv: DriverModel { in_data: Seq::empty(), ..drv },
                    ret: None,
                }
            }
        }
        (Direction::DeviceToHost, RequestType::Standard, Request::GetConfiguration) => CtrlStep {
            ctrl: CtrlView { state: State::Send, ..pre },
            drv: DriverModel {
                in_data: seq![
                    match pre.configuration {
                        Some(configuration) => configuration,
                        None => 0u8,
                    },
                ],
                ..drv
            },
            ret: None,
        },
        (Direction::DeviceToHost, RequestType::Standard, Request::GetStatus) => CtrlStep {
            ctrl: CtrlView { state: State::Send, ..pre },
            drv: DriverModel {
                in_data: seq![
                    if pre.feature_remote_wakeup { 3u8 } else { 1u8 },
                    0u8,
                ],
                ..drv
            },
            ret: None,
        },
        (_, RequestType::Standard, Request::ClearFeature) => {
            match (packet.spec_recipient(), Feature::spec_from_value(packet.value)) {
                (Recipient::Endpoint, Feature::EndpointHalt) => CtrlStep {
                    ctrl: CtrlView { state: State::Complete, ..pre },
                    drv: DriverModel {
                        cleared_halt: Some((packet.index % 0x100) as u8),
                        in_data: Seq::empty(),
                        ..drv
                    },
                    ret: None,
                },
                (Recipient::Device, Feature::DeviceRemoteWakeup) => CtrlStep {
                    ctrl: CtrlView {
                        state: State::Complete,
                        feature_remote_wakeup: false,
                        ..pre
                    },
                    drv: DriverModel { in_data: Seq::empty(), ..drv },
                    ret: None,
                },
                _ => CtrlStep {
                    ctrl: CtrlView { state: State::Stall, ..pre },
                    drv: DriverModel { in_stalled: true, ..drv },
                    ret: None,
                },
            }
        }
        (_, RequestType::Standard, Request::SetFeature) => {
            match (packet.spec_recipient(), Feature::spec_from_value(packet.value)) {
                (Recipient::Device, Feature::DeviceRemoteWakeup) => CtrlStep {
                    ctrl: CtrlView {
                        state: State::Complete,
                        feature_remote_wakeup: true,
                        ..pre
                    },
                    drv: DriverModel { in_data: Seq::empty(), ..drv },
                    ret: None,
                },
                _ => CtrlStep {
                    ctrl: CtrlView { state: State::Stall, ..pre },
                    drv: DriverModel { in_stalled: true, ..drv },
                    ret: None,
                },
            }
        }
        _ => {
            if packet.spec_direction() == Direction::HostToDevice && packet.length > 0 {
                CtrlStep {
                    ctrl: CtrlView {
                        state: State::ReceiveHostData(packet),
                        rx: Seq::empty(),
                        ..pre
                    },
                    drv: DriverModel { out_primed: true, ..drv },
                    ret: None,
                }
            } else {
                CtrlStep {
                    ctrl: CtrlView { state: State::Idle, ..pre },
                    drv,
                    ret: Some(packet),
                }
            }
        }
    }
}

/// How a data packet is folded into the receive buffer while host data is
/// being collected: a zero-length packet aborts the data stage early; bytes
/// past the buffer's capacity are dropped; the stage finishes once at least
/// the negotiated length has arrived, and is re-primed otherwise.
pub open spec fn receive_step(pre: CtrlView, drv: DriverModel, setup_packet: SetupPacket) -> CtrlStep {
    let packet = drv.out_packet;
    if packet.len() == 0 {
        CtrlStep {
            ctrl: CtrlView { state: State::FinishHostData(setup_packet), ..pre },
            drv: DriverModel { in_data: Seq::empty(), ..drv },
            ret: None,
        }
    } else {
        let room = pre.capacity - pre.rx.len();
        let rx = pre.rx + take_at_most(packet, room);
        if rx.len() >= setup_packet.length {
            CtrlStep {
                ctrl: CtrlView { state: State::FinishHostData(setup_packet), rx, ..pre },
                drv: DriverModel { in_data: Seq::empty(), ..drv },
                ret: None,
            }
        } else {
            CtrlStep {
                ctrl: CtrlView { state: State::ReceiveHostData(setup_packet), rx, ..pre },
                drv: DriverModel { out_primed: true, ..drv },
                ret: None,
            }
        }
    }
}

/// The full transition table of the control state machine, as a function of
/// the record, the peripheral and the incoming event. `drv.out_packet` is
/// the packet a read during this transition would return.
pub open spec fn ctrl_step(pre: CtrlView, drv: DriverModel, event: UsbEvent) -> CtrlStep {
    match event {
        UsbEvent::BusReset => reset_step(pre, drv),
        UsbEvent::ReceiveSetupPacket(endpoint_number, packet) => {
            if endpoint_number == pre.endpoint_number
                && (pre.state is Idle || pre.state is Stall) {
                setup_step(pre, drv, packet)
            } else {
                reset_step(pre, drv)
            }
        }
        UsbEvent::SendComplete(endpoint_number) => {
            if endpoint_number == pre.endpoint_number {
                match pre.state {
                    State::Send => CtrlStep {
                        ctrl: CtrlView { state: State::WaitForZlp, ..pre },
                        drv: DriverModel { out_primed: true, ..drv },
                        ret: None,
                    },
                    State::SetAddress(address) => CtrlStep {
                        ctrl: CtrlView { state: State::Idle, ..pre },
                        drv: DriverModel { address, ..drv },
                        ret: None,
                    },
                    State::Complete => reset_step(pre, drv),
                    State::FinishHostData(setup_packet) => CtrlStep {
                        ctrl: CtrlView { state: State::Idle, ..pre },
                        drv,
                        ret: Some(setup_packet),
                    },
                    State::Idle => ignore_step(pre, drv),
                    _ => reset_step(pre, drv),
                }
            } else {
                reset_step(pre, drv)
            }
        }
        UsbEvent::ReceivePacket(endpoint_number) => {
            if endpoint_number == pre.endpoint_number {
                match pre.state {
                    State::WaitForZlp => reset_step(pre, drv),
                    State::ReceiveHostData(setup_packet) => receive_step(pre, drv, setup_packet),
                    State::Idle => ignore_step(pre, drv),
                    _ => reset_step(pre, drv),
                }
            } else {
                reset_step(pre, drv)
            }
        }
    }
}

/// A USB control endpoint: consumes bus events, drives the standard
/// enumeration requests to completion against the peripheral, and hands
/// back every setup packet it does not handle, together with any
/// host-to-device payload collected in its receive buffer.
pub struct Control {
    endpoint_number: u8,
    descriptors: Descriptors,
    next: State,
    configuration: Option<u8>,
    feature_remote_wakeup: bool,
    rx_buffer: Vec<u8>,
    rx_capacity: usize,
}

impl View for Control {
    type V = CtrlView;

    closed spec fn view(&self) -> CtrlView {
        CtrlView {
            endpoint_number: self.endpoint_number,
            state: self.next,
            configuration: self.configuration,
            feature_remote_wakeup: self.feature_remote_wakeup,
            rx: self.rx_buffer@,
            capacity: self.rx_capacity as nat,
            descriptors: self.descriptors@,
        }
    }
}

impl Control {
    pub fn new(endpoint_number: u8, descriptors: Descriptors, rx_capacity: usize) -> (r: Control)
        ensures
            r@ == (CtrlView {
                endpoint_number,
                state: State::Idle,
                configuration: None,
                feature_remote_wakeup: false,
                rx: Seq::empty(),
                capacity: rx_capacity as nat,
                descriptors: descriptors@,
            }),
            r@.wf(),
    {
        let r = Control {
            endpoint_number,
            descriptors,
            next: State::Idle,
            configuration: None,
            feature_remote_wakeup: false,
            rx_buffer: Vec::new(),
            rx_capacity,
        };
        proof {
            assert(r@ =~= (CtrlView {
                endpoint_number,
                state: State::Idle,
                configuration: None,
                feature_remote_wakeup: false,
                rx: Seq::empty(),
                capacity: rx_capacity as nat,
                descriptors: descriptors@,
            }));
        }
        r
    }

    /// The protocol state the machine is in.
    pub fn state(&self) -> (r: State)
        ensures
            r == self@.state,
    {
        self.next
    }

    /// The configuration the host negotiated, if any.
    pub fn configuration(&self) -> (r: Option<u8>)
        ensures
            r == self@.configuration,
    {
        self.configuration
    }

    /// The number of the endpoint this record drives.
    pub fn endpoint_number(&self) -> (r: u8)
        ensures
            r == self@.endpoint_number,
    {
        self.endpoint_number
    }

    /// The control data last received from the host.
    pub fn data(&self) -> (r: &[u8])
        ensures
            r@ == self@.rx,
    {
        self.rx_buffer.as_slice()
    }

    fn write_zlp<D: UsbDriver>(&self, usb: &mut D)
        ensures
            final(usb).model() == (DriverModel { in_data: Seq::empty(), ..old(usb).model() }),
    {
        let zlp: [u8; 0] = [];
        usb.write(self.endpoint_number, zlp.as_slice());
    }

    fn read_zlp<D: UsbDriver>(&self, usb: &mut D) -> (was_zlp: bool)
        ensures
            was_zlp == (old(usb).model().out_packet.len() == 0),
            drv_matches(final(usb).model(), old(usb).model()),
    {
        let data = usb.read(self.endpoint_number);
        data.len() == 0
    }

    /// Dispatches a bus event generated by the USB peripheral to the
    /// control state machine; the record, the peripheral and the returned
    /// packet all change exactly as `ctrl_step` prescribes.
    ///
    /// Returns the setup packet received last if it could not be handled
    /// here, e.g. when it was a class or vendor request.
    pub fn dispatch_event<D: UsbDriver>(&mut self, usb: &mut D, event: UsbEvent) -> (r: Option<
        SetupPacket,
    >)
        requires
            old(self)@.wf(),
        ensures
            ({
                let step = ctrl_step(old(self)@, old(usb).model(), event);
                &&& final(self)@ == step.ctrl
                &&& drv_matches(final(usb).model(), step.drv)
                &&& r == step.ret
                &&& final(self)@.wf()
            }),
    {
        match event {
            UsbEvent::BusReset => {
                self.next = State::Idle;
                None
            }
            UsbEvent::ReceiveSetupPacket(endpoint_number, packet) => {
                let in_idle_or_stall = match self.next {
                    State::Idle | State::Stall => true,
                    _ => false,
                };
                if endpoint_number == self.endpoint_number && in_idle_or_stall {
                    // a setup packet clears any previous stall
                    self.handle_setup(usb, packet)
                } else {
                    self.next = State::Idle;
                    None
                }
            }
            UsbEvent::SendComplete(endpoint_number) => {
                if endpoint_number == self.endpoint_number {
                    match self.next {
                        State::Send => {
                            self.next = State::WaitForZlp;
                            // prime to receive the host's status-stage ZLP
                            usb.ep_out_prime_receive(self.endpoint_number);
                            None
                        }
                        State::SetAddress(address) => {
                            self.next = State::Idle;
                            usb.set_address(address);
                            None
                        }
                        State::Complete => {
                            self.next = State::Idle;
                            None
                        }
                        State::FinishHostData(setup_packet) => {
                            // the ZLP went out; the data stage is done
                            self.next = State::Idle;
                            Some(setup_packet)
                        }
                        State::Idle => None,
                        _ => {
                            self.next = State::Idle;
                            None
                        }
                    }
                } else {
                    self.next = State::Idle;
                    None
                }
            }
            UsbEvent::ReceivePacket(endpoint_number) => {
                if endpoint_number == self.endpoint_number {
                    match self.next {
                        State::WaitForZlp => {
                            let _was_zlp = self.read_zlp(usb);
                            self.next = State::Idle;
                            None
                        }
                        State::ReceiveHostData(setup_packet) => {
                            self.handle_receive_data(usb, setup_packet)
                        }
                        State::Idle => {
                            // a stray packet outside any transfer
                            let _was_zlp = self.read_zlp(usb);
                            None
                        }
                        _ => {
                            self.next = State::Idle;
                            None
                        }
                    }
                } else {
                    self.next = State::Idle;
                    None
                }
            }
        }
    }

    /// Handles one setup packet from `Idle`, exactly as `setup_step` says.
    fn handle_setup<D: UsbDriver>(&mut self, usb: &mut D, packet: SetupPacket) -> (r: Option<
        SetupPacket,
    >)
        requires
            old(self)@.wf(),
        ensures
            ({
                let step = setup_step(old(self)@, old(usb).model(), packet);
                &&& final(self)@ == step.ctrl
                &&& drv_matches(final(usb).model(), step.drv)
                &&& r == step.ret
                &&& final(self)@.wf()
            }),
    {
        match (packet.direction(), packet.request_type(), packet.request()) {
            (Direction::DeviceToHost, RequestType::Standard, Request::GetDescriptor) => {
                if self.descriptors.write(usb, self.endpoint_number, &packet) {
                    self.next = State::Send;
                } else {
                    self.next = State::Stall;
                }
                None
            }
            (Direction::HostToDevice, RequestType::Standard, Request::SetAddress) => {
                let address: u8 = (packet.value % 0x80) as u8;
                self.next = State::SetAddress(address);
                self.write_zlp(usb);
                None
            }
            (Direction::HostToDevice, RequestType::Standard, Request::SetConfiguration) => {
                if packet.value > 1 {
                    // only the single default configuration exists
                    self.configuration = None;
                    self.next = State::Stall;
                    usb.stall_endpoint_out(self.endpoint_number);
                } else {
                    self.configuration = Some(packet.value as u8);
                    self.next = State::Complete;
                    self.write_zlp(usb);
                }
                None
            }
            (Direction::DeviceToHost, RequestType::Standard, Request::GetConfiguration) => {
                self.next = State::Send;
                let configuration = match self.configuration {
                    Some(configuration) => configuration,
                    None => 0,
                };
                let reply: [u8; 1] = [configuration];
                usb.write(self.endpoint_number, reply.as_slice());
                proof {
                    assert(reply@ =~= setup_step(old(self)@, old(usb).model(), packet).drv.in_data);
                }
                None
            }
            (Direction::DeviceToHost, RequestType::Standard, Request::GetStatus) => {
                self.next = State::Send;
                // bit 0: self-powered, bit 1: remote wakeup
                let status: u8 = if self.feature_remote_wakeup { 3 } else { 1 };
                let reply: [u8; 2] = [status, 0];
                usb.write(self.endpoint_number, reply.as_slice());
                proof {
                    assert(reply@ =~= setup_step(old(self)@, old(usb).model(), packet).drv.in_data);
                }
                None
            }
            (_, RequestType::Standard, Request::ClearFeature) => {
                match (packet.recipient(), Feature::from_value(packet.value)) {
                    (Recipient::Endpoint, Feature::EndpointHalt) => {
                        let endpoint_address: u8 = (packet.index % 0x100) as u8;
                        usb.clear_feature_endpoint_halt(endpoint_address);
                        self.next = State::Complete;
                        self.write_zlp(usb);
                    }
                    (Recipient::Device, Feature::DeviceRemoteWakeup) => {
                        self.feature_remote_wakeup = false;
                        self.next = State::Complete;
                        self.write_zlp(usb);
                    }
                    _ => {
                        self.next = State::Stall;
                        usb.stall_endpoint_in(self.endpoint_number);
                    }
                }
                None
            }
            (_, RequestType::Standard, Request::SetFeature) => {
                match (packet.recipient(), Feature::from_value(packet.value)) {
                    (Recipient::Device, Feature::DeviceRemoteWakeup) => {
                        self.feature_remote_wakeup = true;
                        self.next = State::Complete;
                        self.write_zlp(usb);
                    }
                    _ => {
                        self.next = State::Stall;
                        usb.stall_endpoint_in(self.endpoint_number);
                    }
                }
                None
            }
            (direction, _, _) => {
                if matches!(direction, Direction::HostToDevice) && packet.length > 0 {
                    // an unrecognized request with host data: collect it
                    self.rx_buffer.clear();
                    self.next = State::ReceiveHostData(packet);
                    usb.ep_out_prime_receive(self.endpoint_number);
                    None
                } else {
                    self.next = State::Idle;
                    Some(packet)
                }
            }
        }
    }

    /// Folds one host data packet into the receive buffer, exactly as
    /// `receive_step` says.
    fn handle_receive_data<D: UsbDriver>(&mut self, usb: &mut D, setup_packet: SetupPacket) -> (r:
        Option<SetupPacket>)
        requires
            old(self)@.wf(),
            old(self).next == State::ReceiveHostData(setup_packet),
        ensures
            ({
                let step = receive_step(old(self)@, old(usb).model(), setup_packet);
                &&& final(self)@ == step.ctrl
                &&& drv_matches(final(usb).model(), step.drv)
                &&& r == step.ret
                &&& final(self)@.wf()
            }),
    {
        let data = usb.read(self.endpoint_number);

        // a zero-length packet means the host aborted the data stage early
        if data.len() == 0 {
            self.next = State::FinishHostData(setup_packet);
            self.write_zlp(usb);
            return None;
        }

        // append the packet, dropping whatever the buffer has no room for
        let room = self.rx_capacity - self.rx_buffer.len();
        let take = if data.len() < room {
            data.len()
        } else {
            room
        };
        let ghost pre_rx = self.rx_buffer@;
        let mut i: usize = 0;
        proof {
            assert(self@ =~= (CtrlView { rx: pre_rx + data@.take(0), ..old(self)@ }));
        }
        while i < take
            invariant
                i <= take,
                take <= data@.len(),
                take <= room,
                room as int == old(self)@.capacity - pre_rx.len(),
                self@ == (CtrlView { rx: pre_rx + data@.take(i as int), ..old(self)@ }),
                pre_rx.len() + i <= old(self)@.capacity,
            decreases take - i,
        {
            self.rx_buffer.push(data[i]);
            proof {
                assert(self@ =~= (CtrlView { rx: pre_rx + data@.take(i + 1), ..old(self)@ }));
            }
            i += 1;
        }
        proof {
            assert(self@ =~= (CtrlView {
                rx: pre_rx + take_at_most(data@, room as int),
                ..old(self)@
            }));
        }

        if self.rx_buffer.len() >= setup_packet.length as usize {
            // the negotiated length has arrived: close the data stage
            self.next = State::FinishHostData(setup_packet);
            self.write_zlp(usb);
        } else {
            // more to come: prime for the next packet
            self.next = State::ReceiveHostData(setup_packet);
            usb.ep_out_prime_receive(self.endpoint_number);
        }
        proof {
            assert(self@ =~= receive_step(old(self)@, old(usb).model(), setup_packet).ctrl);
        }
        None
    }
}

/// The standard requests the state machine drives to completion itself,
/// with the direction the transition table lists for each.
pub open spec fn is_supported_standard(packet: SetupPacket) -> bool {
    packet.spec_request_type() == RequestType::Standard && match (
        packet.spec_direction(),
        packet.spec_request(),
    ) {
        (Direction::DeviceToHost, Request::GetDescriptor) => true,
        (Direction::HostToDevice, Request::SetAddress) => true,
        (Direction::HostToDevice, Request::SetConfiguration) => true,
        (Direction::DeviceToHost, Request::GetConfiguration) => true,
        (Direction::DeviceToHost, Request::GetStatus) => true,
        (_, Request::ClearFeature) => true,
        (_, Request::SetFeature) => true,
        _ => false,
    }
}

/// Every supported standard request issued from `Idle` (or from `Stall`,
/// which the setup packet clears) ends in `Idle` or `Stall` after exactly
/// one completion event cycle: the machine answers it without handing it
/// back, moves to `Send`, `SetAddress`, `Complete` or straight to `Stall`,
/// and each of those is one send-completion (plus, after a send, the
/// host's status-stage packet) away from `Idle`. No supported request
/// leaves the machine in an intermediate state indefinitely.
pub proof fn lemma_standard_request_completes(
    pre: CtrlView,
    drv: DriverModel,
    drv2: DriverModel,
    drv3: DriverModel,
    packet: SetupPacket,
)
    requires
        pre.wf(),
        pre.state == State::Idle || pre.state == State::Stall,
        is_supported_standard(packet),
    ensures
        ({
            let s1 = ctrl_step(pre, drv, UsbEvent::ReceiveSetupPacket(pre.endpoint_number, packet));
            &&& s1.ret is None
            &&& (s1.ctrl.state is Send || s1.ctrl.state is SetAddress || s1.ctrl.state is Complete
                || s1.ctrl.state is Stall)
            &&& (s1.ctrl.state is Send ==> {
                let s2 = ctrl_step(s1.ctrl, drv2, UsbEvent::SendComplete(pre.endpoint_number));
                let s3 = ctrl_step(s2.ctrl, drv3, UsbEvent::ReceivePacket(pre.endpoint_number));
                s2.ctrl.state is WaitForZlp && s3.ctrl.state is Idle
            })
            &&& ((s1.ctrl.state is SetAddress || s1.ctrl.state is Complete) ==> ctrl_step(
                s1.ctrl,
                drv2,
                UsbEvent::SendComplete(pre.endpoint_number),
            ).ctrl.state is Idle)
        }),
{
}

/// SetConfiguration with value 0 or 1 always succeeds: the value is
/// recorded and the status cycle ends in `Idle`. Any larger value always
/// ends in `Stall` with the configuration unset and the OUT side stalled.
pub proof fn lemma_set_configuration(
    pre: CtrlView,
    drv: DriverModel,
    drv2: DriverModel,
    packet: SetupPacket,
)
    requires
        pre.wf(),
        pre.state == State::Idle || pre.state == State::Stall,
        packet.spec_direction() == Direction::HostToDevice,
        packet.spec_request_type() == RequestType::Standard,
        packet.spec_request() == Request::SetConfiguration,
    ensures
        ({
            let s1 = ctrl_step(pre, drv, UsbEvent::ReceiveSetupPacket(pre.endpoint_number, packet));
            &&& packet.value <= 1 ==> {
                &&& s1.ctrl.state == State::Complete
                &&& s1.ctrl.configuration == Some(packet.value as u8)
                &&& ctrl_step(
                    s1.ctrl,
                    drv2,
                    UsbEvent::SendComplete(pre.endpoint_number),
                ).ctrl.state == State::Idle
            }
            &&& packet.value > 1 ==> {
                &&& s1.ctrl.state == State::Stall
                &&& s1.ctrl.configuration is None
                &&& s1.drv.out_stalled
            }
        }),
{
}

/// The receive buffer after a run of host data packets, each handed to the
/// machine as one `ReceivePacket` event whose read returns that packet.
pub open spec fn deliver_packets(pre: CtrlView, drv: DriverModel, packets: Seq<Seq<u8>>) -> CtrlView
    decreases packets.len(),
{
    if packets.len() == 0 {
        pre
    } else {
        let step = ctrl_step(
            pre,
            DriverModel { out_packet: packets.first(), ..drv },
            UsbEvent::ReceivePacket(pre.endpoint_number),
        );
        deliver_packets(step.ctrl, drv, packets.drop_first())
    }
}

/// Cutting a concatenation down to `n` gives the same bytes whether or not
/// the left side was already cut down to `n`.
proof fn lemma_take_at_most_absorb(s: Seq<u8>, t: Seq<u8>, n: int)
    requires
        n >= 0,
    ensures
        take_at_most(take_at_most(s, n) + t, n) == take_at_most(s + t, n),
{
    assert(take_at_most(take_at_most(s, n) + t, n) =~= take_at_most(s + t, n));
}

/// While the announced length fits the buffer, every delivered packet is
/// appended whole, and the run ends in `FinishHostData` exactly when the
/// announced length has arrived.
proof fn lemma_receive_run_exact(
    pre: CtrlView,
    drv: DriverModel,
    packets: Seq<Seq<u8>>,
    setup_packet: SetupPacket,
)
    requires
        pre.wf(),
        pre.state == State::ReceiveHostData(setup_packet),
        forall|i: int| 0 <= i < packets.len() ==> packets[i].len() > 0,
        packets.len() > 0,
        pre.rx.len() + packets.flatten().len() == setup_packet.length,
        setup_packet.length <= pre.capacity,
    ensures
        deliver_packets(pre, drv, packets) == (CtrlView {
            state: State::FinishHostData(setup_packet),
            rx: pre.rx + packets.flatten(),
            ..pre
        }),
    decreases packets.len(),
{
    let p = packets.first();
    let rest = packets.drop_first();
    assert(packets.flatten() == p + rest.flatten());
    let drv1 = DriverModel { out_packet: p, ..drv };
    let step = ctrl_step(pre, drv1, UsbEvent::ReceivePacket(pre.endpoint_number));
    let room = pre.capacity - pre.rx.len();
    assert(take_at_most(p, room) =~= p);
    assert(step.ctrl.rx =~= pre.rx + p);
    if rest.len() == 0 {
        assert(rest.flatten() =~= Seq::<u8>::empty());
        assert(pre.rx + packets.flatten() =~= pre.rx + p);
        assert(step.ctrl.state == State::FinishHostData(setup_packet));
        assert(deliver_packets(step.ctrl, drv, rest) == step.ctrl);
        assert(deliver_packets(pre, drv, packets) =~= (CtrlView {
            state: State::FinishHostData(setup_packet),
            rx: pre.rx + packets.flatten(),
            ..pre
        }));
    } else {
        assert(rest.flatten() == rest.first() + rest.drop_first().flatten());
        assert(step.ctrl.state == State::ReceiveHostData(setup_packet));
        lemma_receive_run_exact(step.ctrl, drv, rest, setup_packet);
        assert(step.ctrl.rx + rest.flatten() =~= pre.rx + packets.flatten());
        assert(deliver_packets(pre, drv, packets) =~= (CtrlView {
            state: State::FinishHostData(setup_packet),
            rx: pre.rx + packets.flatten(),
            ..pre
        }));
    }
}

/// For every host-to-device payload no longer than the receive buffer's
/// capacity, delivered in non-empty packets totalling the announced
/// length, the collected buffer equals exactly the bytes the host sent,
/// the cursor equals the payload length, and the data stage closes.
pub proof fn lemma_receive_within_capacity(
    pre: CtrlView,
    drv: DriverModel,
    packets: Seq<Seq<u8>>,
    setup_packet: SetupPacket,
)
    requires
        pre.wf(),
        pre.state == State::ReceiveHostData(setup_packet),
        pre.rx.len() == 0,
        forall|i: int| 0 <= i < packets.len() ==> packets[i].len() > 0,
        packets.len() > 0,
        packets.flatten().len() == setup_packet.length,
        setup_packet.length <= pre.capacity,
    ensures
        ({
            let post = deliver_packets(pre, drv, packets);
            &&& post.state == State::FinishHostData(setup_packet)
            &&& post.rx == packets.flatten()
            &&& post.rx.len() == setup_packet.length
        }),
{
    lemma_receive_run_exact(pre, drv, packets, setup_packet);
    assert(pre.rx + packets.flatten() =~= packets.flatten());
}

/// While the announced length exceeds the buffer, the machine keeps
/// collecting: each packet is appended as far as the capacity allows, the
/// cursor never passes the capacity, and the state keeps asking for more.
proof fn lemma_receive_run_capped(
    pre: CtrlView,
    drv: DriverModel,
    packets: Seq<Seq<u8>>,
    setup_packet: SetupPacket,
)
    requires
        pre.wf(),
        pre.state == State::ReceiveHostData(setup_packet),
        forall|i: int| 0 <= i < packets.len() ==> packets[i].len() > 0,
        setup_packet.length > pre.capacity,
    ensures
        deliver_packets(pre, drv, packets) == (CtrlView {
            state: State::ReceiveHostData(setup_packet),
            rx: take_at_most(pre.rx + packets.flatten(), pre.capacity as int),
            ..pre
        }),
    decreases packets.len(),
{
    if packets.len() == 0 {
        assert(packets.flatten() =~= Seq::<u8>::empty());
        assert(take_at_most(pre.rx + packets.flatten(), pre.capacity as int) =~= pre.rx);
        assert(deliver_packets(pre, drv, packets) =~= (CtrlView {
            state: State::ReceiveHostData(setup_packet),
            rx: take_at_most(pre.rx + packets.flatten(), pre.capacity as int),
            ..pre
        }));
    } else {
        let p = packets.first();
        let rest = packets.drop_first();
        assert(packets.flatten() == p + rest.flatten());
        let drv1 = DriverModel { out_packet: p, ..drv };
        let step = ctrl_step(pre, drv1, UsbEvent::ReceivePacket(pre.endpoint_number));
        let room = pre.capacity - pre.rx.len();
        assert(step.ctrl.rx == pre.rx + take_at_most(p, room));
        assert(step.ctrl.rx.len() <= pre.capacity);
        assert(step.ctrl.state == State::ReceiveHostData(setup_packet));
        assert(step.ctrl.rx =~= take_at_most(pre.rx + p, pre.capacity as int));
        lemma_receive_run_capped(step.ctrl, drv, rest, setup_packet);
        lemma_take_at_most_absorb(pre.rx + p, rest.flatten(), pre.capacity as int);
        assert((pre.rx + p) + rest.flatten() =~= pre.rx + packets.flatten());
        assert(deliver_packets(pre, drv, packets) =~= (CtrlView {
            state: State::ReceiveHostData(setup_packet),
            rx: take_at_most(pre.rx + packets.flatten(), pre.capacity as int),
            ..pre
        }));
    }
}

/// For a host-to-device payload longer than the receive buffer, the
/// transfer still completes: the cursor is capped at the capacity, the
/// collected bytes are the longest prefix of the host's bytes that fits,
/// and the host's closing zero-length packet plus the queued ZLP's
/// completion bring the machine back to `Idle` with the packet handed
/// back. The bus is never left hanging.
pub proof fn lemma_receive_beyond_capacity(
    pre: CtrlView,
    drv: DriverModel,
    drv2: DriverModel,
    drv3: DriverModel,
    packets: Seq<Seq<u8>>,
    setup_packet: SetupPacket,
)
    requires
        pre.wf(),
        pre.state == State::ReceiveHostData(setup_packet),
        pre.rx.len() == 0,
        forall|i: int| 0 <= i < packets.len() ==> packets[i].len() > 0,
        setup_packet.length > pre.capacity,
    ensures
        ({
            let post = deliver_packets(pre, drv, packets);
            &&& post.state == State::ReceiveHostData(setup_packet)
            &&& post.rx == take_at_most(packets.flatten(), pre.capacity as int)
            &&& post.rx.len() <= pre.capacity
            &&& packets.flatten().len() >= pre.capacity ==> post.rx.len() == pre.capacity
            &&& ({
                let fin = ctrl_step(
                    post,
                    DriverModel { out_packet: Seq::empty(), ..drv2 },
                    UsbEvent::ReceivePacket(pre.endpoint_number),
                );
                let done = ctrl_step(fin.ctrl, drv3, UsbEvent::SendComplete(pre.endpoint_number));
                &&& fin.ctrl.state == State::FinishHostData(setup_packet)
                &&& done.ctrl.state == State::Idle
                &&& done.ret == Some(setup_packet)
                &&& done.ctrl.rx == post.rx
            })
        }),
{
    lemma_receive_run_capped(pre, drv, packets, setup_packet);
    assert(pre.rx + packets.flatten() =~= packets.flatten());
}

} // verus!
