use moondancer::control::{Control, State};
use moondancer::descriptor::Descriptors;
use moondancer::event::UsbEvent;
use moondancer::setup::SetupPacket;
use moondancer::sim::SimDriver;

fn descriptors() -> Descriptors {
    Descriptors {
        device: vec![18, 1, 0, 2],
        configuration: vec![9, 2, 32, 0],
        strings: vec![vec![4, 3, 9, 4], vec![10, 3, 77, 0, 68, 0]],
        device_qualifier: Some(vec![10, 6]),
        other_speed_configuration: None,
    }
}

fn setup(request_type: u8, request: u8, value: u16, index: u16, length: u16) -> SetupPacket {
    SetupPacket { request_type, request, value, index, length }
}

#[test]
fn get_descriptor_device_cycle() {
    let mut usb = SimDriver::new();
    let mut control = Control::new(0, descriptors(), 64);
    // GetDescriptor(Device), requested length 18
    let packet = setup(0x80, 6, 0x0100, 0, 18);
    let r = control.dispatch_event(&mut usb, UsbEvent::ReceiveSetupPacket(0, packet));
    assert!(r.is_none());
    assert_eq!(control.state(), State::Send);
    assert_eq!(usb.sent(), &[18, 1, 0, 2]);
    let r = control.dispatch_event(&mut usb, UsbEvent::SendComplete(0));
    assert!(r.is_none());
    assert_eq!(control.state(), State::WaitForZlp);
    assert!(usb.out_primed());
    // the host closes the status stage with a zero-length packet
    let r = control.dispatch_event(&mut usb, UsbEvent::ReceivePacket(0));
    assert!(r.is_none());
    assert_eq!(control.state(), State::Idle);
    // the control record is unchanged
    assert_eq!(control.configuration(), None);
    assert_eq!(control.data(), &[] as &[u8]);
}

#[test]
fn get_descriptor_truncates_to_requested_length() {
    let mut usb = SimDriver::new();
    let mut control = Control::new(0, descriptors(), 64);
    let packet = setup(0x80, 6, 0x0100, 0, 2);
    control.dispatch_event(&mut usb, UsbEvent::ReceiveSetupPacket(0, packet));
    assert_eq!(usb.sent(), &[18, 1]);
}

#[test]
fn get_descriptor_string_by_index() {
    let mut usb = SimDriver::new();
    let mut control = Control::new(0, descriptors(), 64);
    let packet = setup(0x80, 6, 0x0301, 0, 255);
    control.dispatch_event(&mut usb, UsbEvent::ReceiveSetupPacket(0, packet));
    assert_eq!(control.state(), State::Send);
    assert_eq!(usb.sent(), &[10, 3, 77, 0, 68, 0]);
}

#[test]
fn get_descriptor_unknown_stalls() {
    let mut usb = SimDriver::new();
    let mut control = Control::new(0, descriptors(), 64);
    // string index 7 does not exist
    let packet = setup(0x80, 6, 0x0307, 0, 255);
    let r = control.dispatch_event(&mut usb, UsbEvent::ReceiveSetupPacket(0, packet));
    assert!(r.is_none());
    assert_eq!(control.state(), State::Stall);
    assert!(usb.in_stalled());
}

#[test]
fn set_address_applies_after_status_stage() {
    let mut usb = SimDriver::new();
    let mut control = Control::new(0, descriptors(), 64);
    let packet = setup(0x00, 5, 5, 0, 0);
    let r = control.dispatch_event(&mut usb, UsbEvent::ReceiveSetupPacket(0, packet));
    assert!(r.is_none());
    // the ZLP is queued first; the address must not change yet
    assert_eq!(control.state(), State::SetAddress(5));
    assert_eq!(usb.sent().len(), 0);
    assert_eq!(usb.address(), 0);
    let r = control.dispatch_event(&mut usb, UsbEvent::SendComplete(0));
    assert!(r.is_none());
    assert_eq!(control.state(), State::Idle);
    assert_eq!(usb.address(), 5);
}

#[test]
fn set_configuration_zero_and_one_succeed() {
    for value in [0u16, 1u16] {
        let mut usb = SimDriver::new();
        let mut control = Control::new(0, descriptors(), 64);
        let packet = setup(0x00, 9, value, 0, 0);
        let r = control.dispatch_event(&mut usb, UsbEvent::ReceiveSetupPacket(0, packet));
        assert!(r.is_none());
        assert_eq!(control.state(), State::Complete);
        assert_eq!(control.configuration(), Some(value as u8));
        assert_eq!(usb.sent().len(), 0);
        let r = control.dispatch_event(&mut usb, UsbEvent::SendComplete(0));
        assert!(r.is_none());
        assert_eq!(control.state(), State::Idle);
    }
}

#[test]
fn set_configuration_above_one_stalls_and_unsets() {
    let mut usb = SimDriver::new();
    let mut control = Control::new(0, descriptors(), 64);
    // configure successfully first, so the stall visibly unsets it
    control.dispatch_event(&mut usb, UsbEvent::ReceiveSetupPacket(0, setup(0x00, 9, 1, 0, 0)));
    control.dispatch_event(&mut usb, UsbEvent::SendComplete(0));
    assert_eq!(control.configuration(), Some(1));
    let packet = setup(0x00, 9, 2, 0, 0);
    let r = control.dispatch_event(&mut usb, UsbEvent::ReceiveSetupPacket(0, packet));
    assert!(r.is_none());
    assert_eq!(control.state(), State::Stall);
    assert_eq!(control.configuration(), None);
    assert!(usb.out_stalled());
}

#[test]
fn get_configuration_reports_negotiated_value() {
    let mut usb = SimDriver::new();
    let mut control = Control::new(0, descriptors(), 64);
    control.dispatch_event(&mut usb, UsbEvent::ReceiveSetupPacket(0, setup(0x80, 8, 0, 0, 1)));
    assert_eq!(usb.sent(), &[0]);
    control.dispatch_event(&mut usb, UsbEvent::SendComplete(0));
    control.dispatch_event(&mut usb, UsbEvent::ReceivePacket(0));
    control.dispatch_event(&mut usb, UsbEvent::ReceiveSetupPacket(0, setup(0x00, 9, 1, 0, 0)));
    control.dispatch_event(&mut usb, UsbEvent::SendComplete(0));
    control.dispatch_event(&mut usb, UsbEvent::ReceiveSetupPacket(0, setup(0x80, 8, 0, 0, 1)));
    assert_eq!(usb.sent(), &[1]);
}

#[test]
fn get_status_reports_self_powered_and_remote_wakeup() {
    let mut usb = SimDriver::new();
    let mut control = Control::new(0, descriptors(), 64);
    control.dispatch_event(&mut usb, UsbEvent::ReceiveSetupPacket(0, setup(0x80, 0, 0, 0, 2)));
    // bit 0: self-powered
    assert_eq!(usb.sent(), &[1, 0]);
    control.dispatch_event(&mut usb, UsbEvent::SendComplete(0));
    control.dispatch_event(&mut usb, UsbEvent::ReceivePacket(0));
    // SetFeature(DeviceRemoteWakeup)
    let r = control.dispatch_event(&mut usb, UsbEvent::ReceiveSetupPacket(0, setup(0x00, 3, 1, 0, 0)));
    assert!(r.is_none());
    assert_eq!(control.state(), State::Complete);
    control.dispatch_event(&mut usb, UsbEvent::SendComplete(0));
    control.dispatch_event(&mut usb, UsbEvent::ReceiveSetupPacket(0, setup(0x80, 0, 0, 0, 2)));
    // bit 1: remote wakeup now set
    assert_eq!(usb.sent(), &[3, 0]);
    control.dispatch_event(&mut usb, UsbEvent::SendComplete(0));
    control.dispatch_event(&mut usb, UsbEvent::ReceivePacket(0));
    // ClearFeature(DeviceRemoteWakeup)
    control.dispatch_event(&mut usb, UsbEvent::ReceiveSetupPacket(0, setup(0x00, 1, 1, 0, 0)));
    control.dispatch_event(&mut usb, UsbEvent::SendComplete(0));
    control.dispatch_event(&mut usb, UsbEvent::ReceiveSetupPacket(0, setup(0x80, 0, 0, 0, 2)));
    assert_eq!(usb.sent(), &[1, 0]);
}

#[test]
fn clear_feature_endpoint_halt_reaches_peripheral() {
    let mut usb = SimDriver::new();
    let mut control = Control::new(0, descriptors(), 64);
    // recipient endpoint, feature 0 (endpoint halt), endpoint address 0x81
    let packet = setup(0x02, 1, 0, 0x0081, 0);
    let r = control.dispatch_event(&mut usb, UsbEvent::ReceiveSetupPacket(0, packet));
    assert!(r.is_none());
    assert_eq!(control.state(), State::Complete);
    assert_eq!(usb.cleared_halt(), Some(0x81));
    assert_eq!(usb.sent().len(), 0);
}

#[test]
fn clear_feature_unknown_combination_stalls() {
    let mut usb = SimDriver::new();
    let mut control = Control::new(0, descriptors(), 64);
    // recipient device, feature 0 is not a device feature
    let packet = setup(0x00, 1, 0, 0, 0);
    control.dispatch_event(&mut usb, UsbEvent::ReceiveSetupPacket(0, packet));
    assert_eq!(control.state(), State::Stall);
    assert!(usb.in_stalled());
}

#[test]
fn set_feature_unknown_combination_stalls() {
    let mut usb = SimDriver::new();
    let mut control = Control::new(0, descriptors(), 64);
    // SetFeature(EndpointHalt) on the device recipient is not supported
    let packet = setup(0x00, 3, 0, 0, 0);
    control.dispatch_event(&mut usb, UsbEvent::ReceiveSetupPacket(0, packet));
    assert_eq!(control.state(), State::Stall);
    assert!(usb.in_stalled());
}

#[test]
fn unhandled_request_is_returned_to_caller() {
    let mut usb = SimDriver::new();
    let mut control = Control::new(0, descriptors(), 64);
    // a device-to-host vendor request is not the machine's business
    let packet = setup(0xc0, 0x65, 0, 0, 4);
    let r = control.dispatch_event(&mut usb, UsbEvent::ReceiveSetupPacket(0, packet));
    assert_eq!(r, Some(packet));
    assert_eq!(control.state(), State::Idle);
}

#[test]
fn host_data_within_capacity_is_collected_exactly() {
    let mut usb = SimDriver::new();
    let mut control = Control::new(0, descriptors(), 64);
    // a host-to-device vendor request announcing 12 bytes
    let packet = setup(0x40, 0x65, 0, 0, 12);
    let r = control.dispatch_event(&mut usb, UsbEvent::ReceiveSetupPacket(0, packet));
    assert!(r.is_none());
    assert_eq!(control.state(), State::ReceiveHostData(packet));
    assert!(usb.out_primed());
    usb.host_send(vec![1, 2, 3, 4, 5, 6, 7, 8]);
    let r = control.dispatch_event(&mut usb, UsbEvent::ReceivePacket(0));
    assert!(r.is_none());
    assert_eq!(control.state(), State::ReceiveHostData(packet));
    usb.host_send(vec![9, 10, 11, 12]);
    let r = control.dispatch_event(&mut usb, UsbEvent::ReceivePacket(0));
    assert!(r.is_none());
    assert_eq!(control.state(), State::FinishHostData(packet));
    // the closing ZLP went out; its completion hands the packet back
    assert_eq!(usb.sent().len(), 0);
    let r = control.dispatch_event(&mut usb, UsbEvent::SendComplete(0));
    assert_eq!(r, Some(packet));
    assert_eq!(control.state(), State::Idle);
    assert_eq!(control.data(), &[1, 2, 3, 4, 5, 6, 7, 8, 9, 10, 11, 12]);
}

#[test]
fn host_data_beyond_capacity_truncates_and_completes() {
    let mut usb = SimDriver::new();
    let mut control = Control::new(0, descriptors(), 8);
    let packet = setup(0x40, 0x65, 0, 0, 12);
    control.dispatch_event(&mut usb, UsbEvent::ReceiveSetupPacket(0, packet));
    usb.host_send(vec![1, 2, 3, 4, 5]);
    control.dispatch_event(&mut usb, UsbEvent::ReceivePacket(0));
    assert_eq!(control.state(), State::ReceiveHostData(packet));
    usb.host_send(vec![6, 7, 8, 9, 10]);
    control.dispatch_event(&mut usb, UsbEvent::ReceivePacket(0));
    // still collecting: only 8 of the announced 12 bytes fit
    assert_eq!(control.state(), State::ReceiveHostData(packet));
    assert!(usb.out_primed());
    // the host has nothing left; its zero-length packet closes the stage
    usb.host_send(vec![]);
    control.dispatch_event(&mut usb, UsbEvent::ReceivePacket(0));
    assert_eq!(control.state(), State::FinishHostData(packet));
    let r = control.dispatch_event(&mut usb, UsbEvent::SendComplete(0));
    assert_eq!(r, Some(packet));
    assert_eq!(control.state(), State::Idle);
    // the cursor is capped at the capacity, the content is a prefix
    assert_eq!(control.data(), &[1, 2, 3, 4, 5, 6, 7, 8]);
}

#[test]
fn host_data_early_abort_completes() {
    let mut usb = SimDriver::new();
    let mut control = Control::new(0, descriptors(), 64);
    let packet = setup(0x40, 0x65, 0, 0, 12);
    control.dispatch_event(&mut usb, UsbEvent::ReceiveSetupPacket(0, packet));
    // the host aborts the data stage with a zero-length packet at once
    control.dispatch_event(&mut usb, UsbEvent::ReceivePacket(0));
    assert_eq!(control.state(), State::FinishHostData(packet));
    let r = control.dispatch_event(&mut usb, UsbEvent::SendComplete(0));
    assert_eq!(r, Some(packet));
    assert_eq!(control.data(), &[] as &[u8]);
}

#[test]
fn setup_packet_clears_stall() {
    let mut usb = SimDriver::new();
    let mut control = Control::new(0, descriptors(), 64);
    control.dispatch_event(&mut usb, UsbEvent::ReceiveSetupPacket(0, setup(0x00, 9, 2, 0, 0)));
    assert_eq!(control.state(), State::Stall);
    // the next setup packet is processed normally
    control.dispatch_event(&mut usb, UsbEvent::ReceiveSetupPacket(0, setup(0x00, 9, 1, 0, 0)));
    assert_eq!(control.state(), State::Complete);
    assert_eq!(control.configuration(), Some(1));
}

#[test]
fn bus_reset_returns_to_idle() {
    let mut usb = SimDriver::new();
    let mut control = Control::new(0, descriptors(), 64);
    control.dispatch_event(&mut usb, UsbEvent::ReceiveSetupPacket(0, setup(0x80, 6, 0x0100, 0, 18)));
    assert_eq!(control.state(), State::Send);
    let r = control.dispatch_event(&mut usb, UsbEvent::BusReset);
    assert!(r.is_none());
    assert_eq!(control.state(), State::Idle);
}

#[test]
fn unexpected_event_resets_to_idle() {
    let mut usb = SimDriver::new();
    let mut control = Control::new(0, descriptors(), 64);
    control.dispatch_event(&mut usb, UsbEvent::ReceiveSetupPacket(0, setup(0x80, 6, 0x0100, 0, 18)));
    assert_eq!(control.state(), State::Send);
    // a setup packet outside Idle/Stall is a protocol error
    let r = control.dispatch_event(&mut usb, UsbEvent::ReceiveSetupPacket(0, setup(0x00, 5, 1, 0, 0)));
    assert!(r.is_none());
    assert_eq!(control.state(), State::Idle);
}

#[test]
fn stray_events_in_idle_are_ignored() {
    let mut usb = SimDriver::new();
    let mut control = Control::new(0, descriptors(), 64);
    assert!(control.dispatch_event(&mut usb, UsbEvent::SendComplete(0)).is_none());
    assert_eq!(control.state(), State::Idle);
    assert!(control.dispatch_event(&mut usb, UsbEvent::ReceivePacket(0)).is_none());
    assert_eq!(control.state(), State::Idle);
}
