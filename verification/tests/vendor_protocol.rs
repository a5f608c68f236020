use moondancer::gcp::{encode_u32_le, Command, CommandRegistry, GcpDispatch, GreatError, VendorRequest, VendorValue};
use moondancer::setup::SetupPacket;
use moondancer::sim::{SimDriver, SimRegistry};

fn setup(request_type: u8, request: u8, value: u16, index: u16, length: u16) -> SetupPacket {
    SetupPacket { request_type, request, value, index, length }
}

fn command_bytes(class_id: u32, verb_number: u32, args: &[u8]) -> Vec<u8> {
    let mut bytes = Vec::new();
    bytes.extend_from_slice(&class_id.to_le_bytes());
    bytes.extend_from_slice(&verb_number.to_le_bytes());
    bytes.extend_from_slice(args);
    bytes
}

fn registry() -> SimRegistry {
    let mut registry = SimRegistry::new();
    registry.insert(0, 1, vec![1, 2, 3, 4]);
    registry.insert(1, 2, vec![0xaa, 0xbb]);
    registry
}

#[test]
fn submit_then_fetch_round_trip() {
    let mut usb = SimDriver::new();
    let mut registry = registry();
    let mut gcp = GcpDispatch::new();
    let data = command_bytes(0, 1, &[]);
    // submit: Execute, host to device
    gcp.handle_vendor_request(&mut usb, &mut registry, &setup(0x40, 0x65, 0, 0, 8), &data);
    assert!(gcp.response_pending());
    assert!(!gcp.error_pending());
    // fetch: Execute, device to host, requested length 4
    gcp.handle_vendor_request(&mut usb, &mut registry, &setup(0xc0, 0x65, 0, 0, 4), &[]);
    assert_eq!(usb.sent(), &[1, 2, 3, 4]);
    assert!(usb.out_primed());
    assert!(!gcp.response_pending());
    assert!(!gcp.error_pending());
}

#[test]
fn fetch_truncates_to_requested_length() {
    let mut usb = SimDriver::new();
    let mut registry = registry();
    let mut gcp = GcpDispatch::new();
    let data = command_bytes(0, 1, &[]);
    gcp.handle_vendor_request(&mut usb, &mut registry, &setup(0x40, 0x65, 0, 0, 8), &data);
    gcp.handle_vendor_request(&mut usb, &mut registry, &setup(0xc0, 0x65, 0, 0, 2), &[]);
    assert_eq!(usb.sent(), &[1, 2]);
}

#[test]
fn submit_with_arguments_reaches_registry() {
    let mut usb = SimDriver::new();
    let mut registry = registry();
    let mut gcp = GcpDispatch::new();
    let data = command_bytes(1, 2, &[9, 9]);
    gcp.handle_vendor_request(&mut usb, &mut registry, &setup(0x40, 0x65, 0, 0, 10), &data);
    gcp.handle_vendor_request(&mut usb, &mut registry, &setup(0xc0, 0x65, 0, 0, 64), &[]);
    assert_eq!(usb.sent(), &[0xaa, 0xbb]);
}

#[test]
fn submit_error_stalls_and_abort_reports_it() {
    let mut usb = SimDriver::new();
    let mut registry = registry();
    let mut gcp = GcpDispatch::new();
    // class 9 / verb 9 is not in the registry
    let data = command_bytes(9, 9, &[]);
    gcp.handle_vendor_request(&mut usb, &mut registry, &setup(0x40, 0x65, 0, 0, 8), &data);
    assert!(!gcp.response_pending());
    assert!(gcp.error_pending());
    assert!(usb.in_stalled());
    // abort: Cancel, device to host; invalid-argument is errno 22
    gcp.handle_vendor_request(&mut usb, &mut registry, &setup(0xc0, 0x65, 0xf000, 0, 4), &[]);
    assert_eq!(usb.sent(), &[22, 0, 0, 0]);
    assert!(!gcp.response_pending());
    assert!(!gcp.error_pending());
}

#[test]
fn abort_without_pending_error_reports_not_recoverable() {
    let mut usb = SimDriver::new();
    let mut registry = registry();
    let mut gcp = GcpDispatch::new();
    gcp.handle_vendor_request(&mut usb, &mut registry, &setup(0xc0, 0x65, 0xf000, 0, 4), &[]);
    // state-not-recoverable is errno 131
    assert_eq!(usb.sent(), &[131, 0, 0, 0]);
}

#[test]
fn fetch_without_pending_response_stalls() {
    let mut usb = SimDriver::new();
    let mut registry = registry();
    let mut gcp = GcpDispatch::new();
    gcp.handle_vendor_request(&mut usb, &mut registry, &setup(0xc0, 0x65, 0, 0, 4), &[]);
    assert!(usb.in_stalled());
}

#[test]
fn fetch_with_pending_error_waits_for_abort() {
    let mut usb = SimDriver::new();
    let mut registry = registry();
    let mut gcp = GcpDispatch::new();
    let data = command_bytes(9, 9, &[]);
    gcp.handle_vendor_request(&mut usb, &mut registry, &setup(0x40, 0x65, 0, 0, 8), &data);
    usb.in_data = vec![7];
    gcp.handle_vendor_request(&mut usb, &mut registry, &setup(0xc0, 0x65, 0, 0, 4), &[]);
    // nothing was written and the error is still pending
    assert_eq!(usb.sent(), &[7]);
    assert!(gcp.error_pending());
}

#[test]
fn submit_with_short_data_changes_nothing() {
    let mut usb = SimDriver::new();
    let mut registry = registry();
    let mut gcp = GcpDispatch::new();
    gcp.handle_vendor_request(&mut usb, &mut registry, &setup(0x40, 0x65, 0, 0, 3), &[1, 2, 3]);
    assert!(!gcp.response_pending());
    assert!(!gcp.error_pending());
    assert!(!usb.in_stalled());
}

#[test]
fn claim_interface_is_acknowledged() {
    let mut usb = SimDriver::new();
    let mut registry = registry();
    let mut gcp = GcpDispatch::new();
    usb.in_data = vec![9];
    gcp.handle_vendor_request(&mut usb, &mut registry, &setup(0x41, 0xf0, 0, 0, 0), &[]);
    // a zero-length packet acknowledges the claim
    assert_eq!(usb.sent().len(), 0);
    assert!(!usb.in_stalled());
    assert!(!usb.out_stalled());
}

#[test]
fn unknown_vendor_request_stalls_by_direction() {
    // device-to-host: the legacy enumeration scan expects the IN side stalled
    let mut usb = SimDriver::new();
    let mut registry = registry();
    let mut gcp = GcpDispatch::new();
    gcp.handle_vendor_request(&mut usb, &mut registry, &setup(0xc0, 0x04, 0, 0, 4), &[]);
    assert!(usb.in_stalled());
    assert!(!usb.out_stalled());
    // host-to-device: the OUT side
    let mut usb = SimDriver::new();
    gcp.handle_vendor_request(&mut usb, &mut registry, &setup(0x40, 0x99, 0, 0, 0), &[]);
    assert!(usb.out_stalled());
    assert!(!usb.in_stalled());
}

#[test]
fn unknown_phase_combination_stalls_by_direction() {
    // Cancel host-to-device is outside the vocabulary
    let mut usb = SimDriver::new();
    let mut registry = registry();
    let mut gcp = GcpDispatch::new();
    gcp.handle_vendor_request(&mut usb, &mut registry, &setup(0x40, 0x65, 0xf000, 0, 0), &[]);
    assert!(usb.out_stalled());
    // an unknown value selector too
    let mut usb = SimDriver::new();
    gcp.handle_vendor_request(&mut usb, &mut registry, &setup(0xc0, 0x65, 0x1234, 0, 0), &[]);
    assert!(usb.in_stalled());
}

#[test]
fn command_parse_reads_fixed_offsets() {
    let data = command_bytes(0x01020304, 0x10, &[0xaa, 0xbb]);
    let command = Command::parse(&data).unwrap();
    assert_eq!(command.class_id, 0x01020304);
    assert_eq!(command.verb_number, 0x10);
    assert_eq!(command.arguments, vec![0xaa, 0xbb]);
    let headless = Command::parse(&data[..8]).unwrap();
    assert_eq!(headless.arguments.len(), 0);
}

#[test]
fn command_parse_rejects_short_data() {
    assert!(Command::parse(&[1, 2, 3, 4, 5, 6, 7]).is_none());
    assert!(Command::parse(&[]).is_none());
}

#[test]
fn error_codes_follow_errno() {
    assert_eq!(GreatError::InvalidArgument.code(), 22);
    assert_eq!(GreatError::FunctionNotImplemented.code(), 38);
    assert_eq!(GreatError::NoBufferSpaceAvailable.code(), 105);
    assert_eq!(GreatError::StateNotRecoverable.code(), 131);
}

#[test]
fn u32_encoding_is_little_endian() {
    assert_eq!(encode_u32_le(0x01020304), vec![4, 3, 2, 1]);
    assert_eq!(encode_u32_le(131), vec![131, 0, 0, 0]);
}

#[test]
fn vendor_codes_decode() {
    assert_eq!(VendorRequest::from_code(0x65), VendorRequest::UsbCommandRequest);
    assert_eq!(VendorRequest::from_code(0xf0), VendorRequest::ApolloClaimInterface);
    assert_eq!(VendorRequest::from_code(0x04), VendorRequest::Unknown(0x04));
    assert_eq!(VendorValue::from_value(0), VendorValue::Execute);
    assert_eq!(VendorValue::from_value(0xf000), VendorValue::Cancel);
    assert_eq!(VendorValue::from_value(7), VendorValue::Unknown(7));
}

#[test]
fn registry_answers_first_matching_entry() {
    let mut registry = registry();
    assert_eq!(registry.dispatch(0, 1, &[]), Ok(vec![1, 2, 3, 4]));
    assert_eq!(registry.dispatch(9, 9, &[]), Err(GreatError::InvalidArgument));
}
