use moondancer::ladybug::{trace, Bit, Channel, LogicAnalyzer, NoOpAnalyzer};
use moondancer::pac::{pending, sysclk, Interrupt};
use moondancer::setup::{Direction, Feature, Recipient, Request, RequestType, SetupPacket};

#[test]
fn sysclk_reports_the_configured_frequency() {
    assert_eq!(sysclk(), 500_000_000);
}

#[test]
fn no_interrupt_is_ever_pending_on_this_port() {
    assert_eq!(pending(), Err::<Interrupt, usize>(0));
}

#[test]
fn trace_hands_back_the_closure_result() {
    let analyzer = NoOpAnalyzer;
    let result = trace(&analyzer, Channel::A, Bit::A_GET_EVENTS, || 41 + 1);
    assert_eq!(result, 42);
}

struct CountingAnalyzer {
    highs: std::cell::Cell<u32>,
    lows: std::cell::Cell<u32>,
}

impl LogicAnalyzer for CountingAnalyzer {
    fn high(&self, _channel: Channel, _bit_number: u8) {
        self.highs.set(self.highs.get() + 1);
    }

    fn low(&self, _channel: Channel, _bit_number: u8) {
        self.lows.set(self.lows.get() + 1);
    }
}

#[test]
fn trace_pulses_the_analyzer_around_the_closure() {
    let analyzer = CountingAnalyzer { highs: std::cell::Cell::new(0), lows: std::cell::Cell::new(0) };
    let result = trace(&analyzer, Channel::B, Bit::B_IRQ_EP_OUT, || 7);
    assert_eq!(result, 7);
    assert_eq!(analyzer.highs.get(), 1);
    assert_eq!(analyzer.lows.get(), 1);
}

#[test]
fn setup_packet_round_trips_through_its_wire_bytes() {
    let bytes: [u8; 8] = [0x80, 6, 0x00, 0x01, 0x34, 0x12, 0x40, 0x00];
    let packet = SetupPacket::from_bytes(&bytes);
    assert_eq!(packet.request_type, 0x80);
    assert_eq!(packet.request, 6);
    assert_eq!(packet.value, 0x0100);
    assert_eq!(packet.index, 0x1234);
    assert_eq!(packet.length, 0x0040);
    assert_eq!(packet.to_bytes(), bytes.to_vec());
}

#[test]
fn setup_packet_decodes_its_bit_fields() {
    let packet = SetupPacket { request_type: 0xc1, request: 0x65, value: 0, index: 0, length: 0 };
    assert_eq!(packet.direction(), Direction::DeviceToHost);
    assert_eq!(packet.request_type(), RequestType::Vendor);
    assert_eq!(packet.recipient(), Recipient::Interface);
    let packet = SetupPacket { request_type: 0x02, request: 1, value: 0, index: 0, length: 0 };
    assert_eq!(packet.direction(), Direction::HostToDevice);
    assert_eq!(packet.request_type(), RequestType::Standard);
    assert_eq!(packet.recipient(), Recipient::Endpoint);
    let packet = SetupPacket { request_type: 0x35, request: 0, value: 0, index: 0, length: 0 };
    assert_eq!(packet.request_type(), RequestType::Class);
    assert_eq!(packet.recipient(), Recipient::Reserved);
}

#[test]
fn request_and_feature_codes_decode() {
    assert_eq!(Request::from_code(0), Request::GetStatus);
    assert_eq!(Request::from_code(1), Request::ClearFeature);
    assert_eq!(Request::from_code(3), Request::SetFeature);
    assert_eq!(Request::from_code(5), Request::SetAddress);
    assert_eq!(Request::from_code(6), Request::GetDescriptor);
    assert_eq!(Request::from_code(8), Request::GetConfiguration);
    assert_eq!(Request::from_code(9), Request::SetConfiguration);
    assert_eq!(Request::from_code(0x42), Request::Unknown(0x42));
    assert_eq!(Feature::from_value(0), Feature::EndpointHalt);
    assert_eq!(Feature::from_value(1), Feature::DeviceRemoteWakeup);
    assert_eq!(Feature::from_value(9), Feature::Unknown(9));
}
