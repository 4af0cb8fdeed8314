//! Verified core of two small embedded demonstrations: a UDP streamer that
//! sends one fixed datagram to a given peer over a client-supplied network
//! stack, and the calibration arithmetic of a microcontroller's temperature
//! sensor readings.

mod adc;
mod payload;
mod stream;

pub use adc::TempCalibration;
pub use adc::parse_temp_calibration;
pub use adc::quot_toward_zero;
pub use adc::scaled_temp;
pub use adc::temp_celsius;
pub use adc::temp_celsius_or_default;
pub use payload::fixed_payload;
pub use payload::payload_bytes;
pub use stream::Endpoint;
pub use stream::NetEvent;
pub use stream::StreamOutcome;
pub use stream::UdpStack;
pub use stream::streamer_trace;
pub use stream::udp_streamer;
