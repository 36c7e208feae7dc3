//! A camera streaming pipeline: capture, optional transcode, transmit,
//! with reconnection and failure-classification logic.

mod config;
mod frame;
mod stream;
mod transcode;
mod transport;

pub use config::StreamConfig;
pub use config::DEFAULT_FRAMERATE;
pub use config::DEFAULT_INPUT_HEIGHT;
pub use config::DEFAULT_INPUT_WIDTH;
pub use config::DEFAULT_OUTPUT_HEIGHT;
pub use config::DEFAULT_OUTPUT_QUALITY;
pub use config::DEFAULT_OUTPUT_WIDTH;
pub use frame::mjpg_tag;
pub use frame::Frame;
pub use stream::bumped;
pub use stream::capture_transition;
pub use stream::count_connection_lost;
pub use stream::count_reconnects;
pub use stream::is_payload_of;
pub use stream::lemma_reconnect_iff_connection_lost;
pub use stream::state_after_send;
pub use stream::CaptureError;
pub use stream::CaptureOutcome;
pub use stream::FatalError;
pub use stream::LoopState;
pub use stream::SendOutcome;
pub use stream::StreamingLoop;
pub use transcode::decoded_color8;
pub use transcode::decoded_dims;
pub use transcode::decoded_props;
pub use transcode::is_jpeg_stream;
pub use transcode::transcode_frame;
pub use transcode::TranscodeError;
pub use transcode::MAX_DECODE_BYTES;
pub use transcode::MAX_JPEG_DIMENSION;
pub use transport::classify_send_error;
pub use transport::is_connection_lost;
pub use transport::SendFailure;
pub use transport::TransportErrorKind;
