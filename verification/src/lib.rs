//! Core logic for grabbing a single non-blank frame from a video capture
//! device: the pixel-layout model, the blank-frame predicate, raw-capture
//! decoding, the acquisition loop over a scripted device, and regex-based
//! device-name matching.

mod acquire;
mod capture;
mod errors;
mod frame;
mod matcher;

pub use acquire::ReadOutcome;
pub use acquire::ReadOutcomeView;
pub use acquire::ScanResult;
pub use acquire::SimulatedDevice;
pub use acquire::acquire;
pub use acquire::lemma_blank_outcome_continues;
pub use acquire::lemma_nonblank_outcome_stops;
pub use acquire::lemma_read_failure_propagates;
pub use acquire::lemma_scan_advances;
pub use acquire::lemma_warmup_then_acquired;
pub use acquire::outcome_blank_ok;
pub use acquire::outcome_frame;
pub use acquire::outcome_nonblank_ok;
pub use acquire::scan;
pub use acquire::scan_from;
pub use capture::ClipboardImage;
pub use capture::ClipboardImageView;
pub use capture::RawCapture;
pub use capture::RawCaptureView;
pub use capture::decode;
pub use capture::decode_ok;
pub use capture::decoded_view;
pub use capture::lemma_decode_to_sink_round_trip;
pub use capture::payload_of;
pub use capture::to_clipboard_image;
pub use errors::AcquisitionError;
pub use errors::ConfigError;
pub use frame::Frame;
pub use frame::FrameView;
pub use frame::PixelLayout;
pub use frame::all_inspected_zero;
pub use frame::byte_inspected;
pub use matcher::DeviceMatcher;
pub use matcher::regex_patterns_ok;
pub use matcher::regex_set_match;
pub use matcher::regex_set_patterns;
