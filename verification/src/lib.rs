//! USB protocol engine for an Xbox 360 wireless-receiver device personality.
//!
//! The crate covers the byte-exact parts of the protocol: packing a gamepad
//! snapshot into its 12-byte wire frame, classifying host-to-device transfers,
//! building the vendor class descriptors, the pairing state machine, and the
//! single-slot frame/rumble channel shared with an input producer.

pub mod channel;
pub mod codec;
pub mod descriptor;
pub mod engine;
pub mod messages;
pub mod out_data;
pub mod serial;

pub use channel::State;
pub use codec::ControllerData;
pub use codec::XboxGamepad;
pub use engine::EngineEvent;
pub use engine::EngineOutput;
pub use engine::IdleDeadline;
pub use engine::PairingState;
pub use engine::XInput;
pub use messages::InMessage;
pub use out_data::OutData;
pub use serial::SerialNumberHandler;
