//! Plain-value core of a default-camera capture binding: captured frames and
//! their pixel views, the choice of the default device, and the rule that ends
//! a wait for a capture-engine event.
//!
//! Everything that talks to the operating system's capture engine lives with
//! the program around this library; it hands the values below in and out.

mod device;
mod event;
mod frame;

pub use device::default_device_index;
pub use event::{ends_wait, CaptureEngineEvent};
pub use frame::{le_word, unpack_frame_size, words_le, Frame, FrameData};
