//! Control of a network speaker: input mapping, the device's settings
//! protocol, discovery of the device, and the serialized command loop.

pub mod controller;
pub mod discovery;
pub mod input;
pub mod json;
pub mod protocol;
pub mod status;

pub use controller::{Action, Event, SpeakerCommand, SpeakerController, Write};
pub use discovery::{Advertisement, HostAddress, ScanEvent, SpeakerInfo};
pub use input::InputSource;
pub use protocol::{DeviceError, HttpRequest};
pub use status::{PowerState, SpeakerStatus};
