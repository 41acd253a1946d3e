//! Control of a single 2B electro-stimulation unit: the value model, the
//! line protocol it speaks over its serial link, and the two backends.

pub mod backend;
pub mod command;
pub mod device;
pub mod error;
pub mod state;
pub mod text;
pub mod usb_two_b;
pub mod values;
pub mod virtual_two_b;

pub use backend::{select_backend, Backend};
pub use command::TwoBCommand;
pub use device::TwoB;
pub use error::TwoBError;
pub use state::TwoBState;
pub use usb_two_b::{Link, USBTwoB};
pub use values::{TwoBBias, TwoBChannel, TwoBMap, TwoBMode, TwoBPower, TwoBRamp, TwoBWarp};
pub use virtual_two_b::VirtualTwoB;
