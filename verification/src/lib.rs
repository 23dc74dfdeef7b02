//! Verified core of a binding layer for the sigrok signal-acquisition library.
//!
//! Everything here works on plain values: status codes, packet fields, byte
//! buffers and variant trees. The caller performs the native calls and hands
//! their results to the functions of this crate, which decide what they mean:
//!
//! - [`error`] gives native status codes their meaning;
//! - [`packet`] turns the packets of the acquisition stream into the events
//!   of [`data`];
//! - [`session`] lists the native calls of each session operation and judges
//!   their outcomes, and [`watcher`] decides how a cancellable run ends;
//! - [`config`] encodes and decodes configuration values and reads the
//!   options that a device lists, over the variant trees of [`variant`];
//! - [`driver`], [`device`] and [`trigger`] describe what the native library
//!   reports and what is asked of it.
pub mod config;
pub mod data;
pub mod device;
pub mod driver;
pub mod enums;
pub mod error;
pub mod log;
pub mod packet;
pub mod rational;
pub mod session;
pub mod trigger;
pub mod util;
pub mod variant;
pub mod watcher;

pub use driver::{Driver, DriverContext, Sigrok};
pub use enums::{Function, TriggerType, Unit};
pub use error::SigrokError;
pub use session::{quit_loop, Session};
pub use trigger::{Trigger, Triggers};
