//! Driver adapter for character LCDs attached through a PCF8574 I2C
//! GPIO-expander backpack.
//!
//! The core of the crate is [`Shadow`], an explicit model of the expander's
//! eight output pins, and [`Pcf8574`], the adapter that owns an I2C device
//! handle together with one shadow byte and commits that byte to the bus on
//! demand.

pub mod adapter;
pub mod shadow;

pub use adapter::react;
pub use adapter::ErrorHandling;
pub use adapter::ErrorHook;
pub use adapter::Pcf8574;
pub use shadow::Shadow;

