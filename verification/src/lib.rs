//! Configuration model for an environmental sensing device.
//!
//! A device measuring temperature, humidity, pressure, and gas resistance
//! exposes many independently settable parameters. Writing every control
//! register on each configuration change would disturb settings the caller
//! never meant to touch, so this crate keeps a sparse, partially specified
//! update together with a mask that records exactly which settings were
//! requested. A register-writing layer consumes the pair and touches only
//! the registers whose mask bit is set.

pub mod builder;
pub mod mask;
pub mod oversampling;
pub mod settings;

pub use builder::Settings;
pub use builder::SettingsBuilder;
pub use mask::DesiredSensorSettings;
pub use oversampling::OversamplingSetting;
pub use settings::GasSett;
pub use settings::SensorSettings;
pub use settings::TphSett;
