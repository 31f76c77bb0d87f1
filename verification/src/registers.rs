//! The TPS546D24A registers, each decoded from and encoded to its raw value.

pub mod config;
pub mod control;
pub mod flags;
pub mod telemetry;

pub use config::{
    AdcResolution, CompensationConfig, MiscOptions, PhaseCount, PinDetectOverride,
    PinDetectOverrideView, PowerStageConfig, StackConfig, SyncConfig, SyncDirection, Vdd5Voltage,
};
pub use flags::{SimulateFaults, StatusPhase};
pub use control::{MarginMode, OnOffConfig, Operation, OperationView};
pub use telemetry::{ReadAll, StatusAll, TelemetryChannel, TelemetryConfig, TelemetryPriority};
