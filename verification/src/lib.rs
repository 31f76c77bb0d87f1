//! Register model and driver decisions for the Texas Instruments TPS546D24A
//! stackable PMBus buck converter.
//!
//! Every configuration and status register is decoded from its raw bus
//! value into typed fields and encoded back, with the bit layout stated in
//! the contracts and the round trips proved.

pub mod bits;
pub mod device;
pub mod registers;

pub use device::{
    fit_block, slave_address_bits, word_or_zero, DriverState, DriverStateView, VoutFormat,
    DEFAULT_ADDR, DEFAULT_VOUT_EXPONENT,
};
pub use registers::{
    AdcResolution, CompensationConfig, MarginMode, MiscOptions, OnOffConfig, Operation,
    OperationView, PhaseCount, PinDetectOverride, PinDetectOverrideView, PowerStageConfig,
    ReadAll, SimulateFaults, StackConfig, StatusAll, StatusPhase, SyncConfig, SyncDirection,
    TelemetryChannel, TelemetryConfig, TelemetryPriority, Vdd5Voltage,
};
