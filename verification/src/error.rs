//! Errors of the negotiation layer.

use vstd::prelude::*;

verus! {

/// Why device negotiation failed.
///
/// Classification and selection errors are fatal for initialization: the
/// engine has no degraded-mode fallback, so every variant surfaces to the
/// caller as an initialization failure.
#[derive(Clone, Copy, Debug, PartialEq, Eq, Structural)]
pub enum EngineError {
    /// A queue family's capability flags match none of the classification
    /// rules; the rule set does not cover the encountered hardware.
    UnclassifiableFamily,
    /// A surface-support query against the driver failed while a family was
    /// being classified. Query failure is treated as fatal rather than as
    /// "no support", so that driver or environment problems are not masked.
    SurfaceQuery,
    /// No accelerator survived all selection filters.
    NoSuitableDevice,
    /// The driver rejected logical-device creation.
    DeviceCreation,
}

impl EngineError {
    /// A short human-readable description, for the caller's error reporting.
    pub fn message(&self) -> (r: String)
        ensures
            self is UnclassifiableFamily ==> r@ == "failed to find queue family type within current range of filters"@,
            self is SurfaceQuery ==> r@ == "failed to get queue family surface support"@,
            self is NoSuitableDevice ==> r@ == "failed to find suitable physical device"@,
            self is DeviceCreation ==> r@ == "failed to create device"@,
    {
        match self {
            EngineError::UnclassifiableFamily => {
                String::from_str("failed to find queue family type within current range of filters")
            },
            EngineError::SurfaceQuery => String::from_str("failed to get queue family surface support"),
            EngineError::NoSuitableDevice => String::from_str("failed to find suitable physical device"),
            EngineError::DeviceCreation => String::from_str("failed to create device"),
        }
    }
}

} // verus!
