use crate::keys::DeviceType;
use crate::keys::KeyName;
use vstd::prelude::*;

verus! {

/// A fully marshaled lighting request, ready for the foreign boundary.
///
/// Each variant carries exactly the values one vendor entry point consumes:
/// percent color channels as `ColorPercent` holds them, durations and
/// intervals already reduced to signed 32-bit millisecond counts, and
/// device, key and target codes in the vendor's numeric encoding. The
/// embedding program performs each request with a single blocking foreign
/// call and reports back the call's own success indicator.
#[derive(Debug, Clone, Copy, PartialEq, Eq, Structural)]
pub enum Request {
    /// Select which device classes later lighting calls affect.
    SetTargetDevice { target: u32 },
    /// Set the global lighting color, in percent channels.
    SetLighting { r: u8, g: u8, b: u8 },
    /// Set the lighting of one key, identified by key name.
    SetLightingForKeyWithKeyName { key: KeyName, r: u8, g: u8, b: u8 },
    /// Set the lighting of one key, identified by scan code.
    SetLightingForKeyWithScanCode { scan_code: u32, r: u8, g: u8, b: u8 },
    /// Set the lighting of one key, identified by HID code.
    SetLightingForKeyWithHidCode { hid_code: u32, r: u8, g: u8, b: u8 },
    /// Set the lighting of one zone of one device class.
    SetLightingForTargetZone { device: DeviceType, zone: u32, r: u8, g: u8, b: u8 },
    /// Flash the global lighting with the given overall duration and
    /// inter-flash interval, both in milliseconds.
    FlashLighting { r: u8, g: u8, b: u8, duration: i32, interval: i32 },
    /// Flash one key with the given overall duration and inter-flash
    /// interval, both in milliseconds.
    FlashSingleKey { key: KeyName, r: u8, g: u8, b: u8, duration: i32, interval: i32 },
    /// Pulse the global lighting with the given overall duration and
    /// inter-pulse interval, both in milliseconds.
    PulseLighting { r: u8, g: u8, b: u8, duration: i32, interval: i32 },
    /// Pulse one key between two colors over the given duration, optionally
    /// until explicitly stopped.
    PulseSingleKey {
        key: KeyName,
        start_r: u8,
        start_g: u8,
        start_b: u8,
        end_r: u8,
        end_g: u8,
        end_b: u8,
        duration: i32,
        is_infinite: bool,
    },
    /// Stop all running effects.
    StopEffects,
    /// Stop all running effects on one key.
    StopEffectsOnKey { key: KeyName },
    /// Save the current lighting configuration of one key.
    SaveLightingForKey { key: KeyName },
    /// Restore the saved lighting configuration of one key.
    RestoreLightingForKey { key: KeyName },
}

} // verus!
