use crate::color_percent::ColorPercent;
use crate::error::LedError;
use crate::keys::DeviceType;
use crate::keys::KeyName;
use crate::request::Request;
use crate::target_device::TargetDevice;
use crate::timing::duration_millis;
use crate::timing::interval_millis;
use crate::timing::spec_duration_millis;
use crate::timing::spec_interval_millis;
use vstd::prelude::*;
use vstd::string::StringSliceAdditionalSpecFns;

verus! {

/// The process-wide exclusivity over the foreign lighting subsystem.
///
/// The subsystem is a single shared singleton that is not documented as
/// thread-safe, so at most one initialized session may talk to it at a
/// time. A value of this type is the explicit acquire/release state of that
/// exclusivity; the embedding program keeps exactly one, protected by any
/// mutual-exclusion primitive with a try-acquire operation.
pub struct SdkLock {
    held: bool,
}

impl SdkLock {
    /// Whether a session currently holds the exclusivity.
    pub closed spec fn is_held(&self) -> bool {
        self.held
    }

    /// A fresh, unheld exclusivity state.
    pub fn new() -> (res: Self)
        ensures
            !res.is_held(),
    {
        SdkLock { held: false }
    }

    /// A non-blocking acquisition attempt: succeeds exactly when no session
    /// holds the exclusivity, and never waits. Kept inside the crate so that
    /// the only way to move the exclusivity is through a session's open and
    /// release.
    pub(crate) fn try_acquire(&mut self) -> (acquired: bool)
        ensures
            acquired == !old(self).is_held(),
            final(self).is_held(),
    {
        if self.held {
            false
        } else {
            self.held = true;
            true
        }
    }

    /// Relinquishes the exclusivity unconditionally, so the process can
    /// never lock itself out of reinitializing. Kept inside the crate for
    /// the same reason as `try_acquire`.
    pub(crate) fn release(&mut self)
        ensures
            !final(self).is_held(),
    {
        self.held = false;
    }
}

/// A name is representable as the null-terminated string the foreign
/// interface expects exactly when none of its bytes is a null byte.
pub open spec fn spec_name_ok(name: &str) -> bool {
    forall|i: int| 0 <= i < name.spec_bytes().len() ==> name.spec_bytes()[i] != 0
}

/// Checks that a name holds no embedded null byte, so it can be handed to
/// the foreign interface as a null-terminated string without truncation.
pub fn name_ok(name: &str) -> (res: bool)
    ensures
        res == spec_name_ok(name),
{
    let bytes = name.as_bytes();
    let mut i: usize = 0;
    while i < bytes.len()
        invariant
            i <= bytes@.len(),
            bytes@ == name.spec_bytes(),
            forall|j: int| 0 <= j < i ==> bytes@[j] != 0,
        decreases bytes@.len() - i,
    {
        if bytes[i] == 0 {
            return false;
        }
        i += 1;
    }
    true
}

/// Entry to the lighting subsystem.
///
/// A value of this type is a capability: proof that the foreign subsystem
/// was initialized under the process-wide exclusivity, and the only way to
/// form lighting requests. At most one lives at a time, because
/// construction demands the exclusivity and release gives it back.
#[derive(Debug)]
pub struct Sdk {
    _private: (),
}

impl Sdk {
    /// Opens an unnamed session.
    ///
    /// Acquires the process-wide exclusivity without ever blocking — when a
    /// session is already live the attempt fails immediately with
    /// `AlreadyOpen` and the exclusivity stays with that session. Only then
    /// is the foreign initialization step `init` run; when it reports
    /// failure the exclusivity is released again before `InitFailed` is
    /// returned.
    pub fn new<F: FnOnce() -> bool>(lock: &mut SdkLock, init: F) -> (res: Result<Sdk, LedError>)
        requires
            call_requires(init, ()),
        ensures
            old(lock).is_held() ==> res == Err::<Sdk, LedError>(LedError::AlreadyOpen)
                && final(lock).is_held(),
            !old(lock).is_held() ==> match res {
                Ok(_) => final(lock).is_held() && call_ensures(init, (), true),
                Err(e) => e == LedError::InitFailed && !final(lock).is_held() && call_ensures(
                    init,
                    (),
                    false,
                ),
            },
    {
        if !lock.try_acquire() {
            return Err(LedError::AlreadyOpen);
        }
        let ok = init();
        if !ok {
            lock.release();
            return Err(LedError::InitFailed);
        }
        Ok(Sdk { _private: () })
    }

    /// Opens a session under an application name.
    ///
    /// A name with an embedded null byte cannot cross the foreign boundary
    /// and is rejected up front with `InvalidName`, before the exclusivity
    /// is touched. Otherwise the open proceeds exactly as `new` does, with
    /// `init` standing for the named foreign initialization step.
    pub fn new_with_name<F: FnOnce() -> bool>(
        lock: &mut SdkLock,
        name: &str,
        init: F,
    ) -> (res: Result<Sdk, LedError>)
        requires
            call_requires(init, ()),
        ensures
            !spec_name_ok(name) ==> res == Err::<Sdk, LedError>(LedError::InvalidName)
                && *final(lock) == *old(lock),
            spec_name_ok(name) && old(lock).is_held() ==> res == Err::<Sdk, LedError>(
                LedError::AlreadyOpen,
            ) && final(lock).is_held(),
            spec_name_ok(name) && !old(lock).is_held() ==> match res {
                Ok(_) => final(lock).is_held() && call_ensures(init, (), true),
                Err(e) => e == LedError::InitFailed && !final(lock).is_held() && call_ensures(
                    init,
                    (),
                    false,
                ),
            },
    {
        if !name_ok(name) {
            return Err(LedError::InvalidName);
        }
        Sdk::new(lock, init)
    }

    /// Releases the session: runs the foreign shutdown step, then — whatever
    /// that step reported — relinquishes the process-wide exclusivity, so a
    /// later open can succeed. Consuming `self` makes this the last act of a
    /// session, so the shutdown step fires exactly once per successful open.
    pub fn release<F: FnOnce() -> bool>(self, lock: &mut SdkLock, shutdown: F)
        requires
            call_requires(shutdown, ()),
        ensures
            !final(lock).is_held(),
            exists|r: bool| call_ensures(shutdown, (), r),
    {
        let _ok = shutdown();
        lock.release();
    }

    /// Converts the raw version triple reported by the foreign get-version
    /// call, or passes a failed call through as `None`.
    pub fn get_version(&self, raw: Option<(i32, i32, i32)>) -> (res: Option<(u32, u32, u32)>)
        ensures
            match raw {
                None => res is None,
                Some(v) => res == Some((v.0 as u32, v.1 as u32, v.2 as u32)),
            },
    {
        match raw {
            None => None,
            Some((major, minor, build)) => Some(
                (
                    #[verifier::truncate] (major as u32),
                    #[verifier::truncate] (minor as u32),
                    #[verifier::truncate] (build as u32),
                ),
            ),
        }
    }

    /// Selects the target devices for later lighting requests.
    pub fn set_target(&self, target_device: TargetDevice) -> (res: Request)
        ensures
            res == (Request::SetTargetDevice { target: target_device@ }),
    {
        Request::SetTargetDevice { target: target_device.bits() }
    }

    /// Sets the global lighting color.
    pub fn set_lighting(&self, color: ColorPercent) -> (res: Request)
        ensures
            res == (Request::SetLighting { r: color.r, g: color.g, b: color.b }),
    {
        Request::SetLighting { r: color.r, g: color.g, b: color.b }
    }

    /// Sets the lighting for a keyboard key by key name.
    pub fn set_lighting_for_key_with_name(
        &self,
        key: KeyName,
        color: ColorPercent,
    ) -> (res: Request)
        ensures
            res == (Request::SetLightingForKeyWithKeyName {
                key,
                r: color.r,
                g: color.g,
                b: color.b,
            }),
    {
        Request::SetLightingForKeyWithKeyName { key, r: color.r, g: color.g, b: color.b }
    }

    /// Sets the lighting for a keyboard key by scan code.
    pub fn set_lighting_for_key_with_scan_code(
        &self,
        scan_code: u32,
        color: ColorPercent,
    ) -> (res: Request)
        ensures
            res == (Request::SetLightingForKeyWithScanCode {
                scan_code,
                r: color.r,
                g: color.g,
                b: color.b,
            }),
    {
        Request::SetLightingForKeyWithScanCode { scan_code, r: color.r, g: color.g, b: color.b }
    }

    /// Sets the lighting for a keyboard key by HID code.
    pub fn set_lighting_for_key_with_hid_code(
        &self,
        hid_code: u32,
        color: ColorPercent,
    ) -> (res: Request)
        ensures
            res == (Request::SetLightingForKeyWithHidCode {
                hid_code,
                r: color.r,
                g: color.g,
                b: color.b,
            }),
    {
        Request::SetLightingForKeyWithHidCode { hid_code, r: color.r, g: color.g, b: color.b }
    }

    /// Sets the lighting for one zone of a device class. Zone numbering is
    /// device-specific and not validated here.
    pub fn set_lighting_for_target_zone(
        &self,
        device: DeviceType,
        zone: u32,
        color: ColorPercent,
    ) -> (res: Request)
        ensures
            res == (Request::SetLightingForTargetZone {
                device,
                zone,
                r: color.r,
                g: color.g,
                b: color.b,
            }),
    {
        Request::SetLightingForTargetZone { device, zone, r: color.r, g: color.g, b: color.b }
    }

    /// Flashes the global lighting. The optional overall duration maps to
    /// the infinite sentinel when omitted; duration and interval must fit
    /// the foreign call's signed 32-bit millisecond width, and a finite
    /// duration colliding with the sentinel is rejected.
    pub fn flash_lighting(
        &self,
        color: ColorPercent,
        duration_ms: Option<u128>,
        interval_ms: u128,
    ) -> (res: Result<Request, LedError>)
        ensures
            (match (spec_duration_millis(duration_ms), spec_interval_millis(interval_ms)) {
                (Ok(d), Ok(i)) => res == Ok::<Request, LedError>(
                    Request::FlashLighting {
                        r: color.r,
                        g: color.g,
                        b: color.b,
                        duration: d,
                        interval: i,
                    },
                ),
                _ => res == Err::<Request, LedError>(LedError::OutOfRange),
            }),
    {
        let duration = match duration_millis(duration_ms) {
            Ok(v) => v,
            Err(e) => return Err(e),
        };
        let interval = match interval_millis(interval_ms) {
            Ok(v) => v,
            Err(e) => return Err(e),
        };
        Ok(Request::FlashLighting { r: color.r, g: color.g, b: color.b, duration, interval })
    }

    /// Flashes one key, with the same duration and interval rules as
    /// `flash_lighting`.
    pub fn flash_single_key(
        &self,
        key: KeyName,
        color: ColorPercent,
        duration_ms: Option<u128>,
        interval_ms: u128,
    ) -> (res: Result<Request, LedError>)
        ensures
            (match (spec_duration_millis(duration_ms), spec_interval_millis(interval_ms)) {
                (Ok(d), Ok(i)) => res == Ok::<Request, LedError>(
                    Request::FlashSingleKey {
                        key,
                        r: color.r,
                        g: color.g,
                        b: color.b,
                        duration: d,
                        interval: i,
                    },
                ),
                _ => res == Err::<Request, LedError>(LedError::OutOfRange),
            }),
    {
        let duration = match duration_millis(duration_ms) {
            Ok(v) => v,
            Err(e) => return Err(e),
        };
        let interval = match interval_millis(interval_ms) {
            Ok(v) => v,
            Err(e) => return Err(e),
        };
        Ok(
            Request::FlashSingleKey {
                key,
                r: color.r,
                g: color.g,
                b: color.b,
                duration,
                interval,
            },
        )
    }

    /// Pulses the global lighting, with the same duration and interval
    /// rules as `flash_lighting`.
    pub fn pulse_lighting(
        &self,
        color: ColorPercent,
        duration_ms: Option<u128>,
        interval_ms: u128,
    ) -> (res: Result<Request, LedError>)
        ensures
            (match (spec_duration_millis(duration_ms), spec_interval_millis(interval_ms)) {
                (Ok(d), Ok(i)) => res == Ok::<Request, LedError>(
                    Request::PulseLighting {
                        r: color.r,
                        g: color.g,
                        b: color.b,
                        duration: d,
                        interval: i,
                    },
                ),
                _ => res == Err::<Request, LedError>(LedError::OutOfRange),
            }),
    {
        let duration = match duration_millis(duration_ms) {
            Ok(v) => v,
            Err(e) => return Err(e),
        };
        let interval = match interval_millis(interval_ms) {
            Ok(v) => v,
            Err(e) => return Err(e),
        };
        Ok(Request::PulseLighting { r: color.r, g: color.g, b: color.b, duration, interval })
    }

    /// Pulses one key between two colors. The duration is required here —
    /// "run until stopped" is requested through `is_infinite` instead — and
    /// must fit the foreign call's signed 32-bit millisecond width; like
    /// every finite duration, a count that coincides with the infinite
    /// sentinel is ambiguous and rejected.
    pub fn pulse_single_key(
        &self,
        key: KeyName,
        start_color: ColorPercent,
        end_color: ColorPercent,
        duration_ms: u128,
        is_infinite: bool,
    ) -> (res: Result<Request, LedError>)
        ensures
            (match spec_duration_millis(Some(duration_ms)) {
                Ok(d) => res == Ok::<Request, LedError>(
                    Request::PulseSingleKey {
                        key,
                        start_r: start_color.r,
                        start_g: start_color.g,
                        start_b: start_color.b,
                        end_r: end_color.r,
                        end_g: end_color.g,
                        end_b: end_color.b,
                        duration: d,
                        is_infinite,
                    },
                ),
                Err(_) => res == Err::<Request, LedError>(LedError::OutOfRange),
            }),
    {
        let duration = match duration_millis(Some(duration_ms)) {
            Ok(v) => v,
            Err(e) => return Err(e),
        };
        Ok(
            Request::PulseSingleKey {
                key,
                start_r: start_color.r,
                start_g: start_color.g,
                start_b: start_color.b,
                end_r: end_color.r,
                end_g: end_color.g,
                end_b: end_color.b,
                duration,
                is_infinite,
            },
        )
    }

    /// Stops all running effects.
    pub fn stop_effects(&self) -> (res: Request)
        ensures
            res == Request::StopEffects,
    {
        Request::StopEffects
    }

    /// Stops all running effects on one key.
    pub fn stop_effects_on_key(&self, key: KeyName) -> (res: Request)
        ensures
            res == (Request::StopEffectsOnKey { key }),
    {
        Request::StopEffectsOnKey { key }
    }

    /// Saves the current lighting configuration of one key.
    pub fn save_lighting_for_key(&self, key: KeyName) -> (res: Request)
        ensures
            res == (Request::SaveLightingForKey { key }),
    {
        Request::SaveLightingForKey { key }
    }

    /// Restores the saved lighting configuration of one key.
    pub fn restore_lighting_for_key(&self, key: KeyName) -> (res: Request)
        ensures
            res == (Request::RestoreLightingForKey { key }),
    {
        Request::RestoreLightingForKey { key }
    }
}

} // verus!
