use logitech_led_sdk::ColorPercent;
use logitech_led_sdk::KeyName;
use logitech_led_sdk::LedError;
use logitech_led_sdk::Request;
use logitech_led_sdk::Sdk;
use logitech_led_sdk::SdkLock;
use logitech_led_sdk::TargetDevice;
use logitech_led_sdk::LOGI_LED_DURATION_INFINITE;

fn open_session(lock: &mut SdkLock) -> Sdk {
    Sdk::new(lock, || true).unwrap()
}

#[test]
fn flash_carries_duration_and_interval() {
    let mut lock = SdkLock::new();
    let sdk = open_session(&mut lock);
    let color = ColorPercent::new_rgb(255, 0, 0);
    let req = sdk.flash_lighting(color, Some(10_000), 100).unwrap();
    assert_eq!(
        req,
        Request::FlashLighting { r: 100, g: 0, b: 0, duration: 10_000, interval: 100 }
    );
}

#[test]
fn omitted_duration_maps_to_infinite_sentinel() {
    let mut lock = SdkLock::new();
    let sdk = open_session(&mut lock);
    let color = ColorPercent::new_percent(1, 2, 3).unwrap();
    let req = sdk.flash_lighting(color, None, 50).unwrap();
    assert_eq!(
        req,
        Request::FlashLighting {
            r: 1,
            g: 2,
            b: 3,
            duration: LOGI_LED_DURATION_INFINITE,
            interval: 50
        }
    );
}

#[test]
fn finite_duration_colliding_with_sentinel_fails() {
    let mut lock = SdkLock::new();
    let sdk = open_session(&mut lock);
    let color = ColorPercent::new_rgb(0, 255, 0);
    // A literal zero-millisecond request converts to exactly the infinite
    // sentinel and must be rejected, not silently run forever.
    let collision = LOGI_LED_DURATION_INFINITE as u128;
    let res = sdk.flash_lighting(color, Some(collision), 100);
    assert_eq!(res.unwrap_err(), LedError::OutOfRange);
    let res = sdk.pulse_lighting(color, Some(collision), 100);
    assert_eq!(res.unwrap_err(), LedError::OutOfRange);
    let res = sdk.flash_single_key(KeyName::L, color, Some(collision), 100);
    assert_eq!(res.unwrap_err(), LedError::OutOfRange);
    let res = sdk.pulse_single_key(KeyName::L, color, color, collision, false);
    assert_eq!(res.unwrap_err(), LedError::OutOfRange);
}

#[test]
fn oversized_duration_fails_rather_than_wrapping() {
    let mut lock = SdkLock::new();
    let sdk = open_session(&mut lock);
    let color = ColorPercent::new_rgb(0, 0, 255);
    let too_big = i32::MAX as u128 + 1;
    assert_eq!(
        sdk.flash_lighting(color, Some(too_big), 100).unwrap_err(),
        LedError::OutOfRange
    );
    assert_eq!(
        sdk.pulse_lighting(color, Some(too_big), 100).unwrap_err(),
        LedError::OutOfRange
    );
    assert_eq!(
        sdk.pulse_single_key(KeyName::L, color, color, too_big, false).unwrap_err(),
        LedError::OutOfRange
    );
    // The largest representable count still goes through.
    let ok = sdk.pulse_single_key(KeyName::L, color, color, i32::MAX as u128, false);
    assert!(ok.is_ok());
}

#[test]
fn oversized_interval_fails_rather_than_wrapping() {
    let mut lock = SdkLock::new();
    let sdk = open_session(&mut lock);
    let color = ColorPercent::new_rgb(255, 255, 0);
    let too_big = i32::MAX as u128 + 1;
    assert_eq!(
        sdk.flash_lighting(color, Some(1000), too_big).unwrap_err(),
        LedError::OutOfRange
    );
    assert_eq!(
        sdk.pulse_lighting(color, None, too_big).unwrap_err(),
        LedError::OutOfRange
    );
}

#[test]
fn pulse_single_key_keeps_both_colors_and_flag() {
    let mut lock = SdkLock::new();
    let sdk = open_session(&mut lock);
    let start = ColorPercent::new_rgb(255, 0, 0);
    let end = ColorPercent::new_rgb(255, 255, 0);
    let req = sdk.pulse_single_key(KeyName::L, start, end, 10_000, true).unwrap();
    assert_eq!(
        req,
        Request::PulseSingleKey {
            key: KeyName::L,
            start_r: 100,
            start_g: 0,
            start_b: 0,
            end_r: 100,
            end_g: 100,
            end_b: 0,
            duration: 10_000,
            is_infinite: true
        }
    );
    // The required duration of a single-key pulse has no omitted form, but
    // the sentinel-collision rule still applies: a count equal to the
    // sentinel is ambiguous and rejected.
    let zero = sdk.pulse_single_key(KeyName::L, start, end, 0, true);
    assert_eq!(zero.unwrap_err(), LedError::OutOfRange);
}

#[test]
fn stop_save_and_restore_requests() {
    let mut lock = SdkLock::new();
    let sdk = open_session(&mut lock);
    assert_eq!(sdk.stop_effects(), Request::StopEffects);
    assert_eq!(
        sdk.stop_effects_on_key(KeyName::L),
        Request::StopEffectsOnKey { key: KeyName::L }
    );
    assert_eq!(
        sdk.save_lighting_for_key(KeyName::L),
        Request::SaveLightingForKey { key: KeyName::L }
    );
    assert_eq!(
        sdk.restore_lighting_for_key(KeyName::L),
        Request::RestoreLightingForKey { key: KeyName::L }
    );
}

#[test]
fn version_conversion_passes_failure_through() {
    let mut lock = SdkLock::new();
    let sdk = open_session(&mut lock);
    assert_eq!(sdk.get_version(None), None);
    assert_eq!(sdk.get_version(Some((9, 0, 42))), Some((9, 0, 42)));
}

#[test]
fn set_target_all_equals_combined_classes() {
    let mut lock = SdkLock::new();
    let sdk = open_session(&mut lock);
    let combined = TargetDevice::monochrome()
        .union(TargetDevice::per_key_rgb())
        .union(TargetDevice::rgb());
    assert_eq!(sdk.set_target(combined), sdk.set_target(TargetDevice::all()));
    assert_eq!(sdk.set_target(combined.union(TargetDevice::all())), sdk.set_target(TargetDevice::all()));
}
