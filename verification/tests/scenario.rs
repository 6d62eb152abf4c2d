use logitech_led_sdk::ColorPercent;
use logitech_led_sdk::DeviceType;
use logitech_led_sdk::KeyName;
use logitech_led_sdk::Request;
use logitech_led_sdk::Sdk;
use logitech_led_sdk::SdkLock;
use logitech_led_sdk::TargetDevice;

/// The full session walk-through: open an unnamed session, target every
/// device class, light everything red, stop the effects, release, and
/// reopen under a name.
#[test]
fn open_target_light_stop_release_reopen() {
    let mut lock = SdkLock::new();

    let sdk = Sdk::new(&mut lock, || true).unwrap();

    let target = sdk.set_target(TargetDevice::all());
    assert_eq!(target, Request::SetTargetDevice { target: 0x7 });

    let lighting = sdk.set_lighting(ColorPercent::new_rgb(255, 0, 0));
    assert_eq!(lighting, Request::SetLighting { r: 100, g: 0, b: 0 });

    assert_eq!(sdk.stop_effects(), Request::StopEffects);

    sdk.release(&mut lock, || true);

    let named = Sdk::new_with_name(&mut lock, "Test", || true);
    assert!(named.is_ok());
}

/// A model-level pass over the original binding's smoke sequence: every
/// operation of the surface, driven through one session.
#[test]
fn full_surface_walkthrough() {
    let mut lock = SdkLock::new();

    // First open and release.
    let sdk = Sdk::new(&mut lock, || true).unwrap();
    sdk.release(&mut lock, || true);

    // Second, named, open.
    let sdk = Sdk::new_with_name(&mut lock, "Test", || true).unwrap();
    assert!(sdk.get_version(Some((9, 0, 0))).is_some());
    assert_eq!(sdk.set_target(TargetDevice::all()), Request::SetTargetDevice { target: 0x7 });
    assert_eq!(
        sdk.set_lighting(ColorPercent::new_rgb(255, 255, 255)),
        Request::SetLighting { r: 100, g: 100, b: 100 }
    );
    assert_eq!(
        sdk.set_lighting_for_key_with_name(KeyName::L, ColorPercent::new_rgb(0, 255, 255)),
        Request::SetLightingForKeyWithKeyName { key: KeyName::L, r: 0, g: 100, b: 100 }
    );
    assert_eq!(
        sdk.set_lighting_for_target_zone(DeviceType::Mouse, 1, ColorPercent::new_rgb(255, 0, 0)),
        Request::SetLightingForTargetZone { device: DeviceType::Mouse, zone: 1, r: 100, g: 0, b: 0 }
    );
    let flash = sdk
        .flash_lighting(ColorPercent::new_rgb(255, 0, 0), Some(10_000), 100)
        .unwrap();
    assert_eq!(flash, Request::FlashLighting { r: 100, g: 0, b: 0, duration: 10_000, interval: 100 });
    assert_eq!(sdk.stop_effects(), Request::StopEffects);
    let pulse = sdk
        .pulse_lighting(ColorPercent::new_rgb(255, 0, 0), Some(10_000), 100)
        .unwrap();
    assert_eq!(pulse, Request::PulseLighting { r: 100, g: 0, b: 0, duration: 10_000, interval: 100 });
    assert_eq!(sdk.stop_effects(), Request::StopEffects);
    assert!(matches!(
        sdk.set_lighting_for_key_with_scan_code(16, ColorPercent::new_rgb(255, 255, 255)),
        Request::SetLightingForKeyWithScanCode { scan_code: 16, .. }
    ));
    assert!(matches!(
        sdk.set_lighting_for_key_with_hid_code(26, ColorPercent::new_rgb(255, 255, 255)),
        Request::SetLightingForKeyWithHidCode { hid_code: 26, .. }
    ));
    assert_eq!(
        sdk.save_lighting_for_key(KeyName::L),
        Request::SaveLightingForKey { key: KeyName::L }
    );
    assert_eq!(
        sdk.restore_lighting_for_key(KeyName::L),
        Request::RestoreLightingForKey { key: KeyName::L }
    );
    let flash_key = sdk
        .flash_single_key(KeyName::L, ColorPercent::new_rgb(255, 0, 0), Some(10_000), 100)
        .unwrap();
    assert!(matches!(flash_key, Request::FlashSingleKey { key: KeyName::L, .. }));
    let pulse_key = sdk
        .pulse_single_key(
            KeyName::L,
            ColorPercent::new_rgb(255, 0, 0),
            ColorPercent::new_rgb(255, 255, 0),
            10_000,
            true,
        )
        .unwrap();
    assert!(matches!(pulse_key, Request::PulseSingleKey { key: KeyName::L, is_infinite: true, .. }));
    assert_eq!(
        sdk.stop_effects_on_key(KeyName::L),
        Request::StopEffectsOnKey { key: KeyName::L }
    );
    sdk.release(&mut lock, || true);
}

/// A model-level pass over the original binding's zone sample: spell a word
/// on the keyboard, then color zones across mouse, keyboard and headset.
#[test]
fn target_zone_sample_sequence() {
    let mut lock = SdkLock::new();
    let sdk = Sdk::new_with_name(&mut lock, "Test", || true).unwrap();
    assert_eq!(sdk.set_target(TargetDevice::all()), Request::SetTargetDevice { target: 0x7 });

    let cyan = ColorPercent::new_rgb(0, 255, 255);
    for key in [KeyName::L, KeyName::O, KeyName::G, KeyName::I] {
        assert_eq!(
            sdk.set_lighting_for_key_with_name(key, cyan),
            Request::SetLightingForKeyWithKeyName { key, r: 0, g: 100, b: 100 }
        );
    }

    let zones = [
        (DeviceType::Mouse, 1, ColorPercent::new_rgb(255, 0, 0)),
        (DeviceType::Keyboard, 1, ColorPercent::new_rgb(255, 0, 0)),
        (DeviceType::Keyboard, 2, ColorPercent::new_rgb(255, 255, 0)),
        (DeviceType::Keyboard, 3, ColorPercent::new_rgb(0, 255, 0)),
        (DeviceType::Keyboard, 4, ColorPercent::new_rgb(0, 255, 255)),
        (DeviceType::Keyboard, 5, ColorPercent::new_rgb(0, 0, 255)),
        (DeviceType::Headset, 0, ColorPercent::new_rgb(255, 255, 255)),
        (DeviceType::Headset, 1, ColorPercent::new_rgb(255, 0, 255)),
    ];
    for (device, zone, color) in zones {
        assert_eq!(
            sdk.set_lighting_for_target_zone(device, zone, color),
            Request::SetLightingForTargetZone {
                device,
                zone,
                r: color.r,
                g: color.g,
                b: color.b
            }
        );
    }
    sdk.release(&mut lock, || true);
}
