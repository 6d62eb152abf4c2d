//! A safe, verified control surface for a vendor RGB lighting subsystem.
//!
//! The library covers the parts of the binding that carry real logic: the
//! percent/RGB color encodings, the target-device bitset, the key and device
//! code tables, millisecond marshaling for timed effects, and the
//! process-wide session discipline that keeps at most one initialized
//! session talking to the subsystem at a time. The raw foreign calls
//! themselves are left to the embedding program, which drives them with the
//! fully marshaled requests this library produces.

mod color_percent;
mod error;
mod keys;
mod request;
mod sdk;
mod target_device;
mod timing;

pub use crate::color_percent::ColorPercent;
pub use crate::error::LedError;
pub use crate::keys::DeviceType;
pub use crate::keys::KeyName;
pub use crate::request::Request;
pub use crate::sdk::name_ok;
pub use crate::sdk::Sdk;
pub use crate::sdk::SdkLock;
pub use crate::target_device::lemma_all_absorbs;
pub use crate::target_device::lemma_all_covers_classes;
pub use crate::target_device::lemma_union_associative;
pub use crate::target_device::lemma_union_commutative;
pub use crate::timing::duration_millis;
pub use crate::timing::interval_millis;
pub use crate::target_device::TargetDevice;
pub use crate::target_device::LOGI_DEVICETYPE_ALL;
pub use crate::target_device::LOGI_DEVICETYPE_MONOCHROME;
pub use crate::target_device::LOGI_DEVICETYPE_PERKEY_RGB;
pub use crate::target_device::LOGI_DEVICETYPE_RGB;
pub use crate::timing::lemma_omitted_duration_is_infinite;
pub use crate::timing::lemma_sentinel_collision_rejected;
pub use crate::timing::lemma_unrepresentable_duration_rejected;
pub use crate::timing::LOGI_LED_DURATION_INFINITE;
