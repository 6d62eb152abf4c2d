use vstd::prelude::*;

verus! {

/// Flag for monochrome-lighting devices, as the vendor interface defines it.
pub const LOGI_DEVICETYPE_MONOCHROME: u32 = 0x1;

/// Flag for full-RGB devices, as the vendor interface defines it.
pub const LOGI_DEVICETYPE_RGB: u32 = 0x2;

/// Flag for per-key RGB devices, as the vendor interface defines it.
pub const LOGI_DEVICETYPE_PERKEY_RGB: u32 = 0x4;

/// Flag selecting every device class at once, as the vendor interface
/// defines it: the union of the three individual class flags.
pub const LOGI_DEVICETYPE_ALL: u32 = 0x7;

/// Select target devices by color type.
///
/// This is a bitset over the vendor's device-class flags, so several classes
/// may be selected at once. The numeric encoding round-trips bit-for-bit
/// across the foreign boundary.
#[derive(Debug, Clone, Copy, PartialEq, Eq, Hash, Structural)]
pub struct TargetDevice {
    bits: u32,
}

impl View for TargetDevice {
    type V = u32;

    closed spec fn view(&self) -> u32 {
        self.bits
    }
}

impl TargetDevice {
    /// The empty selection: no device class.
    pub fn empty() -> (res: Self)
        ensures
            res@ == 0u32,
    {
        Self { bits: 0 }
    }

    /// Selects monochrome-lighting devices.
    pub fn monochrome() -> (res: Self)
        ensures
            res@ == LOGI_DEVICETYPE_MONOCHROME,
    {
        Self { bits: LOGI_DEVICETYPE_MONOCHROME }
    }

    /// Selects full-RGB devices.
    pub fn rgb() -> (res: Self)
        ensures
            res@ == LOGI_DEVICETYPE_RGB,
    {
        Self { bits: LOGI_DEVICETYPE_RGB }
    }

    /// Selects per-key RGB devices.
    pub fn per_key_rgb() -> (res: Self)
        ensures
            res@ == LOGI_DEVICETYPE_PERKEY_RGB,
    {
        Self { bits: LOGI_DEVICETYPE_PERKEY_RGB }
    }

    /// Selects every device class.
    pub fn all() -> (res: Self)
        ensures
            res@ == LOGI_DEVICETYPE_ALL,
    {
        Self { bits: LOGI_DEVICETYPE_ALL }
    }

    /// The raw flag value handed to the foreign interface.
    pub fn bits(&self) -> (res: u32)
        ensures
            res == self@,
    {
        self.bits
    }

    /// The union of two selections: every class selected by either side.
    pub fn union(self, other: Self) -> (res: Self)
        ensures
            res@ == self@ | other@,
    {
        Self { bits: self.bits | other.bits }
    }

    /// The intersection of two selections: the classes selected by both sides.
    pub fn intersection(self, other: Self) -> (res: Self)
        ensures
            res@ == self@ & other@,
    {
        Self { bits: self.bits & other.bits }
    }

    /// Whether every class selected by `other` is also selected by `self`.
    pub fn contains(self, other: Self) -> (res: bool)
        ensures
            res <==> self@ & other@ == other@,
    {
        self.bits & other.bits == other.bits
    }
}

/// Combining selections is commutative: the order of a union never matters.
pub proof fn lemma_union_commutative(a: TargetDevice, b: TargetDevice)
    ensures
        a@ | b@ == b@ | a@,
{
    let (x, y) = (a@, b@);
    assert(x | y == y | x) by (bit_vector);
}

/// Combining selections is associative: grouping of unions never matters.
pub proof fn lemma_union_associative(a: TargetDevice, b: TargetDevice, c: TargetDevice)
    ensures
        (a@ | b@) | c@ == a@ | (b@ | c@),
{
    let (x, y, z) = (a@, b@, c@);
    assert((x | y) | z == x | (y | z)) by (bit_vector);
}

/// `all` absorbs every selection drawn from the device-class flags:
/// combining such a selection with `all` selects nothing more. The premise
/// excludes only values carrying bits outside the class flags, which no
/// constructor or operation of this module produces.
pub proof fn lemma_all_absorbs(t: TargetDevice)
    requires
        t@ & LOGI_DEVICETYPE_ALL == t@,
    ensures
        t@ | LOGI_DEVICETYPE_ALL == LOGI_DEVICETYPE_ALL,
{
    let x = t@;
    assert(x & 0x7u32 == x ==> x | 0x7u32 == 0x7u32) by (bit_vector);
}

/// The combined `all` flag equals the union of the three device-class flags.
pub proof fn lemma_all_covers_classes()
    ensures
        LOGI_DEVICETYPE_ALL == LOGI_DEVICETYPE_MONOCHROME | LOGI_DEVICETYPE_RGB
            | LOGI_DEVICETYPE_PERKEY_RGB,
{
    assert(0x7u32 == 0x1u32 | 0x2u32 | 0x4u32) by (bit_vector);
}

} // verus!
