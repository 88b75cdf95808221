use vstd::prelude::*;

verus! {

/// Selects the temperature-oversampling setting.
pub const OST_SEL: u16 = 1;

/// Selects the pressure-oversampling setting.
pub const OSP_SEL: u16 = 2;

/// Selects the humidity-oversampling setting.
pub const OSH_SEL: u16 = 4;

/// Selects the gas-measurement setting.
pub const GAS_MEAS_SEL: u16 = 8;

/// Selects the filter setting.
pub const FILTER_SEL: u16 = 16;

/// Selects the humidity-control setting.
pub const HCNTRL_SEL: u16 = 32;

/// Selects the run-gas setting.
pub const RUN_GAS_SEL: u16 = 64;

/// Selects the heater-profile (nb conversion) index setting.
pub const NBCONV_SEL: u16 = 128;

/// Selects all gas-sensor related settings at once: the union of the
/// gas-measurement, run-gas, and conversion-index flags, offered as a
/// convenience, not a bit of its own.
pub const GAS_SENSOR_SEL: u16 = GAS_MEAS_SEL | RUN_GAS_SEL | NBCONV_SEL;

/// The set of settings a caller asked to change, one flag bit per
/// independently selectable setting. It records intent separately from the
/// setting values themselves: a value equal to its default is otherwise
/// indistinguishable from one never set.
#[derive(Clone, Copy, Debug, PartialEq, Eq, Structural)]
pub struct DesiredSensorSettings {
    /// The raw flag bits.
    pub bits: u16,
}

impl DesiredSensorSettings {
    /// A mask with no setting selected.
    pub fn empty() -> (r: DesiredSensorSettings)
        ensures
            r.bits == 0,
    {
        DesiredSensorSettings { bits: 0 }
    }

    /// The raw flag bits of this mask.
    pub fn bits(&self) -> (r: u16)
        ensures
            r == self.bits,
    {
        self.bits
    }

    /// Whether every flag of `flags` is selected in this mask.
    pub fn contains(&self, flags: u16) -> (r: bool)
        ensures
            r == (self.bits & flags == flags),
    {
        self.bits & flags == flags
    }

    /// Whether at least one flag of `flags` is selected in this mask.
    pub fn intersects(&self, flags: u16) -> (r: bool)
        ensures
            r == (self.bits & flags != 0),
    {
        self.bits & flags != 0
    }

    /// Selects every flag of `flags`, keeping the flags already selected:
    /// a union, so selecting a flag twice is the same as selecting it once.
    pub fn insert(&mut self, flags: u16)
        ensures
            final(self).bits == old(self).bits | flags,
    {
        self.bits = self.bits | flags;
    }
}

impl Default for DesiredSensorSettings {
    /// An empty mask.
    fn default() -> (r: DesiredSensorSettings)
        ensures
            r.bits == 0,
    {
        DesiredSensorSettings { bits: 0 }
    }
}

/// The composite gas-sensor flag is exactly the union of the gas-measurement,
/// run-gas, and conversion-index flags; it shares their bits rather than
/// occupying one of its own, so each of the three alone satisfies it only
/// partially.
pub proof fn lemma_gas_sensor_sel_composite()
    ensures
        GAS_SENSOR_SEL == (GAS_MEAS_SEL | RUN_GAS_SEL | NBCONV_SEL),
        RUN_GAS_SEL & GAS_SENSOR_SEL != 0,
        RUN_GAS_SEL & GAS_SENSOR_SEL != GAS_SENSOR_SEL,
{
    assert(64u16 & (8u16 | 64u16 | 128u16) != 0) by (bit_vector);
    assert(64u16 & (8u16 | 64u16 | 128u16) != (8u16 | 64u16 | 128u16)) by (bit_vector);
}

} // verus!
