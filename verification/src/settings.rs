use vstd::prelude::*;

use crate::oversampling::OversamplingSetting;

verus! {

/// Temperature, humidity, and pressure settings. Every field is optional:
/// an absent field means "not specified, leave the device as it is".
#[derive(Clone, Copy, Debug, PartialEq, Eq, Structural)]
pub struct TphSett {
    /// Humidity oversampling.
    pub os_hum: Option<OversamplingSetting>,
    /// Temperature oversampling.
    pub os_temp: Option<OversamplingSetting>,
    /// Pressure oversampling.
    pub os_pres: Option<OversamplingSetting>,
    /// IIR filter coefficient, a smoothing parameter applied to successive
    /// raw readings.
    pub filter: Option<u8>,
}

impl TphSett {
    /// The default value: every field absent.
    pub open spec fn spec_default() -> TphSett {
        TphSett { os_hum: None, os_temp: None, os_pres: None, filter: None }
    }
}

impl Default for TphSett {
    /// Every field absent.
    fn default() -> (r: TphSett)
        ensures
            r == TphSett::spec_default(),
    {
        TphSett { os_hum: None, os_temp: None, os_pres: None, filter: None }
    }
}

/// Gas-measurement settings. Fields with a safe all-purpose default are kept
/// as plain values; the mask, not the value, records whether they were set.
#[derive(Clone, Copy, Debug, PartialEq, Eq, Structural)]
pub struct GasSett {
    /// Conversion-profile index, selecting one of the preprogrammed heating
    /// sequences stored on the device.
    pub nb_conv: u8,
    /// Heater control.
    pub heatr_ctrl: Option<u8>,
    /// Enable measurement of gas, disabled by default.
    pub run_gas_measurement: bool,
    /// Heater target temperature.
    pub heatr_temp: Option<u16>,
    /// Heater profile duration, in milliseconds.
    pub heatr_dur: Option<u64>,
    /// Ambient-temperature compensation, a reference temperature the device
    /// uses to correct its heater control calculations.
    pub ambient_temperature: i8,
}

impl GasSett {
    /// The default value: index 0, gas measurement off, compensation 0,
    /// every optional field absent.
    pub open spec fn spec_default() -> GasSett {
        GasSett {
            nb_conv: 0,
            heatr_ctrl: None,
            run_gas_measurement: false,
            heatr_temp: None,
            heatr_dur: None,
            ambient_temperature: 0,
        }
    }
}

impl Default for GasSett {
    /// Index 0, gas measurement off, compensation 0, every optional field
    /// absent.
    fn default() -> (r: GasSett)
        ensures
            r == GasSett::spec_default(),
    {
        GasSett {
            nb_conv: 0,
            heatr_ctrl: None,
            run_gas_measurement: false,
            heatr_temp: None,
            heatr_dur: None,
            ambient_temperature: 0,
        }
    }
}

/// The full set of setting values, whichever were actually set.
#[derive(Clone, Copy, Debug, PartialEq, Eq, Structural)]
pub struct SensorSettings {
    /// Gas settings.
    pub gas_sett: GasSett,
    /// Temperature, humidity, and pressure settings.
    pub tph_sett: TphSett,
}

impl SensorSettings {
    /// The default value: both sub-records at their defaults.
    pub open spec fn spec_default() -> SensorSettings {
        SensorSettings { gas_sett: GasSett::spec_default(), tph_sett: TphSett::spec_default() }
    }
}

impl Default for SensorSettings {
    /// Both sub-records at their defaults.
    fn default() -> (r: SensorSettings)
        ensures
            r == SensorSettings::spec_default(),
    {
        SensorSettings { gas_sett: GasSett::default(), tph_sett: TphSett::default() }
    }
}

} // verus!
