use vstd::prelude::*;

use crate::mask::DesiredSensorSettings;
use crate::mask::FILTER_SEL;
use crate::mask::HCNTRL_SEL;
use crate::mask::NBCONV_SEL;
use crate::mask::OSH_SEL;
use crate::mask::OSP_SEL;
use crate::mask::OST_SEL;
use crate::mask::RUN_GAS_SEL;
use crate::oversampling::OversamplingSetting;
use crate::settings::GasSett;
use crate::settings::SensorSettings;
use crate::settings::TphSett;

verus! {

/// One builder operation, with the value it carries. The builder's contracts
/// are stated as applications of these operations, so that a whole build
/// sequence can be reasoned about as a sequence of values.
pub enum SettingOp {
    /// Set the IIR filter coefficient.
    TemperatureFilter(u8),
    /// Set the heater-control value.
    HumidityControl(u8),
    /// Set the temperature oversampling level.
    TemperatureOversampling(OversamplingSetting),
    /// Set the pressure oversampling level.
    PressureOversampling(OversamplingSetting),
    /// Set the humidity oversampling level.
    HumidityOversampling(OversamplingSetting),
    /// Set the heater profile: duration in milliseconds, target temperature,
    /// and ambient-temperature compensation, all at once.
    GasMeasurement(u64, u16, i8),
    /// Set the conversion-profile index.
    NbConv(u8),
    /// Set the run-gas flag.
    RunGas(bool),
}

/// The mask bits one operation marks. Setting the gas-measurement profile and
/// setting the run-gas flag mark the same bit: both stand for the one
/// selectable aspect "gas measurement is to be (re)configured".
pub open spec fn op_mask(op: SettingOp) -> u16 {
    match op {
        SettingOp::TemperatureFilter(_) => FILTER_SEL,
        SettingOp::HumidityControl(_) => HCNTRL_SEL,
        SettingOp::TemperatureOversampling(_) => OST_SEL,
        SettingOp::PressureOversampling(_) => OSP_SEL,
        SettingOp::HumidityOversampling(_) => OSH_SEL,
        SettingOp::GasMeasurement(_, _, _) => RUN_GAS_SEL,
        SettingOp::NbConv(_) => NBCONV_SEL,
        SettingOp::RunGas(_) => RUN_GAS_SEL,
    }
}

/// The setting values after one operation: the fields the operation names are
/// overwritten, every other field is kept.
pub open spec fn apply_op(s: SensorSettings, op: SettingOp) -> SensorSettings {
    match op {
        SettingOp::TemperatureFilter(filter) => SensorSettings {
            tph_sett: TphSett { filter: Some(filter), ..s.tph_sett },
            ..s
        },
        SettingOp::HumidityControl(heatr_ctrl) => SensorSettings {
            gas_sett: GasSett { heatr_ctrl: Some(heatr_ctrl), ..s.gas_sett },
            ..s
        },
        SettingOp::TemperatureOversampling(os_temp) => SensorSettings {
            tph_sett: TphSett { os_temp: Some(os_temp), ..s.tph_sett },
            ..s
        },
        SettingOp::PressureOversampling(os_pres) => SensorSettings {
            tph_sett: TphSett { os_pres: Some(os_pres), ..s.tph_sett },
            ..s
        },
        SettingOp::HumidityOversampling(os_hum) => SensorSettings {
            tph_sett: TphSett { os_hum: Some(os_hum), ..s.tph_sett },
            ..s
        },
        SettingOp::GasMeasurement(heatr_dur, heatr_temp, ambient) => SensorSettings {
            gas_sett: GasSett {
                heatr_dur: Some(heatr_dur),
                heatr_temp: Some(heatr_temp),
                ambient_temperature: ambient,
                ..s.gas_sett
            },
            ..s
        },
        SettingOp::NbConv(nb_conv) => SensorSettings {
            gas_sett: GasSett { nb_conv: nb_conv, ..s.gas_sett },
            ..s
        },
        SettingOp::RunGas(run_gas) => SensorSettings {
            gas_sett: GasSett { run_gas_measurement: run_gas, ..s.gas_sett },
            ..s
        },
    }
}

/// The setting values after a whole sequence of operations, applied in order.
pub open spec fn apply_ops(s: SensorSettings, ops: Seq<SettingOp>) -> SensorSettings
    decreases ops.len(),
{
    if ops.len() == 0 {
        s
    } else {
        apply_op(apply_ops(s, ops.drop_last()), ops.last())
    }
}

/// The mask a sequence of operations accumulates over an empty mask: the
/// union of the bits each operation marks.
pub open spec fn ops_mask(ops: Seq<SettingOp>) -> u16
    decreases ops.len(),
{
    if ops.len() == 0 {
        0u16
    } else {
        ops_mask(ops.drop_last()) | op_mask(ops.last())
    }
}

/// Accumulates setting values and the mask of settings touched, one
/// operation per independently selectable setting. The builder is consumed
/// by each operation and returned for chaining, and consumed for good by
/// [`SettingsBuilder::build`].
pub struct SettingsBuilder {
    desired_settings: DesiredSensorSettings,
    sensor_settings: SensorSettings,
}

/// What a finished build yields: the setting values, and the mask of the
/// settings the caller asked to change.
pub type Settings = (SensorSettings, DesiredSensorSettings);

impl SettingsBuilder {
    /// The setting values accumulated so far.
    pub closed spec fn sensor(self) -> SensorSettings {
        self.sensor_settings
    }

    /// The mask bits accumulated so far.
    pub closed spec fn mask(self) -> u16 {
        self.desired_settings.bits
    }

    /// A fresh builder: default setting values, empty mask.
    pub fn new() -> (r: SettingsBuilder)
        ensures
            r.sensor() == SensorSettings::spec_default(),
            r.mask() == 0,
    {
        SettingsBuilder {
            desired_settings: DesiredSensorSettings::empty(),
            sensor_settings: SensorSettings::default(),
        }
    }

    /// Sets the IIR filter coefficient and marks the filter setting.
    pub fn with_temperature_filter(self, filter: u8) -> (r: SettingsBuilder)
        ensures
            r.sensor() == apply_op(self.sensor(), SettingOp::TemperatureFilter(filter)),
            r.mask() == self.mask() | op_mask(SettingOp::TemperatureFilter(filter)),
    {
        let mut b = self;
        b.sensor_settings.tph_sett.filter = Some(filter);
        b.desired_settings.insert(FILTER_SEL);
        b
    }

    /// Sets the heater-control value and marks the humidity-control setting.
    pub fn with_humidity_control(self, heatr_control: u8) -> (r: SettingsBuilder)
        ensures
            r.sensor() == apply_op(self.sensor(), SettingOp::HumidityControl(heatr_control)),
            r.mask() == self.mask() | op_mask(SettingOp::HumidityControl(heatr_control)),
    {
        let mut b = self;
        b.sensor_settings.gas_sett.heatr_ctrl = Some(heatr_control);
        b.desired_settings.insert(HCNTRL_SEL);
        b
    }

    /// Sets the temperature oversampling level and marks the
    /// temperature-oversampling setting.
    pub fn with_temperature_oversampling(self, os_temp: OversamplingSetting) -> (r:
        SettingsBuilder)
        ensures
            r.sensor() == apply_op(self.sensor(), SettingOp::TemperatureOversampling(os_temp)),
            r.mask() == self.mask() | op_mask(SettingOp::TemperatureOversampling(os_temp)),
    {
        let mut b = self;
        b.sensor_settings.tph_sett.os_temp = Some(os_temp);
        b.desired_settings.insert(OST_SEL);
        b
    }

    /// Sets the pressure oversampling level and marks the
    /// pressure-oversampling setting.
    pub fn with_pressure_oversampling(self, os_pres: OversamplingSetting) -> (r: SettingsBuilder)
        ensures
            r.sensor() == apply_op(self.sensor(), SettingOp::PressureOversampling(os_pres)),
            r.mask() == self.mask() | op_mask(SettingOp::PressureOversampling(os_pres)),
    {
        let mut b = self;
        b.sensor_settings.tph_sett.os_pres = Some(os_pres);
        b.desired_settings.insert(OSP_SEL);
        b
    }

    /// Sets the humidity oversampling level and marks the
    /// humidity-oversampling setting.
    pub fn with_humidity_oversampling(self, os_hum: OversamplingSetting) -> (r: SettingsBuilder)
        ensures
            r.sensor() == apply_op(self.sensor(), SettingOp::HumidityOversampling(os_hum)),
            r.mask() == self.mask() | op_mask(SettingOp::HumidityOversampling(os_hum)),
    {
        let mut b = self;
        b.sensor_settings.tph_sett.os_hum = Some(os_hum);
        b.desired_settings.insert(OSH_SEL);
        b
    }

    /// Sets the heater profile — duration in milliseconds, target
    /// temperature, and ambient-temperature compensation — and marks the
    /// run-gas setting, the same bit [`SettingsBuilder::with_run_gas`] marks.
    pub fn with_gas_measurement(
        self,
        heatr_dur: u64,
        heatr_temp: u16,
        ambient_temperature: i8,
    ) -> (r: SettingsBuilder)
        ensures
            r.sensor() == apply_op(
                self.sensor(),
                SettingOp::GasMeasurement(heatr_dur, heatr_temp, ambient_temperature),
            ),
            r.mask() == self.mask() | op_mask(
                SettingOp::GasMeasurement(heatr_dur, heatr_temp, ambient_temperature),
            ),
    {
        let mut b = self;
        b.sensor_settings.gas_sett.heatr_dur = Some(heatr_dur);
        b.sensor_settings.gas_sett.heatr_temp = Some(heatr_temp);
        b.sensor_settings.gas_sett.ambient_temperature = ambient_temperature;
        b.desired_settings.insert(RUN_GAS_SEL);
        b
    }

    /// Sets the conversion-profile index and marks the conversion-index
    /// setting.
    pub fn with_nb_conv(self, nb_conv: u8) -> (r: SettingsBuilder)
        ensures
            r.sensor() == apply_op(self.sensor(), SettingOp::NbConv(nb_conv)),
            r.mask() == self.mask() | op_mask(SettingOp::NbConv(nb_conv)),
    {
        let mut b = self;
        b.sensor_settings.gas_sett.nb_conv = nb_conv;
        b.desired_settings.insert(NBCONV_SEL);
        b
    }

    /// Sets the run-gas flag and marks the run-gas setting, the same bit
    /// [`SettingsBuilder::with_gas_measurement`] marks.
    pub fn with_run_gas(self, run_gas: bool) -> (r: SettingsBuilder)
        ensures
            r.sensor() == apply_op(self.sensor(), SettingOp::RunGas(run_gas)),
            r.mask() == self.mask() | op_mask(SettingOp::RunGas(run_gas)),
    {
        let mut b = self;
        b.sensor_settings.gas_sett.run_gas_measurement = run_gas;
        b.desired_settings.insert(RUN_GAS_SEL);
        b
    }

    /// Finishes the build, consuming the builder and yielding the setting
    /// values together with the mask of the settings touched.
    pub fn build(self) -> (r: Settings)
        ensures
            r.0 == self.sensor(),
            r.1.bits == self.mask(),
    {
        (self.sensor_settings, self.desired_settings)
    }
}

/// Appending one operation to a build sequence applies it after the rest and
/// adds exactly its bits to the mask — the step each builder operation takes,
/// stated over the sequence model.
pub proof fn lemma_ops_snoc(s: SensorSettings, ops: Seq<SettingOp>, op: SettingOp)
    ensures
        apply_ops(s, ops.push(op)) == apply_op(apply_ops(s, ops), op),
        ops_mask(ops.push(op)) == ops_mask(ops) | op_mask(op),
{
    assert(ops.push(op).drop_last() =~= ops);
    assert(ops.push(op).last() == op);
}

/// A bit is set in the mask of a sequence of operations exactly when some
/// operation of the sequence marks that bit. The right-hand side does not
/// depend on the order of the sequence, so neither do the bits of the mask.
pub proof fn lemma_mask_bit_iff_some_op(ops: Seq<SettingOp>, bit: u16)
    ensures
        (ops_mask(ops) & bit != 0) <==> exists|i: int|
            0 <= i < ops.len() && (op_mask(#[trigger] ops[i]) & bit != 0),
    decreases ops.len(),
{
    if ops.len() == 0 {
        assert(0u16 & bit == 0) by (bit_vector);
    } else {
        let front = ops.drop_last();
        let last = ops.last();
        lemma_mask_bit_iff_some_op(front, bit);
        let a = ops_mask(front);
        let c = op_mask(last);
        assert(((a | c) & bit != 0) == ((a & bit != 0) || (c & bit != 0))) by (bit_vector);
        if a & bit != 0 {
            let i = choose|i: int| 0 <= i < front.len() && (op_mask(#[trigger] front[i]) & bit != 0);
            assert(ops[i] == front[i]);
        }
        if c & bit != 0 {
            assert(ops[ops.len() - 1] == last);
        }
        if exists|i: int| 0 <= i < ops.len() && (op_mask(#[trigger] ops[i]) & bit != 0) {
            let i = choose|i: int| 0 <= i < ops.len() && (op_mask(#[trigger] ops[i]) & bit != 0);
            if i < ops.len() - 1 {
                assert(front[i] == ops[i]);
            }
        }
    }
}

/// Setting the run-gas flag and setting the gas-measurement profile mark the
/// same single bit: over an empty mask the two together, in either order,
/// leave exactly the run-gas bit set, not two bits.
pub proof fn lemma_run_gas_and_profile_share_bit(dur: u64, temp: u16, ambient: i8, run: bool)
    ensures
        ops_mask(seq![SettingOp::RunGas(run), SettingOp::GasMeasurement(dur, temp, ambient)])
            == RUN_GAS_SEL,
        ops_mask(seq![SettingOp::GasMeasurement(dur, temp, ambient), SettingOp::RunGas(run)])
            == RUN_GAS_SEL,
{
    let flag_first = seq![
        SettingOp::RunGas(run),
        SettingOp::GasMeasurement(dur, temp, ambient),
    ];
    let profile_first = seq![
        SettingOp::GasMeasurement(dur, temp, ambient),
        SettingOp::RunGas(run),
    ];
    assert(flag_first.drop_last() =~= seq![SettingOp::RunGas(run)]);
    assert(seq![SettingOp::RunGas(run)].drop_last() =~= Seq::<SettingOp>::empty());
    assert(profile_first.drop_last() =~= seq![SettingOp::GasMeasurement(dur, temp, ambient)]);
    assert(seq![SettingOp::GasMeasurement(dur, temp, ambient)].drop_last()
        =~= Seq::<SettingOp>::empty());
    assert(ops_mask(Seq::<SettingOp>::empty()) == 0u16);
    assert(0u16 | 64u16 == 64u16) by (bit_vector);
    assert(64u16 | 64u16 == 64u16) by (bit_vector);
    assert(ops_mask(seq![SettingOp::RunGas(run)]) == RUN_GAS_SEL);
    assert(ops_mask(seq![SettingOp::GasMeasurement(dur, temp, ambient)]) == RUN_GAS_SEL);
    assert(ops_mask(flag_first) == RUN_GAS_SEL | RUN_GAS_SEL);
    assert(ops_mask(profile_first) == RUN_GAS_SEL | RUN_GAS_SEL);
}

} // verus!
