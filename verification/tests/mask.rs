use sensor_settings::mask::DesiredSensorSettings;
use sensor_settings::mask::FILTER_SEL;
use sensor_settings::mask::GAS_MEAS_SEL;
use sensor_settings::mask::GAS_SENSOR_SEL;
use sensor_settings::mask::HCNTRL_SEL;
use sensor_settings::mask::NBCONV_SEL;
use sensor_settings::mask::OSH_SEL;
use sensor_settings::mask::OSP_SEL;
use sensor_settings::mask::OST_SEL;
use sensor_settings::mask::RUN_GAS_SEL;
use sensor_settings::SettingsBuilder;

#[test]
fn flag_values_are_the_documented_bits() {
    assert_eq!(OST_SEL, 1);
    assert_eq!(OSP_SEL, 2);
    assert_eq!(OSH_SEL, 4);
    assert_eq!(GAS_MEAS_SEL, 8);
    assert_eq!(FILTER_SEL, 16);
    assert_eq!(HCNTRL_SEL, 32);
    assert_eq!(RUN_GAS_SEL, 64);
    assert_eq!(NBCONV_SEL, 128);
}

#[test]
fn gas_sensor_sel_is_the_union_of_its_three_flags() {
    assert_eq!(GAS_SENSOR_SEL, GAS_MEAS_SEL | RUN_GAS_SEL | NBCONV_SEL);
    assert_eq!(GAS_SENSOR_SEL, 200);
}

#[test]
fn empty_mask_has_no_bits() {
    let m = DesiredSensorSettings::empty();
    assert_eq!(m.bits(), 0);
    assert!(!m.intersects(GAS_SENSOR_SEL));
    assert!(m.contains(0));
    assert_eq!(DesiredSensorSettings::default(), m);
}

#[test]
fn insert_is_a_union() {
    let mut m = DesiredSensorSettings::empty();
    m.insert(FILTER_SEL);
    assert_eq!(m.bits(), FILTER_SEL);
    m.insert(FILTER_SEL);
    assert_eq!(m.bits(), FILTER_SEL);
    m.insert(OST_SEL);
    assert_eq!(m.bits(), FILTER_SEL | OST_SEL);
    assert!(m.contains(FILTER_SEL));
    assert!(m.contains(OST_SEL));
    assert!(!m.contains(OSP_SEL));
}

#[test]
fn run_gas_alone_satisfies_the_composite_only_partially() {
    let (_, mask) = SettingsBuilder::new().with_run_gas(true).build();
    assert!(mask.intersects(GAS_SENSOR_SEL));
    assert!(!mask.contains(GAS_SENSOR_SEL));
}

#[test]
fn all_three_gas_flags_satisfy_the_composite_fully() {
    let (_, mut mask) = SettingsBuilder::new().with_run_gas(true).with_nb_conv(2).build();
    assert!(!mask.contains(GAS_SENSOR_SEL));
    mask.insert(GAS_MEAS_SEL);
    assert!(mask.contains(GAS_SENSOR_SEL));
    assert_eq!(mask.bits(), GAS_SENSOR_SEL);
}
