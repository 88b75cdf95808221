use sensor_settings::OversamplingSetting;

#[test]
fn each_discriminant_maps_to_its_level() {
    assert_eq!(OversamplingSetting::from_u8(0), OversamplingSetting::OSNone);
    assert_eq!(OversamplingSetting::from_u8(1), OversamplingSetting::OS1x);
    assert_eq!(OversamplingSetting::from_u8(2), OversamplingSetting::OS2x);
    assert_eq!(OversamplingSetting::from_u8(3), OversamplingSetting::OS4x);
    assert_eq!(OversamplingSetting::from_u8(4), OversamplingSetting::OS8x);
    assert_eq!(OversamplingSetting::from_u8(5), OversamplingSetting::OS16x);
}

#[test]
fn distinct_discriminants_give_distinct_levels() {
    let levels = [
        OversamplingSetting::from_u8(0),
        OversamplingSetting::from_u8(1),
        OversamplingSetting::from_u8(2),
        OversamplingSetting::from_u8(3),
        OversamplingSetting::from_u8(4),
        OversamplingSetting::from_u8(5),
    ];
    for i in 0..levels.len() {
        for j in 0..levels.len() {
            if i != j {
                assert_ne!(levels[i], levels[j]);
            }
        }
    }
}
