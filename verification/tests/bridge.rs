use garjan::bridge::threat_rain_intensity;
use garjan::weather::RainIntensity;

#[test]
fn threat_levels_map_to_rain() {
    assert_eq!(threat_rain_intensity(0), None);
    assert_eq!(threat_rain_intensity(1), None);
    assert_eq!(threat_rain_intensity(2), Some(RainIntensity::Moderate));
    assert_eq!(threat_rain_intensity(3), Some(RainIntensity::Heavy));
    assert_eq!(threat_rain_intensity(4), Some(RainIntensity::Torrential));
    assert_eq!(threat_rain_intensity(5), Some(RainIntensity::Torrential));
    assert_eq!(threat_rain_intensity(255), Some(RainIntensity::Torrential));
}

#[test]
fn higher_threat_never_brings_lighter_rain() {
    let rank = |r: Option<RainIntensity>| match r {
        None => 0,
        Some(RainIntensity::Light) => 1,
        Some(RainIntensity::Moderate) => 2,
        Some(RainIntensity::Heavy) => 3,
        Some(RainIntensity::Torrential) => 4,
        Some(_) => 5,
    };
    let mut last = 0;
    for level in 0..=u8::MAX {
        let r = rank(threat_rain_intensity(level));
        assert!(r >= last, "level {level}");
        last = r;
    }
}
