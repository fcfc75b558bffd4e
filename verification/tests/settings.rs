use cellular_orbs::settings::{Settings, STEPS_PER_UNIT};

#[test]
fn settings_are_held_in_thousandths() {
    assert_eq!(STEPS_PER_UNIT, 1000);
}

#[test]
fn a_simulation_starts_with_the_stated_settings() {
    let settings = Settings::default();
    assert_eq!(
        settings,
        Settings {
            wraparound: false,
            G: 100_000,
            friction: 100,
            influence_distance: 100_000,
            scale: 1_000,
        }
    );
}

#[test]
fn the_initial_settings_in_units() {
    let settings = Settings::default();
    let unit = f64::from(STEPS_PER_UNIT);
    assert!(!settings.wraparound);
    assert_eq!(f64::from(settings.G) / unit, 100.0);
    assert_eq!(f64::from(settings.friction) / unit, 0.1);
    assert_eq!(f64::from(settings.influence_distance) / unit, 100.0);
    assert_eq!(f64::from(settings.scale) / unit, 1.0);
}

#[test]
fn the_initial_settings_are_valid() {
    let settings = Settings::default();
    assert!(settings.friction <= STEPS_PER_UNIT);
    assert!(settings.scale > 0);
}
