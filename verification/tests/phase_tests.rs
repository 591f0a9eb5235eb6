use theme_sender::phase::{phase_to_description, phase_to_theme, SolarPhase, ThemeType};

fn all_phases() -> Vec<SolarPhase> {
    vec![
        SolarPhase::Night,
        SolarPhase::AstronomicalDawn,
        SolarPhase::NauticalDawn,
        SolarPhase::CivilDawn,
        SolarPhase::Sunrise,
        SolarPhase::Day,
        SolarPhase::CivilDusk,
        SolarPhase::NauticalDusk,
        SolarPhase::AstronomicalDusk,
    ]
}

#[test]
fn theme_of_each_phase() {
    assert_eq!(phase_to_theme(SolarPhase::Night), "dark");
    assert_eq!(phase_to_theme(SolarPhase::AstronomicalDawn), "dark-dimmed");
    assert_eq!(phase_to_theme(SolarPhase::NauticalDawn), "dark-soft");
    assert_eq!(phase_to_theme(SolarPhase::CivilDawn), "light-soft");
    assert_eq!(phase_to_theme(SolarPhase::Sunrise), "light");
    assert_eq!(phase_to_theme(SolarPhase::Day), "light");
    assert_eq!(phase_to_theme(SolarPhase::CivilDusk), "light-soft");
    assert_eq!(phase_to_theme(SolarPhase::NauticalDusk), "dark-soft");
    assert_eq!(phase_to_theme(SolarPhase::AstronomicalDusk), "dark-dimmed");
}

#[test]
fn dawn_and_dusk_share_themes() {
    assert_eq!(
        phase_to_theme(SolarPhase::AstronomicalDawn),
        phase_to_theme(SolarPhase::AstronomicalDusk)
    );
    assert_eq!(
        phase_to_theme(SolarPhase::NauticalDawn),
        phase_to_theme(SolarPhase::NauticalDusk)
    );
    assert_eq!(
        phase_to_theme(SolarPhase::CivilDawn),
        phase_to_theme(SolarPhase::CivilDusk)
    );
    assert_eq!(
        phase_to_theme(SolarPhase::Sunrise),
        phase_to_theme(SolarPhase::Day)
    );
    assert_ne!(
        phase_to_theme(SolarPhase::Night),
        phase_to_theme(SolarPhase::AstronomicalDawn)
    );
}

#[test]
fn description_of_each_phase() {
    assert_eq!(
        phase_to_description(SolarPhase::Night),
        "Full night - stars visible"
    );
    assert_eq!(
        phase_to_description(SolarPhase::AstronomicalDawn),
        "Astronomical dawn - faint light appears in sky"
    );
    assert_eq!(
        phase_to_description(SolarPhase::NauticalDawn),
        "Nautical dawn - horizon becomes visible"
    );
    assert_eq!(
        phase_to_description(SolarPhase::CivilDawn),
        "Civil dawn - enough light for outdoor activities"
    );
    assert_eq!(
        phase_to_description(SolarPhase::Sunrise),
        "Sunrise - sun breaks the horizon"
    );
    assert_eq!(phase_to_description(SolarPhase::Day), "Full daylight");
    assert_eq!(
        phase_to_description(SolarPhase::CivilDusk),
        "Civil dusk - sun below horizon, still light out"
    );
    assert_eq!(
        phase_to_description(SolarPhase::NauticalDusk),
        "Nautical dusk - darker, horizon still visible"
    );
    assert_eq!(
        phase_to_description(SolarPhase::AstronomicalDusk),
        "Astronomical dusk - fading light in sky"
    );
}

#[test]
fn descriptions_are_one_to_one() {
    let phases = all_phases();
    for a in 0..phases.len() {
        for b in 0..phases.len() {
            if a != b {
                assert_ne!(
                    phase_to_description(phases[a]),
                    phase_to_description(phases[b])
                );
            }
        }
    }
}

#[test]
fn index_follows_the_course_of_the_day() {
    let phases = all_phases();
    for position in 0..phases.len() {
        assert_eq!(usize::from(phases[position].index()), position);
    }
}

#[test]
fn solar_theme_strings() {
    for phase in all_phases() {
        let theme = ThemeType::Solar(phase);
        assert_eq!(theme.to_theme_string(), phase_to_theme(phase));
        assert_eq!(theme.to_description(), phase_to_description(phase));
    }
}

#[test]
fn custom_theme_is_published_verbatim() {
    let theme = ThemeType::Custom(String::from("high-contrast"));
    assert_eq!(theme.to_theme_string(), "high-contrast");
    assert_eq!(theme.to_description(), "Custom theme override");
    let empty = ThemeType::Custom(String::new());
    assert_eq!(empty.to_theme_string(), "");
}

#[test]
fn themes_are_equal_by_tag_and_payload() {
    let light = ThemeType::Custom(String::from("light"));
    let sunrise = ThemeType::Solar(SolarPhase::Sunrise);
    assert!(!light.same_as(&sunrise));
    assert!(!sunrise.same_as(&ThemeType::Solar(SolarPhase::Day)));
    assert!(sunrise.same_as(&ThemeType::Solar(SolarPhase::Sunrise)));
    assert!(light.same_as(&ThemeType::Custom(String::from("light"))));
    assert!(!light.same_as(&ThemeType::Custom(String::from("dark"))));
    assert!(light.clone().same_as(&light));
    assert_eq!(light.clone(), light);
}
