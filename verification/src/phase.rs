//! Solar phases and the themes they stand for.

use vstd::prelude::*;

verus! {

/// A phase of the solar day, named after the event that starts it.
#[derive(Clone, Copy, Debug, PartialEq, Eq, Structural)]
pub enum SolarPhase {
    Night,
    AstronomicalDawn,
    NauticalDawn,
    CivilDawn,
    Sunrise,
    Day,
    CivilDusk,
    NauticalDusk,
    AstronomicalDusk,
}

impl SolarPhase {
    /// Position of the phase in the course of a day, `Night` first.
    pub open spec fn ordinal(self) -> nat {
        match self {
            SolarPhase::Night => 0,
            SolarPhase::AstronomicalDawn => 1,
            SolarPhase::NauticalDawn => 2,
            SolarPhase::CivilDawn => 3,
            SolarPhase::Sunrise => 4,
            SolarPhase::Day => 5,
            SolarPhase::CivilDusk => 6,
            SolarPhase::NauticalDusk => 7,
            SolarPhase::AstronomicalDusk => 8,
        }
    }

    /// How far the sun is from full daylight in this phase, in twilight
    /// steps: 0 for `Sunrise` and `Day`, 4 for `Night`.
    pub open spec fn darkness(self) -> nat {
        match self {
            SolarPhase::Sunrise | SolarPhase::Day => 0,
            SolarPhase::CivilDawn | SolarPhase::CivilDusk => 1,
            SolarPhase::NauticalDawn | SolarPhase::NauticalDusk => 2,
            SolarPhase::AstronomicalDawn | SolarPhase::AstronomicalDusk => 3,
            SolarPhase::Night => 4,
        }
    }

    /// The phase's position in the course of a day.
    pub fn index(self) -> (r: u8)
        ensures
            r == self.ordinal(),
    {
        match self {
            SolarPhase::Night => 0,
            SolarPhase::AstronomicalDawn => 1,
            SolarPhase::NauticalDawn => 2,
            SolarPhase::CivilDawn => 3,
            SolarPhase::Sunrise => 4,
            SolarPhase::Day => 5,
            SolarPhase::CivilDusk => 6,
            SolarPhase::NauticalDusk => 7,
            SolarPhase::AstronomicalDusk => 8,
        }
    }
}

/// The theme identifier that each phase is shown with.
pub open spec fn theme_name(phase: SolarPhase) -> Seq<char> {
    match phase {
        SolarPhase::Night => "dark"@,
        SolarPhase::AstronomicalDawn => "dark-dimmed"@,
        SolarPhase::NauticalDawn => "dark-soft"@,
        SolarPhase::CivilDawn => "light-soft"@,
        SolarPhase::Sunrise => "light"@,
        SolarPhase::Day => "light"@,
        SolarPhase::CivilDusk => "light-soft"@,
        SolarPhase::NauticalDusk => "dark-soft"@,
        SolarPhase::AstronomicalDusk => "dark-dimmed"@,
    }
}

/// The sentence that describes each phase to a reader.
pub open spec fn phase_description(phase: SolarPhase) -> Seq<char> {
    match phase {
        SolarPhase::Night => "Full night - stars visible"@,
        SolarPhase::AstronomicalDawn => "Astronomical dawn - faint light appears in sky"@,
        SolarPhase::NauticalDawn => "Nautical dawn - horizon becomes visible"@,
        SolarPhase::CivilDawn => "Civil dawn - enough light for outdoor activities"@,
        SolarPhase::Sunrise => "Sunrise - sun breaks the horizon"@,
        SolarPhase::Day => "Full daylight"@,
        SolarPhase::CivilDusk => "Civil dusk - sun below horizon, still light out"@,
        SolarPhase::NauticalDusk => "Nautical dusk - darker, horizon still visible"@,
        SolarPhase::AstronomicalDusk => "Astronomical dusk - fading light in sky"@,
    }
}

/// The description shown for a theme that an operator set.
pub open spec fn custom_description() -> Seq<char> {
    "Custom theme override"@
}

/// Looks up the theme identifier of a phase.
pub fn phase_to_theme(phase: SolarPhase) -> (r: &'static str)
    ensures
        r@ == theme_name(phase),
{
    match phase {
        SolarPhase::Night => "dark",
        SolarPhase::AstronomicalDawn => "dark-dimmed",
        SolarPhase::NauticalDawn => "dark-soft",
        SolarPhase::CivilDawn => "light-soft",
        SolarPhase::Sunrise => "light",
        SolarPhase::Day => "light",
        SolarPhase::CivilDusk => "light-soft",
        SolarPhase::NauticalDusk => "dark-soft",
        SolarPhase::AstronomicalDusk => "dark-dimmed",
    }
}

/// Looks up the description of a phase.
pub fn phase_to_description(phase: SolarPhase) -> (r: &'static str)
    ensures
        r@ == phase_description(phase),
{
    match phase {
        SolarPhase::Night => "Full night - stars visible",
        SolarPhase::AstronomicalDawn => "Astronomical dawn - faint light appears in sky",
        SolarPhase::NauticalDawn => "Nautical dawn - horizon becomes visible",
        SolarPhase::CivilDawn => "Civil dawn - enough light for outdoor activities",
        SolarPhase::Sunrise => "Sunrise - sun breaks the horizon",
        SolarPhase::Day => "Full daylight",
        SolarPhase::CivilDusk => "Civil dusk - sun below horizon, still light out",
        SolarPhase::NauticalDusk => "Nautical dusk - darker, horizon still visible",
        SolarPhase::AstronomicalDusk => "Astronomical dusk - fading light in sky",
    }
}

/// Phases equally far from full daylight are shown with one theme.
pub proof fn theme_follows_darkness(a: SolarPhase, b: SolarPhase)
    requires
        a.darkness() == b.darkness(),
    ensures
        theme_name(a) == theme_name(b),
{
}

/// The theme in force: the one of a solar phase, or one that an operator set.
#[derive(Debug, PartialEq, Eq)]
pub enum ThemeType {
    Solar(SolarPhase),
    Custom(String),
}

/// What a `ThemeType` holds, with the custom text as a sequence.
pub enum ThemeView {
    Solar(SolarPhase),
    Custom(Seq<char>),
}

impl View for ThemeType {
    type V = ThemeView;

    open spec fn view(&self) -> ThemeView {
        match self {
            ThemeType::Solar(phase) => ThemeView::Solar(*phase),
            ThemeType::Custom(text) => ThemeView::Custom(text@),
        }
    }
}

impl ThemeView {
    /// The identifier that is published for this theme.
    pub open spec fn theme_text(self) -> Seq<char> {
        match self {
            ThemeView::Solar(phase) => theme_name(phase),
            ThemeView::Custom(text) => text,
        }
    }

    /// The description that goes with this theme.
    pub open spec fn description(self) -> Seq<char> {
        match self {
            ThemeView::Solar(phase) => phase_description(phase),
            ThemeView::Custom(_) => custom_description(),
        }
    }
}

impl ThemeType {
    /// The identifier to publish: the phase's theme, or the operator's text
    /// as it was given.
    pub fn to_theme_string(&self) -> (r: String)
        ensures
            r@ == self@.theme_text(),
    {
        match self {
            ThemeType::Solar(phase) => phase_to_theme(*phase).to_owned(),
            ThemeType::Custom(text) => text.clone(),
        }
    }

    /// The description of the theme, for a log line.
    pub fn to_description(&self) -> (r: &'static str)
        ensures
            r@ == self@.description(),
    {
        match self {
            ThemeType::Solar(phase) => phase_to_description(*phase),
            ThemeType::Custom(_) => "Custom theme override",
        }
    }

    /// Whether two themes have the same tag and the same payload.
    pub fn same_as(&self, other: &ThemeType) -> (r: bool)
        ensures
            r == (self@ == other@),
    {
        match (self, other) {
            (ThemeType::Solar(a), ThemeType::Solar(b)) => *a == *b,
            (ThemeType::Custom(a), ThemeType::Custom(b)) => *a == *b,
            _ => false,
        }
    }

}

impl Clone for ThemeType {
    fn clone(&self) -> (r: ThemeType)
        ensures
            r@ == self@,
    {
        match self {
            ThemeType::Solar(phase) => ThemeType::Solar(*phase),
            ThemeType::Custom(text) => ThemeType::Custom(text.clone()),
        }
    }
}

} // verus!
