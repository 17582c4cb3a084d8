//! The settings record and the enumerations it is built from.

use vstd::prelude::*;
use crate::text::{clone_opt_text, opt_text, opt_text_eq};

verus! {

/// Temperature units.
#[derive(Clone, Copy, Debug, PartialEq, Eq, Structural)]
pub enum Units {
    Fahrenheit,
    Celsius,
}

/// Clock format.
#[derive(Clone, Copy, Debug, PartialEq, Eq, Structural)]
pub enum TimeFmt {
    TwelveHr,
    TwentyFourHr,
}

/// Colour theme of the application.
#[derive(Clone, Copy, Debug, PartialEq, Eq, Structural)]
pub enum AppTheme {
    Light,
    Dark,
    System,
}

impl Units {
    /// Position of the unit in the list of choices.
    pub open spec fn spec_index(self) -> nat {
        match self {
            Units::Fahrenheit => 0,
            Units::Celsius => 1,
        }
    }

    /// The unit chosen by a position; every position but 1 means Fahrenheit.
    pub open spec fn spec_from_index(index: nat) -> Units {
        if index == 1 {
            Units::Celsius
        } else {
            Units::Fahrenheit
        }
    }

    /// Position of the unit in the list of choices.
    pub fn index(self) -> (i: usize)
        ensures
            i == self.spec_index(),
            Self::spec_from_index(i as nat) == self,
    {
        match self {
            Units::Fahrenheit => 0,
            Units::Celsius => 1,
        }
    }

    /// The unit chosen by a position; every position but 1 means Fahrenheit.
    pub fn from_index(index: usize) -> (u: Units)
        ensures
            u == Self::spec_from_index(index as nat),
    {
        match index {
            1 => Units::Celsius,
            _ => Units::Fahrenheit,
        }
    }
}

impl TimeFmt {
    /// Position of the format in the list of choices.
    pub open spec fn spec_index(self) -> nat {
        match self {
            TimeFmt::TwelveHr => 0,
            TimeFmt::TwentyFourHr => 1,
        }
    }

    /// The format chosen by a position; every position but 1 means the
    /// twelve-hour clock.
    pub open spec fn spec_from_index(index: nat) -> TimeFmt {
        if index == 1 {
            TimeFmt::TwentyFourHr
        } else {
            TimeFmt::TwelveHr
        }
    }

    /// Position of the format in the list of choices.
    pub fn index(self) -> (i: usize)
        ensures
            i == self.spec_index(),
            Self::spec_from_index(i as nat) == self,
    {
        match self {
            TimeFmt::TwelveHr => 0,
            TimeFmt::TwentyFourHr => 1,
        }
    }

    /// The format chosen by a position; every position but 1 means the
    /// twelve-hour clock.
    pub fn from_index(index: usize) -> (t: TimeFmt)
        ensures
            t == Self::spec_from_index(index as nat),
    {
        match index {
            1 => TimeFmt::TwentyFourHr,
            _ => TimeFmt::TwelveHr,
        }
    }
}

impl AppTheme {
    /// Position of the theme in the list of choices.
    pub open spec fn spec_index(self) -> nat {
        match self {
            AppTheme::Light => 0,
            AppTheme::Dark => 1,
            AppTheme::System => 2,
        }
    }

    /// The theme chosen by a position; every position but 0 and 1 means the
    /// system theme.
    pub open spec fn spec_from_index(index: nat) -> AppTheme {
        if index == 0 {
            AppTheme::Light
        } else if index == 1 {
            AppTheme::Dark
        } else {
            AppTheme::System
        }
    }

    /// Position of the theme in the list of choices.
    pub fn index(self) -> (i: usize)
        ensures
            i == self.spec_index(),
            Self::spec_from_index(i as nat) == self,
    {
        match self {
            AppTheme::Light => 0,
            AppTheme::Dark => 1,
            AppTheme::System => 2,
        }
    }

    /// The theme chosen by a position; every position but 0 and 1 means the
    /// system theme.
    pub fn from_index(index: usize) -> (t: AppTheme)
        ensures
            t == Self::spec_from_index(index as nat),
    {
        match index {
            0 => AppTheme::Light,
            1 => AppTheme::Dark,
            _ => AppTheme::System,
        }
    }
}

/// The user's settings: units, clock format, theme, and the chosen place
/// with its coordinates kept as text.
#[derive(Debug)]
pub struct WeatherConfig {
    pub location: Option<String>,
    pub latitude: Option<String>,
    pub longitude: Option<String>,
    pub units: Units,
    pub timefmt: TimeFmt,
    pub app_theme: AppTheme,
}

/// Mathematical model of [`WeatherConfig`].
pub struct WeatherConfigView {
    pub location: Option<Seq<char>>,
    pub latitude: Option<Seq<char>>,
    pub longitude: Option<Seq<char>>,
    pub units: Units,
    pub timefmt: TimeFmt,
    pub app_theme: AppTheme,
}

impl View for WeatherConfig {
    type V = WeatherConfigView;

    open spec fn view(&self) -> WeatherConfigView {
        WeatherConfigView {
            location: opt_text(self.location),
            latitude: opt_text(self.latitude),
            longitude: opt_text(self.longitude),
            units: self.units,
            timefmt: self.timefmt,
            app_theme: self.app_theme,
        }
    }
}

impl Clone for WeatherConfig {
    fn clone(&self) -> (r: Self)
        ensures
            r@ == self@,
    {
        WeatherConfig {
            location: clone_opt_text(&self.location),
            latitude: clone_opt_text(&self.latitude),
            longitude: clone_opt_text(&self.longitude),
            units: self.units,
            timefmt: self.timefmt,
            app_theme: self.app_theme,
        }
    }
}

impl PartialEq for WeatherConfig {
    fn eq(&self, other: &Self) -> (r: bool) {
        opt_text_eq(&self.location, &other.location)
            && opt_text_eq(&self.latitude, &other.latitude)
            && opt_text_eq(&self.longitude, &other.longitude)
            && self.units == other.units
            && self.timefmt == other.timefmt
            && self.app_theme == other.app_theme
    }
}

impl vstd::std_specs::cmp::PartialEqSpecImpl for WeatherConfig {
    open spec fn obeys_eq_spec() -> bool {
        true
    }

    open spec fn eq_spec(&self, other: &Self) -> bool {
        self@ == other@
    }
}

impl Eq for WeatherConfig {}

} // verus!
