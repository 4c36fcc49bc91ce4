//! The weather shown in the home screen, which follows the temperature.
use vstd::prelude::*;

use crate::temperature::TemperatureLevel;

verus! {

/// The kinds of weather.
#[derive(Clone, Copy, Debug, PartialEq, Eq, Structural)]
pub enum WeatherKind {
    NoWeather,
    Cold,
    Snow,
    Hot,
}

/// The weather for a temperature band.
pub open spec fn weather_for(t: TemperatureLevel) -> WeatherKind {
    match t {
        TemperatureLevel::VeryHot | TemperatureLevel::Hot => WeatherKind::Hot,
        TemperatureLevel::Pleasant => WeatherKind::NoWeather,
        TemperatureLevel::Cold => WeatherKind::Cold,
        TemperatureLevel::VeryCold => WeatherKind::Snow,
    }
}

impl WeatherKind {
    /// The weather for a temperature band.
    pub fn from_temperature(value: TemperatureLevel) -> (r: Self)
        ensures
            r == weather_for(value),
    {
        match value {
            TemperatureLevel::VeryHot | TemperatureLevel::Hot => WeatherKind::Hot,
            TemperatureLevel::Pleasant => WeatherKind::NoWeather,
            TemperatureLevel::Cold => WeatherKind::Cold,
            TemperatureLevel::VeryCold => WeatherKind::Snow,
        }
    }
}

/// What a weather change asks of the particle system.
#[derive(Clone, Copy, Debug, PartialEq, Eq, Structural)]
pub struct WeatherChange {
    /// Take the snow spawner out.
    pub remove_snow: bool,
    /// Put the snow spawner in.
    pub add_snow: bool,
}

/// What moving from weather `from` to the weather of temperature `t` asks of the particle
/// system: when the weather changes, snow stops if it snowed and starts if it now snows.
pub open spec fn weather_change(from: WeatherKind, t: TemperatureLevel) -> WeatherChange {
    let to = weather_for(t);
    WeatherChange {
        remove_snow: from != to && from == WeatherKind::Snow,
        add_snow: from != to && to == WeatherKind::Snow,
    }
}

/// A second tick at the same temperature changes nothing: the weather is already that of the
/// temperature, so no snow is taken out or put in; and no tick both takes snow out and puts it in.
pub proof fn lemma_weather_settles(from: WeatherKind, t: TemperatureLevel)
    ensures
        weather_change(weather_for(t), t) == (WeatherChange { remove_snow: false, add_snow: false }),
        !(weather_change(from, t).remove_snow && weather_change(from, t).add_snow),
{
}

/// The current weather.
pub struct Weather {
    kind: WeatherKind,
}

impl Weather {
    pub closed spec fn current(self) -> WeatherKind {
        self.kind
    }

    /// No weather.
    pub fn new() -> (r: Self)
        ensures
            r.current() == WeatherKind::NoWeather,
    {
        Weather { kind: WeatherKind::NoWeather }
    }

    /// Follows the temperature: when the weather changes, snow stops if it snowed and
    /// starts if it now snows.
    pub fn tick(&mut self, temperature_level: TemperatureLevel) -> (r: WeatherChange)
        ensures
            final(self).current() == weather_for(temperature_level),
            r == weather_change(old(self).current(), temperature_level),
    {
        let next_kind = WeatherKind::from_temperature(temperature_level);
        let mut change = WeatherChange { remove_snow: false, add_snow: false };
        if self.kind != next_kind {
            match self.kind {
                WeatherKind::Snow => {
                    change.remove_snow = true;
                },
                _ => {},
            }
            match next_kind {
                WeatherKind::Snow => {
                    change.add_snow = true;
                },
                _ => {},
            }
            self.kind = next_kind;
        }
        change
    }

    /// The pet shivers in the cold and in the snow.
    pub fn should_shake(&self) -> (r: bool)
        ensures
            r == (self.current() == WeatherKind::Cold || self.current() == WeatherKind::Snow),
    {
        match self.kind {
            WeatherKind::Cold | WeatherKind::Snow => true,
            _ => false,
        }
    }

    pub fn is_weather_none(&self) -> (r: bool)
        ensures
            r == (self.current() == WeatherKind::NoWeather),
    {
        matches!(self.kind, WeatherKind::NoWeather)
    }
}

impl Default for Weather {
    fn default() -> (r: Self)
        ensures
            r.current() == WeatherKind::NoWeather,
    {
        Weather::new()
    }
}

} // verus!
