//! The shared state of the backlight: what is shown now and what the user chose.
use vstd::prelude::*;
use crate::config::DimmerConfig;

verus! {

/// The state that the dimmer and the MQTT side share.
#[derive(Clone, Copy, PartialEq, Eq, Debug, Structural)]
pub struct State {
    /// Whether the backlight is on now.
    pub backlight_active_current: bool,
    /// Whether the backlight stays on while dimmed.
    pub backlight_active_dimmed: bool,
    /// The brightness shown now.
    pub brightness_current: u8,
    /// The brightness while the screen is inactive.
    pub brightness_dimmed: u8,
    /// The brightness while the screen is in use.
    pub brightness_full: u8,
    /// Whether the screen dims by itself after the timeout.
    pub use_dimmer: bool,
    /// Inactivity period before dimming, in whole seconds.
    pub timeout: u64,
}

impl State {
    /// The state at start: the backlight as it is found, the rest from the configuration.
    pub fn new(config: &DimmerConfig, backlight_active_current: bool, brightness_current: u8) -> (s: State)
        ensures
            s.backlight_active_current == backlight_active_current,
            s.backlight_active_dimmed == !config.turn_backlight_off,
            s.brightness_current == brightness_current,
            s.brightness_dimmed == config.dimmed_brightness,
            s.brightness_full == config.full_brightness,
            s.use_dimmer == config.use_dimmer,
            s.timeout == config.timeout,
    {
        State {
            backlight_active_current,
            backlight_active_dimmed: !config.turn_backlight_off,
            brightness_current,
            brightness_dimmed: config.dimmed_brightness,
            brightness_full: config.full_brightness,
            use_dimmer: config.use_dimmer,
            timeout: config.timeout,
        }
    }
}

} // verus!
