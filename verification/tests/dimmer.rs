use pi_touchscreen_control::config::DimmerConfig;
use pi_touchscreen_control::dimmer::{
    apply_state, brightness_from_text, brightness_write, dim_down, dim_up, dimmer_step,
    idle_exceeds_timeout, power_from_bl_power, power_write, BacklightChange,
};
use pi_touchscreen_control::state::State;

fn config() -> DimmerConfig {
    DimmerConfig {
        use_dimmer: true,
        timeout: 30,
        backlight: "/sys/class/backlight/rpi-backlight".to_string(),
        input_devices: vec![],
        turn_backlight_off: false,
        dimmed_brightness: 30,
        full_brightness: 255,
    }
}

fn active() -> State {
    State {
        backlight_active_current: true,
        backlight_active_dimmed: true,
        brightness_current: 255,
        brightness_dimmed: 30,
        brightness_full: 255,
        use_dimmer: true,
        timeout: 30,
    }
}

#[test]
fn dim_down_sets_dimmed_values() {
    let current = active();
    let mut state = current;
    dim_down(&current, &mut state);
    assert_eq!(state, State { brightness_current: 30, ..current });
}

#[test]
fn dim_down_turns_backlight_off_when_configured() {
    let current = State { backlight_active_dimmed: false, ..active() };
    let mut state = current;
    dim_down(&current, &mut state);
    assert!(!state.backlight_active_current);
    assert_eq!(state.brightness_current, 30);
}

#[test]
fn dim_down_uses_the_shared_settings() {
    let current = active();
    let mut state = State { brightness_dimmed: 5, ..current };
    dim_down(&current, &mut state);
    assert_eq!(state.brightness_current, 5);
}

#[test]
fn dim_down_does_nothing_when_already_dimmed() {
    let current = State { brightness_current: 30, ..active() };
    let mut state = State { brightness_dimmed: 5, ..current };
    let before = state;
    dim_down(&current, &mut state);
    assert_eq!(state, before);
}

#[test]
fn dim_up_restores_full_brightness() {
    let current = State { backlight_active_current: false, brightness_current: 30, ..active() };
    let mut state = current;
    dim_up(&current, &mut state);
    assert!(state.backlight_active_current);
    assert_eq!(state.brightness_current, 255);
}

#[test]
fn dim_up_does_nothing_when_already_active() {
    let current = active();
    let mut state = State { brightness_full: 100, ..current };
    let before = state;
    dim_up(&current, &mut state);
    assert_eq!(state, before);
}

#[test]
fn dim_up_after_dim_down_gives_back_the_active_state() {
    let s = active();
    let mut dimmed = s;
    dim_down(&s, &mut dimmed);
    let mut restored = dimmed;
    dim_up(&dimmed, &mut restored);
    assert_eq!(restored, s);
}

#[test]
fn dimming_twice_changes_nothing_more() {
    let s = active();
    let mut once = s;
    dim_down(&s, &mut once);
    let mut twice = once;
    dim_down(&once, &mut twice);
    assert_eq!(once, twice);
}

#[test]
fn idle_compares_like_durations() {
    assert!(!idle_exceeds_timeout(30, 0, 30));
    assert!(idle_exceeds_timeout(30, 1, 30));
    assert!(idle_exceeds_timeout(31, 0, 30));
    assert!(!idle_exceeds_timeout(29, 999_999_999, 30));
}

#[test]
fn dimmer_step_dims_down_after_timeout() {
    let current = active();
    let mut state = current;
    dimmer_step(&current, &mut state, false, 31, 0);
    assert_eq!(state.brightness_current, 30);
}

#[test]
fn dimmer_step_dims_up_on_touch() {
    let current = State { brightness_current: 30, ..active() };
    let mut state = current;
    dimmer_step(&current, &mut state, true, 0, 0);
    assert_eq!(state.brightness_current, 255);
}

#[test]
fn dimmer_step_without_dimmer_changes_nothing() {
    let current = State { use_dimmer: false, ..active() };
    let mut state = current;
    dimmer_step(&current, &mut state, true, 1000, 0);
    assert_eq!(state, current);
}

#[test]
fn apply_state_writes_changed_values() {
    let previous = active();
    let new = State { backlight_active_current: false, brightness_current: 7, ..previous };
    let writes = apply_state(&config(), &previous, &new);
    assert_eq!(writes.len(), 2);
    assert_eq!(writes[0].change, BacklightChange::Power(false));
    assert_eq!(writes[0].path, "/sys/class/backlight/rpi-backlight/bl_power");
    assert_eq!(writes[0].contents, b"1".to_vec());
    assert_eq!(writes[1].change, BacklightChange::Brightness(7));
    assert_eq!(writes[1].path, "/sys/class/backlight/rpi-backlight/brightness");
    assert_eq!(writes[1].contents, b"7".to_vec());
}

#[test]
fn apply_state_writes_nothing_for_same_backlight() {
    let previous = active();
    let new = State { brightness_full: 3, use_dimmer: false, ..previous };
    assert!(apply_state(&config(), &previous, &new).is_empty());
}

#[test]
fn power_write_contents() {
    assert_eq!(power_write(&config(), true).contents, b"0".to_vec());
    assert_eq!(power_write(&config(), false).contents, b"1".to_vec());
}

#[test]
fn brightness_write_is_decimal() {
    assert_eq!(brightness_write(&config(), 255).contents, b"255".to_vec());
    assert_eq!(brightness_write(&config(), 0).contents, b"0".to_vec());
    assert_eq!(brightness_write(&config(), 10).contents, b"10".to_vec());
}

#[test]
fn power_reads_back() {
    for p in [true, false] {
        let w = power_write(&config(), p);
        assert_eq!(power_from_bl_power(w.contents[0]), p);
    }
}

#[test]
fn brightness_reads_back() {
    for b in 0..=255u8 {
        let w = brightness_write(&config(), b);
        let text = String::from_utf8(w.contents).unwrap();
        assert_eq!(brightness_from_text(&text), Some(b));
    }
}

#[test]
fn brightness_text_is_trimmed_and_parsed() {
    assert_eq!(brightness_from_text(" 42\n"), Some(42));
    assert_eq!(brightness_from_text("\u{3000}+7\t"), Some(7));
    assert_eq!(brightness_from_text("256"), None);
    assert_eq!(brightness_from_text(""), None);
    assert_eq!(brightness_from_text("-1"), None);
    assert_eq!(brightness_from_text("4 2"), None);
}

#[test]
fn dimmer_step_with_zero_timeout_dims_right_after_a_touch() {
    let current = State { timeout: 0, ..active() };
    let mut state = current;
    dimmer_step(&current, &mut state, true, 0, 5);
    assert_eq!(state.brightness_current, 30);
}

#[test]
fn dimmer_step_touch_within_timeout_keeps_screen_active() {
    let current = State { brightness_current: 30, backlight_active_current: false, ..active() };
    let mut state = current;
    dimmer_step(&current, &mut state, true, 0, 5);
    assert!(state.backlight_active_current);
    assert_eq!(state.brightness_current, 255);
}
