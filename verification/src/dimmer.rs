//! The automatic dimmer: when to dim, what to write to the backlight, and how
//! the backlight's files are read.
use vstd::prelude::*;
use vstd::utf8::{encode_utf8, encode_utf8_decode_utf8};
use crate::config::DimmerConfig;
use crate::number::{decimal, format_decimal, lemma_decimal_digits, lemma_parse_decimal, parse_unsigned, parse_unsigned_text};
use crate::state::State;

verus! {

/// Whether the screen is not yet in its dimmed state: on although it should be
/// off while dimmed, or not at the dimmed brightness.
pub open spec fn should_dim_down(s: State) -> bool {
    (s.backlight_active_current && !s.backlight_active_dimmed) || s.brightness_current != s.brightness_dimmed
}

/// Whether the screen is not yet in its active state: off, or not at full brightness.
pub open spec fn should_dim_up(s: State) -> bool {
    !s.backlight_active_current || s.brightness_current != s.brightness_full
}

/// `state` after dimming down, decided on the snapshot `current`: the shown
/// power and brightness become the dimmed ones of `state`.
pub open spec fn dimmed_down(current: State, state: State) -> State {
    if should_dim_down(current) {
        State {
            backlight_active_current: state.backlight_active_dimmed,
            brightness_current: state.brightness_dimmed,
            ..state
        }
    } else {
        state
    }
}

/// `state` after dimming up, decided on the snapshot `current`: the backlight
/// is on at the full brightness of `state`.
pub open spec fn dimmed_up(current: State, state: State) -> State {
    if should_dim_up(current) {
        State { backlight_active_current: true, brightness_current: state.brightness_full, ..state }
    } else {
        state
    }
}

/// Dims the screen down after inactivity, where the snapshot `current_state`
/// shows that it is not dimmed yet.
pub fn dim_down(current_state: &State, state: &mut State)
    ensures
        *final(state) == dimmed_down(*current_state, *old(state)),
{
    if (current_state.backlight_active_current && !current_state.backlight_active_dimmed)
        || current_state.brightness_current != current_state.brightness_dimmed {
        state.backlight_active_current = state.backlight_active_dimmed;
        state.brightness_current = state.brightness_dimmed;
    }
}

/// Brings the screen back to full brightness on a touch, where the snapshot
/// `current_state` shows that it is not there yet.
pub fn dim_up(current_state: &State, state: &mut State)
    ensures
        *final(state) == dimmed_up(*current_state, *old(state)),
{
    if !current_state.backlight_active_current || current_state.brightness_current != current_state.brightness_full {
        state.backlight_active_current = true;
        state.brightness_current = state.brightness_full;
    }
}

/// Whether an idle period of `idle_secs` seconds and `idle_nanos` nanoseconds
/// is longer than a timeout of `timeout` whole seconds.
pub open spec fn idle_exceeds(idle_secs: u64, idle_nanos: u32, timeout: u64) -> bool {
    idle_secs > timeout || (idle_secs == timeout && idle_nanos > 0)
}

/// Compares an idle period with the timeout, as `Duration` compares them.
pub fn idle_exceeds_timeout(idle_secs: u64, idle_nanos: u32, timeout: u64) -> (r: bool)
    ensures
        r == idle_exceeds(idle_secs, idle_nanos, timeout),
{
    idle_secs > timeout || (idle_secs == timeout && idle_nanos > 0)
}

/// `state` after one round of the dimmer, decided on the snapshot `current`.
pub open spec fn dimmer_round(current: State, state: State, touched: bool, idle_secs: u64, idle_nanos: u32) -> State {
    if current.use_dimmer {
        let after_touch = if touched { dimmed_up(current, state) } else { state };
        if idle_exceeds(idle_secs, idle_nanos, current.timeout) {
            dimmed_down(current, after_touch)
        } else {
            after_touch
        }
    } else {
        state
    }
}

/// One round of the dimmer on the snapshot `current_state`: where dimming is on,
/// a touch dims up, and an idle period (measured after the touch) longer than
/// the timeout dims down.
pub fn dimmer_step(current_state: &State, state: &mut State, touched: bool, idle_secs: u64, idle_nanos: u32)
    ensures
        *final(state) == dimmer_round(*current_state, *old(state), touched, idle_secs, idle_nanos),
        !current_state.use_dimmer ==> *final(state) == *old(state),
{
    if current_state.use_dimmer {
        if touched {
            dim_up(current_state, state);
        }
        if idle_exceeds_timeout(idle_secs, idle_nanos, current_state.timeout) {
            dim_down(current_state, state);
        }
    }
}

/// A change to the backlight hardware.
#[derive(Clone, Copy, PartialEq, Eq, Debug, Structural)]
pub enum BacklightChange {
    /// Switch the backlight on or off.
    Power(bool),
    /// Set the brightness.
    Brightness(u8),
}

/// A write of `contents` to the sysfs file at `path`, and the change it makes.
pub struct BacklightWrite {
    pub change: BacklightChange,
    pub path: String,
    pub contents: Vec<u8>,
}

/// What the `bl_power` file holds for a power setting: `0` for on, `1` for off.
pub open spec fn power_contents(power: bool) -> Seq<u8> {
    if power {
        seq![48u8]
    } else {
        seq![49u8]
    }
}

/// The file that a change is written to, and what is written.
pub open spec fn write_matches(config: DimmerConfig, w: BacklightWrite) -> bool {
    match w.change {
        BacklightChange::Power(p) => {
            &&& w.path@ == config.backlight@ + "/bl_power"@
            &&& w.contents@ == power_contents(p)
        },
        BacklightChange::Brightness(b) => {
            &&& w.path@ == config.backlight@ + "/brightness"@
            &&& w.contents@ == encode_utf8(decimal(b as nat))
        },
    }
}

/// The write that switches the backlight on or off.
pub fn power_write(config: &DimmerConfig, power: bool) -> (w: BacklightWrite)
    ensures
        w.change == BacklightChange::Power(power),
        write_matches(*config, w),
{
    let mut path = config.backlight.clone();
    path.append("/bl_power");
    let mut contents: Vec<u8> = Vec::new();
    if power {
        contents.push(48u8);
    } else {
        contents.push(49u8);
    }
    proof {
        assert(contents@ =~= power_contents(power));
    }
    BacklightWrite { change: BacklightChange::Power(power), path, contents }
}

/// The write that sets the brightness, in decimal as `u8::to_string` writes it.
pub fn brightness_write(config: &DimmerConfig, brightness: u8) -> (w: BacklightWrite)
    ensures
        w.change == BacklightChange::Brightness(brightness),
        write_matches(*config, w),
{
    let mut path = config.backlight.clone();
    path.append("/brightness");
    let text = format_decimal(brightness as u64);
    let contents = vstd::slice::slice_to_vec(text.as_str().as_bytes());
    BacklightWrite { change: BacklightChange::Brightness(brightness), path, contents }
}

/// The changes that bring the backlight from `previous` to `new`: power first,
/// then brightness, each only where it differs.
pub open spec fn backlight_changes(previous: State, new: State) -> Seq<BacklightChange> {
    (if previous.backlight_active_current != new.backlight_active_current {
        seq![BacklightChange::Power(new.backlight_active_current)]
    } else {
        Seq::empty()
    }) + (if previous.brightness_current != new.brightness_current {
        seq![BacklightChange::Brightness(new.brightness_current)]
    } else {
        Seq::empty()
    })
}

/// The writes that make the backlight show `new_state` where it showed `previous_state`.
pub fn apply_state(config: &DimmerConfig, previous_state: &State, new_state: &State) -> (writes: Vec<BacklightWrite>)
    ensures
        writes@.map_values(|w: BacklightWrite| w.change) == backlight_changes(*previous_state, *new_state),
        forall|i: int| 0 <= i < writes@.len() ==> write_matches(*config, #[trigger] writes@[i]),
{
    let mut writes: Vec<BacklightWrite> = Vec::new();
    if previous_state.backlight_active_current != new_state.backlight_active_current {
        writes.push(power_write(config, new_state.backlight_active_current));
    }
    if previous_state.brightness_current != new_state.brightness_current {
        writes.push(brightness_write(config, new_state.brightness_current));
    }
    proof {
        assert(writes@.map_values(|w: BacklightWrite| w.change) =~= backlight_changes(*previous_state, *new_state));
    }
    writes
}

/// What the backlight shows: whether it is on, and its brightness.
pub struct Backlight {
    pub power: bool,
    pub brightness: u8,
}

/// The backlight after the changes, made in order.
pub open spec fn after_changes(b: Backlight, changes: Seq<BacklightChange>) -> Backlight
    decreases changes.len(),
{
    if changes.len() == 0 {
        b
    } else {
        let next = match changes[0] {
            BacklightChange::Power(p) => Backlight { power: p, ..b },
            BacklightChange::Brightness(v) => Backlight { brightness: v, ..b },
        };
        after_changes(next, changes.drop_first())
    }
}

/// The changes of `apply_state` bring a backlight that shows `previous` to one that shows `new`.
pub proof fn lemma_apply_state_reaches_new(previous: State, new: State)
    ensures
        after_changes(
            Backlight { power: previous.backlight_active_current, brightness: previous.brightness_current },
            backlight_changes(previous, new),
        ) == (Backlight { power: new.backlight_active_current, brightness: new.brightness_current }),
{
    let changes = backlight_changes(previous, new);
    let start = Backlight { power: previous.backlight_active_current, brightness: previous.brightness_current };
    reveal_with_fuel(after_changes, 3);
    if previous.backlight_active_current != new.backlight_active_current {
        if previous.brightness_current != new.brightness_current {
            assert(changes.drop_first() =~= seq![BacklightChange::Brightness(new.brightness_current)]);
            assert(changes.drop_first().drop_first() =~= Seq::<BacklightChange>::empty());
        } else {
            assert(changes.drop_first() =~= Seq::<BacklightChange>::empty());
        }
    } else {
        if previous.brightness_current != new.brightness_current {
            assert(changes =~= seq![BacklightChange::Brightness(new.brightness_current)]);
            assert(changes.drop_first() =~= Seq::<BacklightChange>::empty());
        } else {
            assert(changes =~= Seq::<BacklightChange>::empty());
        }
    }
}

/// A backlight that shows a state needs no change to show it again.
pub proof fn lemma_apply_state_unchanged(s: State)
    ensures
        backlight_changes(s, s) == Seq::<BacklightChange>::empty(),
{
    assert(backlight_changes(s, s) =~= Seq::<BacklightChange>::empty());
}

/// Dimming down a screen and then dimming it down again changes nothing more.
pub proof fn lemma_dim_down_settles(s: State)
    ensures
        !should_dim_down(dimmed_down(s, s)),
        dimmed_down(dimmed_down(s, s), dimmed_down(s, s)) == dimmed_down(s, s),
{
}

/// Dimming up a screen and then dimming it up again changes nothing more.
pub proof fn lemma_dim_up_settles(s: State)
    ensures
        !should_dim_up(dimmed_up(s, s)),
        dimmed_up(dimmed_up(s, s), dimmed_up(s, s)) == dimmed_up(s, s),
{
}

/// A touch after dimming brings the backlight back on at full brightness,
/// and keeps the user's settings.
pub proof fn lemma_touch_after_dimming(s: State)
    ensures
        ({
            let dimmed = dimmed_down(s, s);
            let restored = dimmed_up(dimmed, dimmed);
            &&& restored.backlight_active_current
            &&& restored.brightness_current == s.brightness_full
            &&& restored.backlight_active_dimmed == s.backlight_active_dimmed
            &&& restored.brightness_dimmed == s.brightness_dimmed
            &&& restored.brightness_full == s.brightness_full
            &&& restored.use_dimmer == s.use_dimmer
            &&& restored.timeout == s.timeout
        }),
{
}

/// After an idle period longer than the timeout, with dimming on, the screen is
/// at the dimmed brightness, and on only where it is to stay on while dimmed.
pub proof fn lemma_inactivity_dims(s: State, idle_secs: u64, idle_nanos: u32)
    requires
        s.use_dimmer,
        idle_exceeds(idle_secs, idle_nanos, s.timeout),
    ensures
        ({
            let t = dimmer_round(s, s, false, idle_secs, idle_nanos);
            &&& !should_dim_down(t)
            &&& t.brightness_current == s.brightness_dimmed
            &&& (t.backlight_active_current ==> s.backlight_active_dimmed)
        }),
{
}

/// A touch within the timeout, with dimming on, brings the screen to its active state.
pub proof fn lemma_touch_activates(s: State, idle_secs: u64, idle_nanos: u32)
    requires
        s.use_dimmer,
        !idle_exceeds(idle_secs, idle_nanos, s.timeout),
    ensures
        ({
            let t = dimmer_round(s, s, true, idle_secs, idle_nanos);
            &&& !should_dim_up(t)
            &&& t.backlight_active_current
            &&& t.brightness_current == s.brightness_full
        }),
{
}

/// Without a touch, a round whose idle period is at most the timeout changes
/// nothing, whatever the state: the screen dims only after the timeout.
pub proof fn lemma_no_dimming_before_timeout(current: State, state: State, idle_secs: u64, idle_nanos: u32)
    requires
        idle_secs < current.timeout || (idle_secs == current.timeout && idle_nanos == 0),
    ensures
        dimmer_round(current, state, false, idle_secs, idle_nanos) == state,
{
}

/// Without a touch, a round whose idle period is longer than the timeout
/// brings a screen that is not at the dimmed brightness to it, and keeps the
/// user's settings.
pub proof fn lemma_dimming_after_timeout(current: State, state: State, idle_secs: u64, idle_nanos: u32)
    requires
        current.use_dimmer,
        idle_secs > current.timeout || (idle_secs == current.timeout && idle_nanos > 0),
        current.brightness_current != current.brightness_dimmed,
    ensures
        ({
            let t = dimmer_round(current, state, false, idle_secs, idle_nanos);
            &&& t.brightness_current == state.brightness_dimmed
            &&& t.backlight_active_current == state.backlight_active_dimmed
            &&& t.backlight_active_dimmed == state.backlight_active_dimmed
            &&& t.brightness_dimmed == state.brightness_dimmed
            &&& t.brightness_full == state.brightness_full
            &&& t.use_dimmer == state.use_dimmer
            &&& t.timeout == state.timeout
        }),
{
}

/// With dimming off, a round changes nothing, touched or not, however long the idle period.
pub proof fn lemma_dimming_off(current: State, state: State, touched: bool, idle_secs: u64, idle_nanos: u32)
    requires
        !current.use_dimmer,
    ensures
        dimmer_round(current, state, touched, idle_secs, idle_nanos) == state,
{
}

/// A touch within the timeout, with dimming on, switches the backlight on at
/// the full brightness of the shared state, where the snapshot was not so.
pub proof fn lemma_touch_within_timeout(current: State, state: State, idle_secs: u64, idle_nanos: u32)
    requires
        current.use_dimmer,
        idle_secs < current.timeout || (idle_secs == current.timeout && idle_nanos == 0),
        !current.backlight_active_current || current.brightness_current != current.brightness_full,
    ensures
        ({
            let t = dimmer_round(current, state, true, idle_secs, idle_nanos);
            &&& t.backlight_active_current
            &&& t.brightness_current == state.brightness_full
            &&& t.backlight_active_dimmed == state.backlight_active_dimmed
            &&& t.brightness_dimmed == state.brightness_dimmed
            &&& t.brightness_full == state.brightness_full
            &&& t.use_dimmer == state.use_dimmer
            &&& t.timeout == state.timeout
        }),
{
}

/// Dimming down touches only the shown power and brightness, which become the
/// dimmed ones of the shared state where the snapshot is not yet dimmed, and
/// stay where the snapshot is dimmed already.
pub proof fn lemma_dim_down_effect(current: State, state: State)
    ensures
        ({
            let t = dimmed_down(current, state);
            &&& t.backlight_active_dimmed == state.backlight_active_dimmed
            &&& t.brightness_dimmed == state.brightness_dimmed
            &&& t.brightness_full == state.brightness_full
            &&& t.use_dimmer == state.use_dimmer
            &&& t.timeout == state.timeout
            &&& current.brightness_current != current.brightness_dimmed ==> t.brightness_current
                == state.brightness_dimmed && t.backlight_active_current == state.backlight_active_dimmed
            &&& current.backlight_active_current && !current.backlight_active_dimmed ==> t.brightness_current
                == state.brightness_dimmed && t.backlight_active_current == state.backlight_active_dimmed
            &&& current.brightness_current == current.brightness_dimmed && (current.backlight_active_current
                ==> current.backlight_active_dimmed) ==> t == state
        }),
{
}

/// Dimming up touches only the shown power and brightness, which become on and
/// the full brightness of the shared state where the snapshot is not yet
/// active, and stay where it is active already.
pub proof fn lemma_dim_up_effect(current: State, state: State)
    ensures
        ({
            let t = dimmed_up(current, state);
            &&& t.backlight_active_dimmed == state.backlight_active_dimmed
            &&& t.brightness_dimmed == state.brightness_dimmed
            &&& t.brightness_full == state.brightness_full
            &&& t.use_dimmer == state.use_dimmer
            &&& t.timeout == state.timeout
            &&& (!current.backlight_active_current || current.brightness_current != current.brightness_full)
                ==> t.backlight_active_current && t.brightness_current == state.brightness_full
            &&& current.backlight_active_current && current.brightness_current == current.brightness_full
                ==> t == state
        }),
{
}

/// Whether the first byte of `bl_power` says that the backlight is on.
pub fn power_from_bl_power(first_byte: u8) -> (on: bool)
    ensures
        on == (first_byte == 48u8),
{
    first_byte == 48u8
}

/// Whether `c` is white space in Unicode's sense (`char::is_whitespace`).
pub open spec fn is_white_space(c: char) -> bool {
    ('\u{9}' <= c && c <= '\u{d}') || c == ' ' || c == '\u{85}' || c == '\u{a0}' || c == '\u{1680}'
        || ('\u{2000}' <= c && c <= '\u{200a}') || c == '\u{2028}' || c == '\u{2029}' || c == '\u{202f}'
        || c == '\u{205f}' || c == '\u{3000}'
}

/// `s` without its leading white space.
pub open spec fn trim_start_white_space(s: Seq<char>) -> Seq<char>
    decreases s.len(),
{
    if s.len() > 0 && is_white_space(s[0]) {
        trim_start_white_space(s.drop_first())
    } else {
        s
    }
}

/// `s` without its trailing white space.
pub open spec fn trim_end_white_space(s: Seq<char>) -> Seq<char>
    decreases s.len(),
{
    if s.len() > 0 && is_white_space(s.last()) {
        trim_end_white_space(s.drop_last())
    } else {
        s
    }
}

/// `s` without leading and trailing white space, as `str::trim` gives it.
pub open spec fn trim_white_space(s: Seq<char>) -> Seq<char> {
    trim_end_white_space(trim_start_white_space(s))
}

/// Whether `c` is white space, as `char::is_whitespace` tells.
fn is_white_space_char(c: char) -> (r: bool)
    ensures
        r == is_white_space(c),
{
    ('\u{9}' <= c && c <= '\u{d}') || c == ' ' || c == '\u{85}' || c == '\u{a0}' || c == '\u{1680}'
        || ('\u{2000}' <= c && c <= '\u{200a}') || c == '\u{2028}' || c == '\u{2029}' || c == '\u{202f}'
        || c == '\u{205f}' || c == '\u{3000}'
}

/// `s` without leading and trailing white space, as `str::trim` gives it.
fn trim(s: &str) -> (r: &str)
    ensures
        r@ == trim_white_space(s@),
{
    let n = s.unicode_len();
    let mut start: usize = 0;
    proof {
        assert(s@.subrange(0, n as int) =~= s@);
    }
    while start < n
        invariant
            start <= n,
            n == s@.len(),
            trim_start_white_space(s@) == trim_start_white_space(s@.subrange(start as int, n as int)),
        ensures
            start <= n,
            trim_start_white_space(s@) == trim_start_white_space(s@.subrange(start as int, n as int)),
            start < n ==> !is_white_space(s@[start as int]),
        decreases n - start,
    {
        if !is_white_space_char(s.get_char(start)) {
            break;
        }
        proof {
            let t = s@.subrange(start as int, n as int);
            assert(t[0] == s@[start as int]);
            assert(t.drop_first() =~= s@.subrange(start + 1, n as int));
        }
        start = start + 1;
    }
    proof {
        let t = s@.subrange(start as int, n as int);
        if start < n {
            assert(t[0] == s@[start as int]);
        } else {
            assert(t =~= Seq::<char>::empty());
        }
        assert(trim_start_white_space(t) == t);
    }
    let mut end: usize = n;
    while end > start
        invariant
            start <= end <= n,
            n == s@.len(),
            trim_white_space(s@) == trim_end_white_space(s@.subrange(start as int, end as int)),
        ensures
            start <= end <= n,
            trim_white_space(s@) == trim_end_white_space(s@.subrange(start as int, end as int)),
            end > start ==> !is_white_space(s@[end - 1]),
        decreases end - start,
    {
        if !is_white_space_char(s.get_char(end - 1)) {
            break;
        }
        proof {
            let t = s@.subrange(start as int, end as int);
            assert(t.last() == s@[end - 1]);
            assert(t.drop_last() =~= s@.subrange(start as int, end - 1));
        }
        end = end - 1;
    }
    proof {
        let t = s@.subrange(start as int, end as int);
        if end > start {
            assert(t.last() == s@[end - 1]);
        } else {
            assert(t =~= Seq::<char>::empty());
        }
        assert(trim_end_white_space(t) == t);
    }
    s.substring_char(start, end)
}

/// The brightness that the text of `actual_brightness` gives: its trimmed text
/// read as a `u8`.
pub open spec fn brightness_from_text_spec(text: Seq<char>) -> Option<nat> {
    parse_unsigned(trim_white_space(text), 255)
}

/// Reads the brightness from the text of the `actual_brightness` file; `None`
/// where it is not a `u8`.
pub fn brightness_from_text(text: &str) -> (r: Option<u8>)
    ensures
        r is Some <==> brightness_from_text_spec(text@) is Some,
        r matches Some(v) ==> v as nat == brightness_from_text_spec(text@)->0,
{
    let trimmed = trim(text);
    match parse_unsigned_text(trimmed, 255) {
        Some(v) => Some(v as u8),
        None => None,
    }
}

/// The power that `bl_power` holds after a power write reads back as that power.
pub proof fn lemma_power_read_back(power: bool)
    ensures
        power_contents(power).len() == 1,
        (power_contents(power)[0] == 48u8) == power,
{
}

/// A file holding the bytes of a brightness write reads back as that brightness.
pub proof fn lemma_brightness_read_back(text: Seq<char>, brightness: u8)
    requires
        encode_utf8(text) == encode_utf8(decimal(brightness as nat)),
    ensures
        brightness_from_text_spec(text) == Some(brightness as nat),
{
    encode_utf8_decode_utf8(text);
    encode_utf8_decode_utf8(decimal(brightness as nat));
    let d = decimal(brightness as nat);
    assert(text == d);
    lemma_decimal_digits(brightness as nat);
    assert(!is_white_space(d[0]));
    assert(trim_start_white_space(d) == d);
    assert(!is_white_space(d.last()));
    assert(trim_end_white_space(d) == d);
    lemma_parse_decimal(brightness as nat, 255);
}

/// A power write and a brightness write go to two different files in the
/// backlight's directory, and a power write holds one byte.
pub proof fn lemma_write_files(config: DimmerConfig, p: BacklightWrite, b: BacklightWrite)
    requires
        write_matches(config, p),
        write_matches(config, b),
        p.change is Power,
        b.change is Brightness,
    ensures
        p.path@ != b.path@,
        p.path@.subrange(0, config.backlight@.len() as int) == config.backlight@,
        b.path@.subrange(0, config.backlight@.len() as int) == config.backlight@,
        p.contents@.len() == 1,
        b.contents@.len() >= 1,
{
    reveal_strlit("/bl_power");
    reveal_strlit("/brightness");
    assert(p.path@.len() != b.path@.len());
    assert(p.path@.subrange(0, config.backlight@.len() as int) =~= config.backlight@);
    assert(b.path@.subrange(0, config.backlight@.len() as int) =~= config.backlight@);
    let n = b.change->Brightness_0;
    lemma_decimal_digits(n as nat);
    vstd::utf8::encode_utf8_decode_utf8(decimal(n as nat));
    if encode_utf8(decimal(n as nat)).len() == 0 {
        assert(encode_utf8(decimal(n as nat)) =~= Seq::<u8>::empty());
        assert(vstd::utf8::decode_utf8(Seq::<u8>::empty()) =~= Seq::<char>::empty());
    }
}

} // verus!
