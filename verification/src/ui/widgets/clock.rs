//! The clock: the time in several zones, and a stopwatch.

use crate::config::{ClockConfig, Position};
use crate::text::{chars_of, decimal, decimal_of, push_all, string_of};
use crate::ui::widgets::{make_widget_id, widget_id};
use std::time::{Duration, Instant};
use vstd::prelude::*;

verus! {

/// A point in time of the machine's monotonic clock.
#[verifier::external_type_specification]
#[verifier::external_body]
pub struct ExInstant(Instant);

/// `Instant::now` of the standard library: the present moment. Nothing is
/// known of it beforehand.
pub assume_specification[ Instant::now ]() -> Instant;

/// `Instant::elapsed` of the standard library: the time that has passed
/// since the instant. Nothing is known of it beforehand.
pub assume_specification[ Instant::elapsed ](start: &Instant) -> Duration;

/// `Duration::as_nanos` of the standard library: the duration in
/// nanoseconds.
pub assume_specification[ Duration::as_nanos ](d: &Duration) -> u128;

/// The stopwatch of the clock.
#[derive(Debug, Clone)]
pub struct StopwatchState {
    /// Whether time is being taken.
    pub running: bool,
    /// The nanoseconds that were taken up to the last tick.
    pub elapsed: u128,
    /// When the stopwatch was last started or read, where it is running.
    pub last_tick: Option<Instant>,
}

impl Default for StopwatchState {
    /// A stopwatch that stands at zero.
    fn default() -> (r: Self)
        ensures
            !r.running,
            r.elapsed == 0,
            r.last_tick is None,
    {
        StopwatchState { running: false, elapsed: 0, last_tick: None }
    }
}

/// The sum of two times in nanoseconds, held at the largest number that the
/// stopwatch can show.
pub open spec fn added(elapsed: u128, more: u128) -> u128 {
    if elapsed + more > u128::MAX {
        u128::MAX
    } else {
        (elapsed + more) as u128
    }
}

/// The clock widget.
#[derive(Debug, Clone)]
pub struct Clock {
    pub id: String,
    pub title: String,
    pub position: Position,
    pub timezones: Vec<String>,
    pub selected: bool,
    pub stopwatch_state: StopwatchState,
}

/// `n` with at least two digits.
pub open spec fn two_digits(n: nat) -> Seq<char> {
    if n < 10 {
        seq!['0'] + decimal(n)
    } else {
        decimal(n)
    }
}

/// A number of seconds as `hh:mm:ss`; the hours take as many digits as
/// they need.
pub open spec fn clock_face(total_secs: nat) -> Seq<char> {
    two_digits(total_secs / 3600) + seq![':'] + two_digits((total_secs % 3600) / 60) + seq![':']
        + two_digits(total_secs % 60)
}

/// What the stopwatch says of itself beside the time.
pub open spec fn status_word(running: bool, total_secs: nat) -> Seq<char> {
    if running {
        "[Running]"@
    } else if total_secs > 0 {
        "[Paused]"@
    } else {
        "[Stopped]"@
    }
}

/// Where the last part of a time zone's name begins: after the last `/`
/// before `to`, or at the start.
pub open spec fn last_part_start(name: Seq<char>, to: int) -> int
    decreases to,
{
    if to <= 0 || to > name.len() {
        0
    } else if name[to - 1] == '/' {
        to
    } else {
        last_part_start(name, to - 1)
    }
}

/// The name of a time zone as the clock shows it: the last part of the
/// name in the time zone database, with a blank for each `_`.
pub open spec fn zone_label_of(name: Seq<char>) -> Seq<char> {
    name.skip(last_part_start(name, name.len() as int)).map_values(
        |c: char|
            if c == '_' {
                ' '
            } else {
                c
            },
    )
}

/// `s` with blanks after it up to `width` characters; `s` itself where it
/// is as long or longer.
pub open spec fn padded_to(s: Seq<char>, width: nat) -> Seq<char> {
    if s.len() >= width {
        s
    } else {
        s + Seq::new((width - s.len()) as nat, |i: int| ' ')
    }
}

/// One line of the clock: the name of a time zone, and the time and the
/// date there.
#[derive(Debug, Clone)]
pub struct ZoneLine {
    /// The name of the zone, filled up to 15 characters.
    pub name: String,
    /// The time, filled up to 10 characters.
    pub time: String,
    /// The date.
    pub date: String,
    /// Whether the zone is the machine's own.
    pub local: bool,
}

/// What a `ZoneLine` holds, as plain values.
pub ghost struct ZoneLineView {
    pub name: Seq<char>,
    pub time: Seq<char>,
    pub date: Seq<char>,
    pub local: bool,
}

impl View for ZoneLine {
    type V = ZoneLineView;

    open spec fn view(&self) -> ZoneLineView {
        ZoneLineView { name: self.name@, time: self.time@, date: self.date@, local: self.local }
    }
}

impl DeepView for ZoneLine {
    type V = ZoneLineView;

    open spec fn deep_view(&self) -> ZoneLineView {
        self@
    }
}

/// The line for a zone in which it is the given time and date.
pub open spec fn zone_line_of(
    zone: Seq<char>,
    local_zone: Seq<char>,
    reading: (Seq<char>, Seq<char>),
) -> ZoneLineView {
    ZoneLineView {
        name: padded_to(zone_label_of(zone), 15),
        time: padded_to(reading.0, 10),
        date: reading.1,
        local: zone == local_zone,
    }
}

/// The lines of the clock: one for each zone that has a reading, in the
/// order of the zones. The reading of a zone is the one at its place; a
/// zone that is not known has none.
pub open spec fn zone_lines_of(
    zones: Seq<Seq<char>>,
    local_zone: Seq<char>,
    readings: Seq<Option<(Seq<char>, Seq<char>)>>,
) -> Seq<ZoneLineView>
    decreases zones.len(),
{
    if zones.len() == 0 {
        Seq::empty()
    } else {
        let before = zone_lines_of(zones.drop_last(), local_zone, readings);
        if zones.len() <= readings.len() && readings[zones.len() - 1] is Some {
            before.push(zone_line_of(zones.last(), local_zone, readings[zones.len() - 1]->0))
        } else {
            before
        }
    }
}

/// The name of a time zone as the clock shows it.
pub fn zone_label(timezone: &str) -> (r: String)
    ensures
        r@ == zone_label_of(timezone@),
{
    let name = chars_of(timezone);
    let mut start: usize = name.len();
    while start > 0 && name[start - 1] != '/'
        invariant
            start <= name.len(),
            last_part_start(name@, name.len() as int) == last_part_start(name@, start as int),
        decreases start,
    {
        start -= 1;
    }
    let mut label: Vec<char> = Vec::new();
    let mut i: usize = start;
    while i < name.len()
        invariant
            start <= i <= name.len(),
            start == last_part_start(name@, name.len() as int),
            label@ == zone_label_of(name@).take(i - start),
        decreases name.len() - i,
    {
        let c = name[i];
        label.push(
            if c == '_' {
                ' '
            } else {
                c
            },
        );
        i += 1;
        assert(label@ =~= zone_label_of(name@).take(i - start));
    }
    assert(label@ =~= zone_label_of(name@));
    string_of(&label)
}

/// `s` with blanks after it up to `width` characters.
pub fn padded(s: &str, width: usize) -> (r: String)
    ensures
        r@ == padded_to(s@, width as nat),
{
    let mut out = chars_of(s);
    let ghost had = out@;
    while out.len() < width
        invariant
            had == s@,
            had.len() <= out.len(),
            out.len() <= width || out@ == had,
            out@ == had + Seq::new((out.len() - had.len()) as nat, |i: int| ' '),
        decreases width - out.len(),
    {
        out.push(' ');
        assert(out@ =~= had + Seq::new((out.len() - had.len()) as nat, |i: int| ' '));
    }
    assert(out@ =~= padded_to(s@, width as nat));
    string_of(&out)
}

/// Appends `n` with at least two digits.
fn push_two_digits(out: &mut Vec<char>, n: u64)
    ensures
        final(out)@ == old(out)@ + two_digits(n as nat),
{
    if n < 10 {
        out.push('0');
    }
    push_all(out, &decimal_of(n as u128));
    assert(final(out)@ =~= old(out)@ + two_digits(n as nat));
}

impl Clock {
    /// A clock as `config` sets it up, with the stopwatch at zero.
    pub fn new(config: ClockConfig) -> (r: Self)
        ensures
            r.id@ == widget_id("clock"@, config.position.row, config.position.col),
            r.title == config.title,
            r.position == config.position,
            r.timezones == config.timezones,
            !r.selected,
            !r.stopwatch_state.running,
            r.stopwatch_state.elapsed == 0,
            r.stopwatch_state.last_tick is None,
    {
        Clock {
            id: make_widget_id("clock", config.position.row, config.position.col),
            title: config.title,
            position: config.position,
            timezones: config.timezones,
            selected: false,
            stopwatch_state: StopwatchState::default(),
        }
    }

    /// Stops the stopwatch, which has run for `since_tick` nanoseconds
    /// since its last tick.
    pub fn pause(&mut self, since_tick: u128)
        ensures
            !final(self).stopwatch_state.running,
            final(self).stopwatch_state.last_tick is None,
            final(self).stopwatch_state.elapsed == if old(self).stopwatch_state.last_tick is Some {
                added(old(self).stopwatch_state.elapsed, since_tick)
            } else {
                old(self).stopwatch_state.elapsed
            },
            final(self).id == old(self).id,
            final(self).title == old(self).title,
            final(self).position == old(self).position,
            final(self).timezones == old(self).timezones,
            final(self).selected == old(self).selected,
    {
        if self.stopwatch_state.last_tick.is_some() {
            self.stopwatch_state.elapsed = self.stopwatch_state.elapsed.saturating_add(since_tick);
        }
        self.stopwatch_state.running = false;
        self.stopwatch_state.last_tick = None;
    }

    /// Starts the stopwatch at the moment `now`, from the time it shows.
    pub fn start(&mut self, now: Instant)
        ensures
            final(self).stopwatch_state.running,
            final(self).stopwatch_state.last_tick == Some(now),
            final(self).stopwatch_state.elapsed == old(self).stopwatch_state.elapsed,
            final(self).id == old(self).id,
            final(self).title == old(self).title,
            final(self).position == old(self).position,
            final(self).timezones == old(self).timezones,
            final(self).selected == old(self).selected,
    {
        self.stopwatch_state.running = true;
        self.stopwatch_state.last_tick = Some(now);
    }

    /// Takes into the stopwatch the `since_tick` nanoseconds that it has
    /// run since its last tick, and makes `now` its last tick. A stopwatch
    /// that does not run, or has no last tick, stays as it is.
    pub fn advance(&mut self, since_tick: u128, now: Instant)
        ensures
            final(self).stopwatch_state.running == old(self).stopwatch_state.running,
            old(self).stopwatch_state.running && old(self).stopwatch_state.last_tick is Some ==> {
                &&& final(self).stopwatch_state.elapsed == added(
                    old(self).stopwatch_state.elapsed,
                    since_tick,
                )
                &&& final(self).stopwatch_state.last_tick == Some(now)
            },
            !(old(self).stopwatch_state.running && old(self).stopwatch_state.last_tick is Some)
                ==> final(self).stopwatch_state == old(self).stopwatch_state,
            final(self).id == old(self).id,
            final(self).title == old(self).title,
            final(self).position == old(self).position,
            final(self).timezones == old(self).timezones,
            final(self).selected == old(self).selected,
    {
        if self.stopwatch_state.running && self.stopwatch_state.last_tick.is_some() {
            self.stopwatch_state.elapsed = self.stopwatch_state.elapsed.saturating_add(since_tick);
            self.stopwatch_state.last_tick = Some(now);
        }
    }

    /// The nanoseconds since the last tick, as the machine's clock tells
    /// them now; zero where there is no last tick.
    pub fn since_last_tick(&self) -> (r: u128)
        ensures
            self.stopwatch_state.last_tick is None ==> r == 0,
    {
        match &self.stopwatch_state.last_tick {
            Some(last_tick) => last_tick.elapsed().as_nanos(),
            None => 0,
        }
    }

    /// Starts the stopwatch where it stands, and stops it where it runs.
    /// The time it has run since its last tick is read from the machine's
    /// clock and added to what it shows.
    pub fn toggle_stopwatch(&mut self)
        ensures
            final(self).stopwatch_state.running == !old(self).stopwatch_state.running,
            old(self).stopwatch_state.running ==> final(self).stopwatch_state.last_tick is None
                && final(self).stopwatch_state.elapsed >= old(self).stopwatch_state.elapsed,
            !old(self).stopwatch_state.running ==> final(self).stopwatch_state.last_tick is Some
                && final(self).stopwatch_state.elapsed == old(self).stopwatch_state.elapsed,
            old(self).stopwatch_state.running && old(self).stopwatch_state.last_tick is None
                ==> final(self).stopwatch_state.elapsed == old(self).stopwatch_state.elapsed,
            final(self).id == old(self).id,
            final(self).title == old(self).title,
            final(self).position == old(self).position,
            final(self).timezones == old(self).timezones,
            final(self).selected == old(self).selected,
    {
        if self.stopwatch_state.running {
            let since_tick = self.since_last_tick();
            self.pause(since_tick);
        } else {
            self.start(Instant::now());
        }
    }

    /// Sets the stopwatch back to zero and stops it.
    pub fn reset_stopwatch(&mut self)
        ensures
            !final(self).stopwatch_state.running,
            final(self).stopwatch_state.elapsed == 0,
            final(self).stopwatch_state.last_tick is None,
            final(self).id == old(self).id,
            final(self).title == old(self).title,
            final(self).position == old(self).position,
            final(self).timezones == old(self).timezones,
            final(self).selected == old(self).selected,
    {
        self.stopwatch_state = StopwatchState::default();
    }

    /// Takes the time that a running stopwatch has run since its last tick
    /// into what it shows. A stopwatch that stands stays as it is.
    pub fn tick_stopwatch(&mut self)
        ensures
            final(self).stopwatch_state.running == old(self).stopwatch_state.running,
            final(self).stopwatch_state.elapsed >= old(self).stopwatch_state.elapsed,
            final(self).stopwatch_state.last_tick is Some == old(
                self,
            ).stopwatch_state.last_tick is Some,
            !(old(self).stopwatch_state.running && old(self).stopwatch_state.last_tick is Some)
                ==> final(self).stopwatch_state == old(self).stopwatch_state,
            final(self).id == old(self).id,
            final(self).title == old(self).title,
            final(self).position == old(self).position,
            final(self).timezones == old(self).timezones,
            final(self).selected == old(self).selected,
    {
        if self.stopwatch_state.running && self.stopwatch_state.last_tick.is_some() {
            let since_tick = self.since_last_tick();
            self.advance(since_tick, Instant::now());
        }
    }

    /// The nanoseconds that the stopwatch shows where it has run
    /// `since_tick` nanoseconds since its last tick.
    pub fn elapsed_after(&self, since_tick: u128) -> (r: u128)
        ensures
            r == if self.stopwatch_state.running && self.stopwatch_state.last_tick is Some {
                added(self.stopwatch_state.elapsed, since_tick)
            } else {
                self.stopwatch_state.elapsed
            },
    {
        if self.stopwatch_state.running && self.stopwatch_state.last_tick.is_some() {
            self.stopwatch_state.elapsed.saturating_add(since_tick)
        } else {
            self.stopwatch_state.elapsed
        }
    }

    /// The nanoseconds that the stopwatch shows at present.
    pub fn get_current_elapsed(&self) -> (r: u128)
        ensures
            r >= self.stopwatch_state.elapsed,
            !(self.stopwatch_state.running && self.stopwatch_state.last_tick is Some) ==> r
                == self.stopwatch_state.elapsed,
    {
        let since_tick = self.since_last_tick();
        self.elapsed_after(since_tick)
    }

    /// The whole seconds of a time in nanoseconds, held at the largest
    /// number of seconds that can be shown.
    pub fn whole_seconds(nanos: u128) -> (r: u64)
        ensures
            r == if nanos / 1_000_000_000 > u64::MAX {
                u64::MAX as int
            } else {
                nanos as int / 1_000_000_000
            },
    {
        let secs: u128 = nanos / 1_000_000_000;
        if secs > 0xFFFF_FFFF_FFFF_FFFF {
            0xFFFF_FFFF_FFFF_FFFF
        } else {
            secs as u64
        }
    }

    /// A number of seconds as `hh:mm:ss`.
    pub fn format_duration(total_secs: u64) -> (r: String)
        ensures
            r@ == clock_face(total_secs as nat),
    {
        let hours = total_secs / 3600;
        let minutes = (total_secs % 3600) / 60;
        let seconds = total_secs % 60;
        let mut face: Vec<char> = Vec::new();
        push_two_digits(&mut face, hours);
        face.push(':');
        push_two_digits(&mut face, minutes);
        face.push(':');
        push_two_digits(&mut face, seconds);
        string_of(&face)
    }

    /// What the stopwatch says of itself where it shows `total_secs`
    /// seconds.
    pub fn stopwatch_status(&self, total_secs: u64) -> (r: &'static str)
        ensures
            r@ == status_word(self.stopwatch_state.running, total_secs as nat),
    {
        if self.stopwatch_state.running {
            "[Running]"
        } else if total_secs > 0 {
            "[Paused]"
        } else {
            "[Stopped]"
        }
    }

    /// The lines of the clock for the given readings: for each zone, at its
    /// place, the time and the date there, or nothing where the zone is not
    /// known. `local_zone` is the name of the machine's own zone.
    pub fn zone_lines(&self, local_zone: &str, readings: &Vec<Option<(String, String)>>) -> (lines:
        Vec<ZoneLine>)
        ensures
            lines.deep_view() == zone_lines_of(
                self.timezones.deep_view(),
                local_zone@,
                readings.deep_view(),
            ),
    {
        let ghost zones = self.timezones.deep_view();
        let local = local_zone.to_owned();
        let mut lines: Vec<ZoneLine> = Vec::new();
        let mut i: usize = 0;
        assert(zones.take(0) =~= Seq::<Seq<char>>::empty());
        assert(lines.deep_view() =~= Seq::<ZoneLineView>::empty());
        while i < self.timezones.len()
            invariant
                i <= self.timezones.len(),
                zones == self.timezones.deep_view(),
                local@ == local_zone@,
                lines.deep_view() == zone_lines_of(
                    zones.take(i as int),
                    local_zone@,
                    readings.deep_view(),
                ),
            decreases self.timezones.len() - i,
        {
            let ghost before = lines.deep_view();
            assert(zones.take(i + 1).drop_last() =~= zones.take(i as int));
            assert(zones.take(i + 1).last() == self.timezones[i as int]@);
            if i < readings.len() {
                match &readings[i] {
                    Some(reading) => {
                        let zone = &self.timezones[i];
                        let line = ZoneLine {
                            name: padded(zone_label(zone.as_str()).as_str(), 15),
                            time: padded(reading.0.as_str(), 10),
                            date: reading.1.clone(),
                            local: *zone == local,
                        };
                        lines.push(line);
                        assert(lines.deep_view() =~= before.push(line@));
                    },
                    None => {},
                }
            }
            i += 1;
        }
        assert(zones.take(i as int) =~= zones);
        lines
    }

    /// Marks the widget as the one that keys go to, or not.
    pub fn set_selected(&mut self, selected: bool)
        ensures
            final(self).selected == selected,
            final(self).id == old(self).id,
            final(self).title == old(self).title,
            final(self).position == old(self).position,
            final(self).timezones == old(self).timezones,
            final(self).stopwatch_state == old(self).stopwatch_state,
    {
        self.selected = selected;
    }
}

} // verus!
