//! The badge: date, time, temperatures and connection on one panel.
//!
//! The real-time clock pulls its interrupt line once a minute. The badge then
//! reads the clock and refreshes the time, and once an hour the whole panel. The
//! clock is set whenever the time comes in over the network.

use crate::draw::{
    lemma_filled_first, panel, panel_area, pixel_after_all, render_temps, status_area, status_bar,
    temperature_area, temperature_column, temps_drawing, time_area, time_row, Action, Color, Font,
    Label, Lut, Rectangle, UpdateRegion, BACKGROUND, CENTER_X, DATE_BASELINE_Y, FOREGROUND, LEFT_COL_CENTER_X,
    STATUS_BASELINE_Y, TIME_BASELINE_Y,
};
use crate::reading::Reading;
use crate::time_util::{
    in_range, instant_of, law_every_instant_is_shown, law_set_then_read, local_datetime,
    local_time, rtc_to_jiff, shows, unix_to_primitive_datetime, utc_datetime, DateTime, PrimitiveDateTime, Timestamp,
};
use crate::wifi::WifiState;
use vstd::prelude::*;

verus! {

/// The period of the watchdog, in seconds.
pub const WATCHDOG_SECONDS: u64 = 600;

/// What happens to the badge.
#[derive(Clone, Copy, Debug, PartialEq, Eq)]
pub enum Event {
    /// The connection has a new state.
    Wifi(WifiState),
    /// The time came in over the network.
    NetworkTime(Timestamp),
    /// The real-time clock was set, or could not be.
    RtcSet(bool),
    /// The interrupt line of the real-time clock moved.
    Alarm,
    /// The real-time clock was read, or could not be.
    RtcRead(Option<PrimitiveDateTime>),
    /// Temperatures came in, north and south.
    Temperatures(Reading, Reading),
    /// The interrupt line of the real-time clock has not moved for a while.
    Watchdog,
}

/// What the badge remembers.
#[derive(Clone, Copy, Debug, PartialEq, Eq)]
pub struct Badger {
    /// The hour that was last shown.
    pub last_hour: Option<i8>,
    /// The state of the connection that was last heard of.
    pub last_wifi_state: WifiState,
    /// The temperatures that were last shown.
    pub last_temps: Option<(Reading, Reading)>,
    /// The network time that the real-time clock is being set to.
    pub pending: Option<Timestamp>,
}

/// What arms the alarm for the start of every minute.
pub open spec fn alarm_arming() -> Seq<Action> {
    seq![
        Action::SetAlarmSeconds(0),
        Action::EnableAlarmSeconds,
        Action::EnableAlarmInterrupt,
        Action::ClearAlarmFlag,
    ]
}

/// What is done when the badge is switched on.
pub open spec fn startup_actions() -> Seq<Action> {
    seq![Action::DisableAllAlarms] + alarm_arming() + seq![
        Action::Setup(Lut::Internal),
        Action::Update,
    ]
}

/// What draws the status.
pub open spec fn status_drawing(state: WifiState) -> Action {
    Action::Draw {
        font: Font::Small,
        label: Label::Status(state),
        x: CENTER_X,
        y: STATUS_BASELINE_Y,
        color: FOREGROUND,
    }
}

/// What draws the date.
pub open spec fn date_drawing(local: DateTime) -> Action {
    Action::Draw {
        font: Font::Medium,
        label: Label::Date(local),
        x: LEFT_COL_CENTER_X,
        y: DATE_BASELINE_Y,
        color: FOREGROUND,
    }
}

/// What draws the time.
pub open spec fn time_drawing(local: DateTime) -> Action {
    Action::Draw {
        font: Font::Large,
        label: Label::Time(local),
        x: LEFT_COL_CENTER_X,
        y: TIME_BASELINE_Y,
        color: FOREGROUND,
    }
}

/// What draws the temperatures.
pub open spec fn badge_temps_drawing(north: Reading, south: Reading) -> Seq<Action> {
    temps_drawing(north, south, FOREGROUND, BACKGROUND, Font::Large)
}

/// What draws the temperatures, if they are known.
pub open spec fn known_temps_drawing(temps: Option<(Reading, Reading)>) -> Seq<Action> {
    match temps {
        Some((north, south)) => badge_temps_drawing(north, south),
        None => Seq::empty(),
    }
}

/// What redraws and refreshes the whole panel.
pub open spec fn full_refresh(
    state: WifiState,
    local: DateTime,
    temps: Option<(Reading, Reading)>,
) -> Seq<Action> {
    seq![
        Action::Fill(panel_area(), BACKGROUND),
        status_drawing(state),
        date_drawing(local),
        time_drawing(local),
    ] + known_temps_drawing(temps) + seq![Action::Setup(Lut::Internal), Action::Update]
}

/// What redraws and refreshes the time alone.
pub open spec fn time_refresh(local: DateTime) -> Seq<Action> {
    seq![
        Action::Fill(time_area(), BACKGROUND),
        time_drawing(local),
        Action::Setup(Lut::Fast),
        Action::PartialUpdate(time_area().as_region()),
    ]
}

/// What redraws and refreshes the status alone.
pub open spec fn status_refresh(state: WifiState) -> Seq<Action> {
    seq![
        Action::Fill(status_area(), BACKGROUND),
        status_drawing(state),
        Action::Setup(Lut::Fast),
        Action::PartialUpdate(status_area().as_region()),
    ]
}

/// What redraws and refreshes the temperatures alone.
pub open spec fn temps_refresh(north: Reading, south: Reading) -> Seq<Action> {
    badge_temps_drawing(north, south) + seq![
        Action::Setup(Lut::Fast),
        Action::PartialUpdate(temperature_area().as_region()),
    ]
}

/// Arms the alarm for the start of every minute.
fn arm_alarm() -> (r: Vec<Action>)
    ensures
        r@ == alarm_arming(),
{
    vec![
        Action::SetAlarmSeconds(0),
        Action::EnableAlarmSeconds,
        Action::EnableAlarmInterrupt,
        Action::ClearAlarmFlag,
    ]
}

/// Draws the status.
fn draw_status(state: WifiState) -> (r: Action)
    ensures
        r == status_drawing(state),
{
    Action::Draw {
        font: Font::Small,
        label: Label::Status(state),
        x: CENTER_X,
        y: STATUS_BASELINE_Y,
        color: FOREGROUND,
    }
}

/// Draws the time.
fn draw_time(local: DateTime) -> (r: Action)
    ensures
        r == time_drawing(local),
{
    Action::Draw {
        font: Font::Large,
        label: Label::Time(local),
        x: LEFT_COL_CENTER_X,
        y: TIME_BASELINE_Y,
        color: FOREGROUND,
    }
}

/// Whether the temperatures are those that were last shown.
pub open spec fn same_temps(last: Option<(Reading, Reading)>, north: Reading, south: Reading) -> bool {
    match last {
        Some((n, s)) => n.same(north) && s.same(south),
        None => false,
    }
}

impl Badger {
    /// The badge as it is switched on.
    pub open spec fn initial() -> Badger {
        Badger {
            last_hour: None,
            last_wifi_state: WifiState::Disconnected,
            last_temps: None,
            pending: None,
        }
    }

    /// What is done when the local time is read off the real-time clock.
    pub open spec fn tick_actions(self, local: DateTime) -> Seq<Action> {
        if self.last_hour == Some(local.hour) {
            time_refresh(local)
        } else {
            full_refresh(self.last_wifi_state, local, self.last_temps)
        }
    }

    /// The badge after the local time was shown.
    pub open spec fn after_showing(self, local: DateTime) -> Badger {
        Badger { last_hour: Some(local.hour), ..self }
    }

    /// What is done on an event.
    pub open spec fn actions(self, event: Event) -> Seq<Action> {
        match event {
            Event::Wifi(state) => status_refresh(state),
            Event::NetworkTime(now) => seq![Action::SetRtc(utc_datetime(now@))],
            Event::RtcSet(ok) => match self.pending {
                Some(now) => (if ok {
                    alarm_arming()
                } else {
                    Seq::empty()
                }) + full_refresh(self.last_wifi_state, local_datetime(now@), self.last_temps),
                None => Seq::empty(),
            },
            Event::Alarm => seq![Action::ResetWatchdog, Action::ReadRtc],
            Event::RtcRead(None) => seq![Action::ClearAlarmFlag],
            Event::RtcRead(Some(dt)) => seq![Action::ClearAlarmFlag] + match instant_of(dt) {
                Some(nanos) => self.tick_actions(local_datetime(nanos)),
                None => Seq::empty(),
            },
            Event::Temperatures(north, south) => if same_temps(self.last_temps, north, south) {
                Seq::empty()
            } else {
                temps_refresh(north, south)
            },
            Event::Watchdog => Seq::empty(),
        }
    }

    /// The badge after an event.
    pub open spec fn after(self, event: Event) -> Badger {
        match event {
            Event::Wifi(state) => Badger { last_wifi_state: state, ..self },
            Event::NetworkTime(now) => Badger { pending: Some(now), ..self },
            Event::RtcSet(_) => match self.pending {
                Some(now) => Badger { pending: None, ..self.after_showing(local_datetime(now@)) },
                None => self,
            },
            Event::RtcRead(Some(dt)) => match instant_of(dt) {
                Some(nanos) => self.after_showing(local_datetime(nanos)),
                None => self,
            },
            Event::Temperatures(north, south) => if same_temps(self.last_temps, north, south) {
                self
            } else {
                Badger { last_temps: Some((north, south)), ..self }
            },
            Event::Alarm | Event::RtcRead(None) | Event::Watchdog => self,
        }
    }

    /// Switches the badge on. Returns it with what is to be done first: the alarm
    /// is armed at once, so that the panel shows the time that the real-time clock
    /// kept while the badge was off.
    pub fn start() -> (r: (Badger, Vec<Action>))
        ensures
            r.0 == Badger::initial(),
            r.1@ == startup_actions(),
    {
        let badger = Badger {
            last_hour: None,
            last_wifi_state: WifiState::Disconnected,
            last_temps: None,
            pending: None,
        };
        let mut actions = vec![Action::DisableAllAlarms];
        let mut arming = arm_alarm();
        actions.append(&mut arming);
        actions.push(Action::Setup(Lut::Internal));
        actions.push(Action::Update);
        (badger, actions)
    }

    /// Redraws and refreshes the whole panel, to show the local time.
    pub fn show_all(&mut self, local: DateTime) -> (r: Vec<Action>)
        ensures
            r@ == full_refresh(old(self).last_wifi_state, local, old(self).last_temps),
            *final(self) == old(self).after_showing(local),
    {
        self.last_hour = Some(local.hour);
        let mut actions = vec![
            Action::Fill(panel(), BACKGROUND),
            draw_status(self.last_wifi_state),
            Action::Draw {
                font: Font::Medium,
                label: Label::Date(local),
                x: LEFT_COL_CENTER_X,
                y: DATE_BASELINE_Y,
                color: FOREGROUND,
            },
            draw_time(local),
        ];
        if let Some((north, south)) = self.last_temps {
            let mut temps = render_temps(north, south, FOREGROUND, BACKGROUND, Font::Large);
            actions.append(&mut temps);
        }
        actions.push(Action::Setup(Lut::Internal));
        actions.push(Action::Update);
        actions
    }

    /// Shows the local time that was read off the real-time clock: the whole panel
    /// is refreshed if the hour is another than the one shown, and otherwise only
    /// the time.
    pub fn tick(&mut self, local: DateTime) -> (r: Vec<Action>)
        ensures
            r@ == old(self).tick_actions(local),
            *final(self) == old(self).after_showing(local),
    {
        let full_update = match self.last_hour {
            Some(hour) => hour != local.hour,
            None => true,
        };
        if full_update {
            self.show_all(local)
        } else {
            let area = time_row();
            vec![
                Action::Fill(area, BACKGROUND),
                draw_time(local),
                Action::Setup(Lut::Fast),
                Action::PartialUpdate(area.region().unwrap()),
            ]
        }
    }

    /// Shows a new state of the connection.
    fn show_status(&mut self, state: WifiState) -> (r: Vec<Action>)
        ensures
            r@ == status_refresh(state),
            *final(self) == (Badger { last_wifi_state: state, ..*old(self) }),
    {
        self.last_wifi_state = state;
        let area = status_bar();
        vec![
            Action::Fill(area, BACKGROUND),
            draw_status(state),
            Action::Setup(Lut::Fast),
            Action::PartialUpdate(area.region().unwrap()),
        ]
    }

    /// Shows new temperatures, unless they are those that are shown.
    fn show_temps(&mut self, north: Reading, south: Reading) -> (r: Vec<Action>)
        ensures
            r@ == old(self).actions(Event::Temperatures(north, south)),
            *final(self) == old(self).after(Event::Temperatures(north, south)),
    {
        if let Some((n, s)) = self.last_temps {
            if n.equals(&north) && s.equals(&south) {
                return Vec::new();
            }
        }
        self.last_temps = Some((north, south));
        let area = temperature_column();
        let mut actions = render_temps(north, south, FOREGROUND, BACKGROUND, Font::Large);
        actions.push(Action::Setup(Lut::Fast));
        actions.push(Action::PartialUpdate(area.region().unwrap()));
        actions
    }

    /// Takes an event, and returns what is to be done about it, in order. What
    /// came of [`Action::SetRtc`] and [`Action::ReadRtc`] is the next event.
    pub fn step(&mut self, event: Event) -> (r: Vec<Action>)
        ensures
            r@ == old(self).actions(event),
            *final(self) == old(self).after(event),
    {
        match event {
            Event::Wifi(state) => self.show_status(state),
            Event::NetworkTime(now) => {
                self.pending = Some(now);
                vec![Action::SetRtc(unix_to_primitive_datetime(now).unwrap())]
            },
            Event::RtcSet(ok) => match self.pending {
                Some(now) => {
                    self.pending = None;
                    let mut actions = if ok {
                        arm_alarm()
                    } else {
                        Vec::new()
                    };
                    let mut shown = self.show_all(local_time(now));
                    actions.append(&mut shown);
                    actions
                },
                None => Vec::new(),
            },
            Event::Alarm => vec![Action::ResetWatchdog, Action::ReadRtc],
            Event::RtcRead(read) => {
                let mut actions = vec![Action::ClearAlarmFlag];
                if let Some(dt) = read {
                    if let Some(now) = rtc_to_jiff(dt) {
                        let mut shown = self.tick(local_time(now));
                        actions.append(&mut shown);
                    }
                }
                actions
            },
            Event::Temperatures(north, south) => self.show_temps(north, south),
            Event::Watchdog => Vec::new(),
        }
    }
}

/// However texts look, refreshing the whole panel leaves every pixel of it in a
/// colour that does not depend on what was there.
pub proof fn law_full_refresh_starts_afresh(
    a: Color,
    b: Color,
    state: WifiState,
    local: DateTime,
    temps: Option<(Reading, Reading)>,
    ink: spec_fn(Action, int, int) -> bool,
    px: int,
    py: int,
)
    requires
        panel_area().contains(px, py),
    ensures
        pixel_after_all(a, full_refresh(state, local, temps), ink, px, py) == pixel_after_all(
            b,
            full_refresh(state, local, temps),
            ink,
            px,
            py,
        ),
{
    lemma_filled_first(a, b, full_refresh(state, local, temps), ink, px, py);
}

/// Whether every part of the panel that the actions refresh can be refreshed on its own.
pub open spec fn refreshes_valid_regions(actions: Seq<Action>) -> bool {
    forall|i: int|
        0 <= i < actions.len() ==> ((#[trigger] actions[i]) matches Action::PartialUpdate(region)
            ==> region.valid())
}

/// Whatever the badge remembers and whatever happens, each part of the panel that
/// it refreshes lies on the panel and takes up whole groups of eight rows.
pub proof fn law_refreshes_valid_regions(badger: Badger, event: Event)
    ensures
        refreshes_valid_regions(badger.actions(event)),
{
    assert forall|i: int| 0 <= i < badger.actions(event).len() implies ((
    #[trigger] badger.actions(event)[i]) matches Action::PartialUpdate(region)
        ==> region.valid()) by {
        if let Event::RtcRead(Some(dt)) = event {
            if let Some(nanos) = instant_of(dt) {
                let shown = badger.tick_actions(local_datetime(nanos));
                if i > 0 {
                    assert(badger.actions(event)[i] == shown[i - 1]);
                }
            }
        }
    }
}

/// The whole panel is refreshed when the hour is another than the one that was
/// last shown, and on the first tick; otherwise only the row of the time is.
pub proof fn law_new_hour_refreshes_all(badger: Badger, local: DateTime)
    ensures
        badger.tick_actions(local).len() > 0,
        badger.last_hour != Some(local.hour) ==> badger.tick_actions(local).last() is Update,
        badger.last_hour == Some(local.hour) ==> badger.tick_actions(local).last()
            == Action::PartialUpdate(time_area().as_region()),
{
}

/// Of two ticks one after the other, the second refreshes the whole panel exactly
/// when it is in another hour: within an hour the whole panel is refreshed once.
pub proof fn law_one_full_refresh_per_hour(badger: Badger, first: DateTime, second: DateTime)
    ensures
        badger.after_showing(first).tick_actions(second).last() is Update <==> second.hour
            != first.hour,
{
}

/// Nothing but showing the time changes which hour was last shown: whatever else
/// happens between two ticks, the rule for the second one stays the same.
pub proof fn law_other_events_keep_the_hour(badger: Badger, event: Event)
    requires
        !(event is RtcSet),
        !(event is RtcRead),
    ensures
        badger.after(event).last_hour == badger.last_hour,
{
}

/// The time that comes in over the network is what the real-time clock is set to:
/// reading the clock back gives it again, to the second.
pub proof fn law_clock_is_set_to_network_time(badger: Badger, now: Timestamp)
    requires
        in_range(now@),
    ensures
        badger.actions(Event::NetworkTime(now)).len() == 1,
        badger.actions(Event::NetworkTime(now))[0] matches Action::SetRtc(dt) && shows(dt, now@)
            && instant_of(dt) == Some(now@ - now@ % 1_000_000_000),
{
    law_every_instant_is_shown(now@);
    law_set_then_read(now@);
}

/// However setting the clock went, the network time is then shown on the whole
/// panel, and the alarm is armed again if the clock was set.
pub proof fn law_network_time_is_shown(badger: Badger, now: Timestamp, ok: bool)
    ensures
        ({
            let shown = full_refresh(
                badger.last_wifi_state,
                local_datetime(now@),
                badger.last_temps,
            );
            badger.after(Event::NetworkTime(now)).actions(Event::RtcSet(ok)) == if ok {
                alarm_arming() + shown
            } else {
                shown
            }
        }),
        badger.after(Event::NetworkTime(now)).after(Event::RtcSet(ok)).last_hour == Some(
            local_datetime(now@).hour,
        ),
        badger.after(Event::NetworkTime(now)).after(Event::RtcSet(ok)).pending is None,
{
}

/// The alarm is acknowledged whenever the real-time clock was read, whatever came of it.
pub proof fn law_alarm_is_acknowledged(badger: Badger, read: Option<PrimitiveDateTime>)
    ensures
        badger.actions(Event::RtcRead(read)).len() > 0,
        badger.actions(Event::RtcRead(read))[0] is ClearAlarmFlag,
{
}

/// Temperatures that are those already shown change nothing.
pub proof fn law_same_temperatures_are_ignored(badger: Badger, north: Reading, south: Reading)
    requires
        !north.is_nan(),
        !south.is_nan(),
    ensures
        ({
            let shown = badger.after(Event::Temperatures(north, south));
            &&& shown.actions(Event::Temperatures(north, south)).len() == 0
            &&& shown.after(Event::Temperatures(north, south)) == shown
        }),
{
}

/// The badge after a run of events, from when it is switched on.
pub open spec fn badger_of_run(events: Seq<Event>) -> Badger
    decreases events.len(),
{
    if events.len() == 0 {
        Badger::initial()
    } else {
        badger_of_run(events.drop_last()).after(events.last())
    }
}

/// The last state of the connection in the run; none means disconnected.
pub open spec fn last_state(events: Seq<Event>) -> WifiState
    decreases events.len(),
{
    if events.len() == 0 {
        WifiState::Disconnected
    } else {
        match events.last() {
            Event::Wifi(state) => state,
            _ => last_state(events.drop_last()),
        }
    }
}

/// The last temperatures of the run.
pub open spec fn last_temps(events: Seq<Event>) -> Option<(Reading, Reading)>
    decreases events.len(),
{
    if events.len() == 0 {
        None
    } else {
        match events.last() {
            Event::Temperatures(north, south) => Some((north, south)),
            _ => last_temps(events.drop_last()),
        }
    }
}

/// Over any run, what the badge draws on the whole panel is the last state of the
/// connection and the last temperatures that came in, or equal numbers.
pub proof fn law_remembers_the_latest(events: Seq<Event>)
    ensures
        badger_of_run(events).last_wifi_state == last_state(events),
        badger_of_run(events).last_temps is Some <==> last_temps(events) is Some,
        last_temps(events) matches Some((north, south)) ==> badger_of_run(events).last_temps
            == last_temps(events) || same_temps(badger_of_run(events).last_temps, north, south),
    decreases events.len(),
{
    if events.len() > 0 {
        law_remembers_the_latest(events.drop_last());
    }
}

/// The alarm is armed for second zero of every minute, pulls the interrupt line, and
/// starts out acknowledged. On switching on, this happens once all alarms are off, and
/// before the panel is set up slowly and refreshed; the badge then knows nothing, and
/// waits ten minutes for the interrupt line.
pub proof fn law_switching_on()
    ensures
        ({
            let actions = startup_actions();
            &&& actions.len() == 7
            &&& actions[0] is DisableAllAlarms
            &&& actions.subrange(1, 5) == alarm_arming()
            &&& actions[5] == Action::Setup(Lut::Internal)
            &&& actions[6] is Update
        }),
        alarm_arming().len() == 4,
        alarm_arming()[0] == Action::SetAlarmSeconds(0),
        alarm_arming()[1] is EnableAlarmSeconds,
        alarm_arming()[2] is EnableAlarmInterrupt,
        alarm_arming()[3] is ClearAlarmFlag,
        Badger::initial().last_hour is None,
        Badger::initial().last_temps is None,
        Badger::initial().pending is None,
        Badger::initial().last_wifi_state is Disconnected,
        WATCHDOG_SECONDS == 600,
{
}

/// A full refresh clears the panel first; then the status, the date and the time stand
/// on it, each in its font and place, and the temperatures exactly if they are known;
/// at last the whole panel is refreshed slowly.
pub proof fn law_full_refresh_shows_everything(
    state: WifiState,
    local: DateTime,
    temps: Option<(Reading, Reading)>,
)
    ensures
        ({
            let actions = full_refresh(state, local, temps);
            let n = actions.len() as int;
            &&& n == if temps is Some { 9int } else { 6int }
            &&& actions[0] == Action::Fill(
                Rectangle { x: 0, y: 0, width: 296, height: 128 },
                Color::On,
            )
            &&& actions[1] == (Action::Draw {
                font: Font::Small,
                label: Label::Status(state),
                x: 148,
                y: 14,
                color: Color::Off,
            })
            &&& actions[2] == (Action::Draw {
                font: Font::Medium,
                label: Label::Date(local),
                x: 72,
                y: 54,
                color: Color::Off,
            })
            &&& actions[3] == (Action::Draw {
                font: Font::Large,
                label: Label::Time(local),
                x: 72,
                y: 119,
                color: Color::Off,
            })
            &&& temps matches Some((north, south)) ==> {
                &&& actions[4] == Action::Fill(
                    Rectangle { x: 144, y: 16, width: 152, height: 112 },
                    Color::On,
                )
                &&& actions[5] == (Action::DrawTemperature {
                    font: Font::Large,
                    reading: north,
                    x: 220,
                    y: 63,
                    color: Color::Off,
                })
                &&& actions[6] == (Action::DrawTemperature {
                    font: Font::Large,
                    reading: south,
                    x: 220,
                    y: 119,
                    color: Color::Off,
                })
            }
            &&& actions[n - 2] == Action::Setup(Lut::Internal)
            &&& actions[n - 1] is Update
        }),
{
}

/// A refresh of the time clears the row of the time, draws the time there, and
/// refreshes that row alone, fast.
pub proof fn law_time_refresh_shows_the_time(local: DateTime)
    ensures
        time_refresh(local).len() == 4,
        time_refresh(local)[0] == Action::Fill(
            Rectangle { x: 0, y: 72, width: 144, height: 56 },
            Color::On,
        ),
        time_refresh(local)[1] == (Action::Draw {
            font: Font::Large,
            label: Label::Time(local),
            x: 72,
            y: 119,
            color: Color::Off,
        }),
        time_refresh(local)[2] == Action::Setup(Lut::Fast),
        time_refresh(local)[3] == Action::PartialUpdate(
            UpdateRegion { x: 0, y: 72, width: 144, height: 56 },
        ),
{
}

/// Whenever the real-time clock was read, at a second that is an instant, the alarm is
/// acknowledged. If the hour on the wall is then another than the one that was last
/// shown, the whole panel is redrawn and refreshed, with the new date on it; otherwise
/// only the row of the time is. Nothing but the hour is remembered of it.
pub proof fn law_clock_read_shows_the_time(badger: Badger, dt: PrimitiveDateTime)
    requires
        -377_705_023_201 <= dt@.epoch_second() <= 253_402_207_200,
    ensures
        ({
            let local = local_datetime(dt@.epoch_second() * 1_000_000_000);
            let actions = badger.actions(Event::RtcRead(Some(dt)));
            let after = badger.after(Event::RtcRead(Some(dt)));
            &&& actions[0] is ClearAlarmFlag
            &&& badger.last_hour != Some(local.hour) ==> {
                &&& actions.skip(1) == full_refresh(
                    badger.last_wifi_state,
                    local,
                    badger.last_temps,
                )
                &&& actions.last() is Update
                &&& actions.contains(
                    Action::Draw {
                        font: Font::Medium,
                        label: Label::Date(local),
                        x: 72,
                        y: 54,
                        color: Color::Off,
                    },
                )
                &&& actions.contains(
                    Action::Draw {
                        font: Font::Large,
                        label: Label::Time(local),
                        x: 72,
                        y: 119,
                        color: Color::Off,
                    },
                )
            }
            &&& badger.last_hour == Some(local.hour) ==> {
                &&& actions.skip(1) == time_refresh(local)
                &&& actions.last() == Action::PartialUpdate(
                    UpdateRegion { x: 0, y: 72, width: 144, height: 56 },
                )
            }
            &&& after.last_hour == Some(local.hour)
            &&& after.last_wifi_state == badger.last_wifi_state
            &&& after.last_temps == badger.last_temps
            &&& after.pending == badger.pending
        }),
{
    let local = local_datetime(dt@.epoch_second() * 1_000_000_000);
    let actions = badger.actions(Event::RtcRead(Some(dt)));
    law_full_refresh_shows_everything(badger.last_wifi_state, local, badger.last_temps);
    if badger.last_hour != Some(local.hour) {
        let shown = full_refresh(badger.last_wifi_state, local, badger.last_temps);
        assert(actions == seq![Action::ClearAlarmFlag] + shown);
        assert(actions[3] == shown[2] && actions[4] == shown[3]);
    }
}

/// Of two reads of the clock, whatever the badge knew before the first, and whatever
/// happened between them that does not show the time, the second refreshes the whole
/// panel exactly if it is in another hour on the wall. So each new day is shown.
pub proof fn law_clock_reads_refresh_once_an_hour(
    badger: Badger,
    first: PrimitiveDateTime,
    between: Event,
    second: PrimitiveDateTime,
)
    requires
        -377_705_023_201 <= first@.epoch_second() <= 253_402_207_200,
        -377_705_023_201 <= second@.epoch_second() <= 253_402_207_200,
        !(between is RtcSet),
        !(between is RtcRead),
    ensures
        ({
            let shown = local_datetime(first@.epoch_second() * 1_000_000_000);
            let local = local_datetime(second@.epoch_second() * 1_000_000_000);
            let actions = badger.after(Event::RtcRead(Some(first))).after(between).actions(
                Event::RtcRead(Some(second)),
            );
            &&& actions.last() is Update <==> shown.hour != local.hour
            &&& shown.hour != local.hour ==> actions.contains(
                Action::Draw {
                    font: Font::Medium,
                    label: Label::Date(local),
                    x: 72,
                    y: 54,
                    color: Color::Off,
                },
            )
        }),
{
    let before = badger.after(Event::RtcRead(Some(first))).after(between);
    law_clock_read_shows_the_time(badger, first);
    law_clock_read_shows_the_time(before, second);
}

/// A clock that could not be read, or that shows a second that is no instant, changes
/// nothing on the panel and in what is remembered: only the alarm is acknowledged.
pub proof fn law_unreadable_clock_changes_nothing(badger: Badger, dt: PrimitiveDateTime)
    requires
        dt@.epoch_second() < -377_705_023_201 || dt@.epoch_second() > 253_402_207_200,
    ensures
        badger.actions(Event::RtcRead(Some(dt))) == seq![Action::ClearAlarmFlag],
        badger.after(Event::RtcRead(Some(dt))) == badger,
        badger.actions(Event::RtcRead(None)) == seq![Action::ClearAlarmFlag],
        badger.after(Event::RtcRead(None)) == badger,
{
}

/// When the interrupt line moves, the watchdog starts anew and the clock is read; when
/// it has not moved for long, nothing is done. Neither changes what is remembered.
pub proof fn law_alarms_read_the_clock(badger: Badger)
    ensures
        badger.actions(Event::Alarm) == seq![Action::ResetWatchdog, Action::ReadRtc],
        badger.after(Event::Alarm) == badger,
        badger.actions(Event::Watchdog).len() == 0,
        badger.after(Event::Watchdog) == badger,
{
}

/// Temperatures are left alone exactly if each of them equals the one that was last
/// shown in its place. Otherwise the right column is cleared, both are drawn there,
/// and it is refreshed on its own, fast. Either way the temperatures that are then
/// remembered are the new ones, or equal to them; nothing else changes.
pub proof fn law_new_temperatures_are_shown(badger: Badger, north: Reading, south: Reading)
    ensures
        ({
            let actions = badger.actions(Event::Temperatures(north, south));
            let after = badger.after(Event::Temperatures(north, south));
            &&& actions.len() == 0 <==> (badger.last_temps matches Some((n, s)) && n.same(north)
                && s.same(south))
            &&& actions.len() == 0 ==> after == badger
            &&& actions.len() > 0 ==> {
                &&& actions.len() == 5
                &&& actions[0] == Action::Fill(
                    Rectangle { x: 144, y: 16, width: 152, height: 112 },
                    Color::On,
                )
                &&& actions[1] == (Action::DrawTemperature {
                    font: Font::Large,
                    reading: north,
                    x: 220,
                    y: 63,
                    color: Color::Off,
                })
                &&& actions[2] == (Action::DrawTemperature {
                    font: Font::Large,
                    reading: south,
                    x: 220,
                    y: 119,
                    color: Color::Off,
                })
                &&& actions[3] == Action::Setup(Lut::Fast)
                &&& actions[4] == Action::PartialUpdate(
                    UpdateRegion { x: 144, y: 16, width: 152, height: 112 },
                )
                &&& after.last_temps == Some((north, south))
            }
            &&& after.last_temps matches Some((n, s)) && (n == north || n.same(north)) && (s
                == south || s.same(south))
            &&& after.last_hour == badger.last_hour
            &&& after.last_wifi_state == badger.last_wifi_state
            &&& after.pending == badger.pending
        }),
{
}

/// Temperatures that came in are on the panel after the next full refresh, or equal
/// ones are, whatever the badge knew before.
pub proof fn law_full_refresh_redraws_the_temperatures(
    badger: Badger,
    north: Reading,
    south: Reading,
    dt: PrimitiveDateTime,
)
    requires
        -377_705_023_201 <= dt@.epoch_second() <= 253_402_207_200,
        badger.last_hour != Some(local_datetime(dt@.epoch_second() * 1_000_000_000).hour),
    ensures
        ({
            let actions = badger.after(Event::Temperatures(north, south)).actions(
                Event::RtcRead(Some(dt)),
            );
            &&& actions.len() == 10
            &&& actions[6] matches Action::DrawTemperature { reading, .. } && (reading == north
                || reading.same(north))
            &&& actions[7] matches Action::DrawTemperature { reading, .. } && (reading == south
                || reading.same(south))
        }),
{
    let before = badger.after(Event::Temperatures(north, south));
    let local = local_datetime(dt@.epoch_second() * 1_000_000_000);
    let actions = before.actions(Event::RtcRead(Some(dt)));
    law_new_temperatures_are_shown(badger, north, south);
    law_clock_read_shows_the_time(before, dt);
    law_full_refresh_shows_everything(before.last_wifi_state, local, before.last_temps);
    let shown = full_refresh(before.last_wifi_state, local, before.last_temps);
    assert(actions.skip(1) == shown);
    assert(actions[6] == shown[5] && actions[7] == shown[6]);
}

/// A new state of the connection clears the status bar, is drawn there, and the bar is
/// refreshed on its own, fast. The state is remembered, and nothing else changes.
pub proof fn law_new_state_is_shown(badger: Badger, state: WifiState)
    ensures
        ({
            let actions = badger.actions(Event::Wifi(state));
            let after = badger.after(Event::Wifi(state));
            &&& actions.len() == 4
            &&& actions[0] == Action::Fill(
                Rectangle { x: 0, y: 0, width: 296, height: 16 },
                Color::On,
            )
            &&& actions[1] == (Action::Draw {
                font: Font::Small,
                label: Label::Status(state),
                x: 148,
                y: 14,
                color: Color::Off,
            })
            &&& actions[2] == Action::Setup(Lut::Fast)
            &&& actions[3] == Action::PartialUpdate(
                UpdateRegion { x: 0, y: 0, width: 296, height: 16 },
            )
            &&& after.last_wifi_state == state
            &&& after.last_hour == badger.last_hour
            &&& after.last_temps == badger.last_temps
            &&& after.pending == badger.pending
        }),
{
}

/// The time that comes in over the network is what the clock is set to, to the second,
/// and what is shown next; nothing else of what is remembered changes meanwhile.
pub proof fn law_network_time_is_taken(badger: Badger, now: Timestamp)
    requires
        in_range(now@),
    ensures
        ({
            let actions = badger.actions(Event::NetworkTime(now));
            let after = badger.after(Event::NetworkTime(now));
            &&& actions.len() == 1
            &&& actions[0] matches Action::SetRtc(dt) && dt@.valid() && dt@.epoch_second() == now@
                / 1_000_000_000
            &&& after.pending == Some(now)
            &&& after.last_hour == badger.last_hour
            &&& after.last_wifi_state == badger.last_wifi_state
            &&& after.last_temps == badger.last_temps
        }),
{
    law_every_instant_is_shown(now@);
}

/// Once the clock was set, or could not be, the network time is shown on the whole
/// panel with what is remembered, and its hour is the one that was last shown. The
/// alarm is armed before that exactly if the clock was set. Without a network time
/// nothing happens.
pub proof fn law_set_clock_shows_the_network_time(badger: Badger, ok: bool)
    ensures
        badger.pending matches Some(now) ==> {
            let actions = badger.actions(Event::RtcSet(ok));
            let after = badger.after(Event::RtcSet(ok));
            let local = local_datetime(now@);
            let arming = if ok { 4int } else { 0int };
            &&& actions.len() >= arming
            &&& ok ==> actions.take(4) == alarm_arming()
            &&& actions.skip(arming) == full_refresh(
                badger.last_wifi_state,
                local,
                badger.last_temps,
            )
            &&& after.last_hour == Some(local.hour)
            &&& after.pending is None
            &&& after.last_wifi_state == badger.last_wifi_state
            &&& after.last_temps == badger.last_temps
        },
        badger.pending is None ==> badger.actions(Event::RtcSet(ok)).len() == 0 && badger.after(
            Event::RtcSet(ok),
        ) == badger,
{
}

/// Showing a local time changes nothing but the hour that was last shown, and shows all
/// if that was another one, or only the time.
pub proof fn law_ticks_show_the_local_time(badger: Badger, local: DateTime)
    ensures
        badger.after_showing(local).last_hour == Some(local.hour),
        badger.after_showing(local).last_wifi_state == badger.last_wifi_state,
        badger.after_showing(local).last_temps == badger.last_temps,
        badger.after_showing(local).pending == badger.pending,
        badger.last_hour != Some(local.hour) ==> badger.tick_actions(local) == full_refresh(
            badger.last_wifi_state,
            local,
            badger.last_temps,
        ),
        badger.last_hour == Some(local.hour) ==> badger.tick_actions(local) == time_refresh(local),
{
}

} // verus!
