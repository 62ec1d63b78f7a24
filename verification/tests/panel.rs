use rp2040_badger_w::badger::{Badger, Event};
use rp2040_badger_w::clock;
use rp2040_badger_w::draw::{
    self, format_date, format_time, panel, render_temps, status_bar, temperature_column, time_row,
    Action, Color, Font, Label, Lut, Rectangle, UpdateRegion,
};
use rp2040_badger_w::reading::Reading;
use rp2040_badger_w::time_util::{DateTime, PrimitiveDateTime, Timestamp};
use rp2040_badger_w::wifi::WifiState;

fn reading(value: f32) -> Reading {
    Reading { bits: value.to_bits() }
}

fn local(hour: i8, minute: i8) -> DateTime {
    DateTime { year: 2024, month: 3, day: 9, hour, minute, second: 5 }
}

fn rectangle(x: i32, y: i32, width: u32, height: u32) -> Rectangle {
    Rectangle { x, y, width, height }
}

fn region(x: u32, y: u32, width: u32, height: u32) -> UpdateRegion {
    UpdateRegion { x, y, width, height }
}

fn status(state: WifiState) -> Action {
    Action::Draw { font: Font::Small, label: Label::Status(state), x: 148, y: 14, color: Color::Off }
}

fn date(dt: DateTime) -> Action {
    Action::Draw { font: Font::Medium, label: Label::Date(dt), x: 72, y: 54, color: Color::Off }
}

fn time(dt: DateTime) -> Action {
    Action::Draw { font: Font::Large, label: Label::Time(dt), x: 72, y: 119, color: Color::Off }
}

fn drawn_temps(north: Reading, south: Reading) -> Vec<Action> {
    render_temps(north, south, Color::Off, Color::On, Font::Large)
}

fn arming() -> Vec<Action> {
    vec![
        Action::SetAlarmSeconds(0),
        Action::EnableAlarmSeconds,
        Action::EnableAlarmInterrupt,
        Action::ClearAlarmFlag,
    ]
}

fn full(state: WifiState, dt: DateTime, temps: Vec<Action>) -> Vec<Action> {
    let mut actions =
        vec![Action::Fill(rectangle(0, 0, 296, 128), Color::On), status(state), date(dt), time(dt)];
    actions.extend(temps);
    actions.push(Action::Setup(Lut::Internal));
    actions.push(Action::Update);
    actions
}

fn partial(dt: DateTime) -> Vec<Action> {
    vec![
        Action::Fill(rectangle(0, 72, 144, 56), Color::On),
        time(dt),
        Action::Setup(Lut::Fast),
        Action::PartialUpdate(region(0, 72, 144, 56)),
    ]
}

#[test]
fn the_panel_is_that_of_the_driver() {
    assert_eq!(draw::WIDTH, uc8151::WIDTH);
    assert_eq!(draw::HEIGHT, uc8151::HEIGHT);
}

#[test]
fn areas_of_the_panel() {
    assert_eq!(panel(), rectangle(0, 0, 296, 128));
    assert_eq!(status_bar(), rectangle(0, 0, 296, 16));
    assert_eq!(time_row(), rectangle(0, 72, 144, 56));
    assert_eq!(temperature_column(), rectangle(144, 16, 152, 112));
}

#[test]
fn regions_take_whole_groups_of_eight_rows() {
    assert_eq!(rectangle(3, 8, 5, 16).region(), Some(region(3, 8, 5, 16)));
    assert_eq!(rectangle(0, 0, 0, 0).region(), Some(region(0, 0, 0, 0)));
    assert_eq!(rectangle(3, 9, 5, 16).region(), None);
    assert_eq!(rectangle(3, 8, 5, 15).region(), None);
    assert_eq!(rectangle(-1, 8, 5, 16).region(), None);
    assert_eq!(rectangle(3, -8, 5, 16).region(), None);
}

#[test]
fn dates_and_times_are_padded_with_zeros() {
    let dt = DateTime { year: 2024, month: 3, day: 9, hour: 7, minute: 5, second: 1 };
    assert_eq!(format_date(&dt), "2024-03-09");
    assert_eq!(format_time(&dt), "07:05");
    assert_eq!(Label::Date(dt).text(), "2024-03-09");
    assert_eq!(Label::Time(dt).text(), "07:05");
    assert_eq!(Label::TimeWithSeconds(dt).text(), "07:05:01");
    assert_eq!(Label::Status(WifiState::LinkUp).text(), "LinkUp");
}

#[test]
fn texts_agree_with_the_standard_formatting() {
    for year in [-9999i16, -1000, -999, -45, -1, 0, 7, 12, 345, 999, 1000, 9999, i16::MIN, i16::MAX] {
        for part in [i8::MIN, -12, -1, 0, 9, 10, 31, 59, 99, 100, i8::MAX] {
            let dt = DateTime { year, month: part, day: part, hour: part, minute: part, second: part };
            assert_eq!(format_date(&dt), format!("{:04}-{:02}-{:02}", year, part, part));
            assert_eq!(
                Label::TimeWithSeconds(dt).text(),
                format!("{:02}:{:02}:{:02}", part, part, part)
            );
        }
    }
}

#[test]
fn temperatures_are_drawn_in_the_right_column() {
    assert_eq!(
        drawn_temps(reading(21.5), reading(-3.25)),
        vec![
            Action::Fill(rectangle(144, 16, 152, 112), Color::On),
            Action::DrawTemperature { font: Font::Large, reading: reading(21.5), x: 220, y: 63, color: Color::Off },
            Action::DrawTemperature { font: Font::Large, reading: reading(-3.25), x: 220, y: 119, color: Color::Off },
        ]
    );
}

#[test]
fn temperatures_are_drawn_in_the_colours_and_the_font_asked_for() {
    assert_eq!(
        render_temps(reading(1.0), reading(2.0), Color::On, Color::Off, Font::Medium),
        vec![
            Action::Fill(rectangle(144, 16, 152, 112), Color::Off),
            Action::DrawTemperature {
                font: Font::Medium,
                reading: reading(1.0),
                x: 220,
                y: 63,
                color: Color::On,
            },
            Action::DrawTemperature {
                font: Font::Medium,
                reading: reading(2.0),
                x: 220,
                y: 119,
                color: Color::On,
            },
        ]
    );
}

#[test]
fn badger_starts_by_arming_the_alarm() {
    let (badger, actions) = Badger::start();
    assert_eq!(badger.last_hour, None);
    assert_eq!(badger.last_wifi_state, WifiState::Disconnected);
    let mut expected = vec![Action::DisableAllAlarms];
    expected.extend(arming());
    expected.push(Action::Setup(Lut::Internal));
    expected.push(Action::Update);
    assert_eq!(actions, expected);
}

#[test]
fn badger_shows_a_new_state() {
    let (mut badger, _) = Badger::start();
    assert_eq!(
        badger.step(Event::Wifi(WifiState::Connected)),
        vec![
            Action::Fill(rectangle(0, 0, 296, 16), Color::On),
            status(WifiState::Connected),
            Action::Setup(Lut::Fast),
            Action::PartialUpdate(region(0, 0, 296, 16)),
        ]
    );
    assert_eq!(badger.last_wifi_state, WifiState::Connected);
}

#[test]
fn ticks_refresh_the_panel_once_an_hour() {
    let (mut badger, _) = Badger::start();
    let off = WifiState::Disconnected;
    assert_eq!(badger.tick(local(7, 58)), full(off, local(7, 58), vec![]));
    assert_eq!(badger.tick(local(7, 59)), partial(local(7, 59)));
    assert_eq!(badger.tick(local(8, 0)), full(off, local(8, 0), vec![]));
    assert_eq!(badger.tick(local(8, 1)), partial(local(8, 1)));
}

#[test]
fn a_full_refresh_draws_what_is_remembered() {
    let (mut badger, _) = Badger::start();
    badger.step(Event::Wifi(WifiState::NetworkUp));
    badger.step(Event::Temperatures(reading(1.0), reading(2.0)));
    let temps = drawn_temps(reading(1.0), reading(2.0));
    assert_eq!(badger.tick(local(0, 0)), full(WifiState::NetworkUp, local(0, 0), temps));
}

#[test]
fn network_time_sets_the_clock_and_is_shown() {
    let (mut badger, _) = Badger::start();
    let now = Timestamp::from_microsecond(1_719_792_000_750_000).unwrap();
    let dt = PrimitiveDateTime::from_parts(2024, 7, 1, 0, 0, 0).unwrap();
    let shown = DateTime { year: 2024, month: 7, day: 1, hour: 2, minute: 0, second: 0 };
    let off = WifiState::Disconnected;
    assert_eq!(badger.step(Event::NetworkTime(now)), vec![Action::SetRtc(dt)]);
    let mut expected = arming();
    expected.extend(full(off, shown, vec![]));
    assert_eq!(badger.step(Event::RtcSet(true)), expected);
    assert_eq!(badger.last_hour, Some(2));
    badger.step(Event::NetworkTime(now));
    assert_eq!(badger.step(Event::RtcSet(false)), full(off, shown, vec![]));
    assert_eq!(badger.step(Event::RtcSet(true)), vec![]);
}

#[test]
fn alarms_read_the_clock() {
    let (mut badger, _) = Badger::start();
    assert_eq!(badger.step(Event::Alarm), vec![Action::ResetWatchdog, Action::ReadRtc]);
    assert_eq!(badger.step(Event::RtcRead(None)), vec![Action::ClearAlarmFlag]);
    let dt = PrimitiveDateTime::from_parts(2024, 1, 1, 12, 34, 0).unwrap();
    let shown = DateTime { year: 2024, month: 1, day: 1, hour: 13, minute: 34, second: 0 };
    let mut expected = vec![Action::ClearAlarmFlag];
    expected.extend(full(WifiState::Disconnected, shown, vec![]));
    assert_eq!(badger.step(Event::RtcRead(Some(dt))), expected);
    let mut expected = vec![Action::ClearAlarmFlag];
    expected.extend(partial(shown));
    assert_eq!(badger.step(Event::RtcRead(Some(dt))), expected);
    let beyond = PrimitiveDateTime::from_parts(9999, 12, 31, 0, 0, 0).unwrap();
    assert_eq!(badger.step(Event::RtcRead(Some(beyond))), vec![Action::ClearAlarmFlag]);
    assert_eq!(badger.step(Event::Watchdog), vec![]);
}

#[test]
fn same_temperatures_are_not_drawn_again() {
    let (mut badger, _) = Badger::start();
    let mut expected = drawn_temps(reading(0.0), reading(2.0));
    expected.push(Action::Setup(Lut::Fast));
    expected.push(Action::PartialUpdate(region(144, 16, 152, 112)));
    assert_eq!(badger.step(Event::Temperatures(reading(0.0), reading(2.0))), expected);
    assert_eq!(badger.step(Event::Temperatures(reading(0.0), reading(2.0))), vec![]);
    assert_eq!(badger.step(Event::Temperatures(reading(-0.0), reading(2.0))), vec![]);
    assert_eq!(badger.step(Event::Temperatures(reading(0.0), reading(2.5))).len(), 5);
    let nan = reading(f32::NAN);
    assert_eq!(badger.step(Event::Temperatures(nan, nan)).len(), 5);
    assert_eq!(badger.step(Event::Temperatures(nan, nan)).len(), 5);
}

#[test]
fn clock_shows_status_and_time() {
    assert_eq!(clock::start(), vec![Action::ResetRtc, Action::Setup(Lut::Internal), Action::Update]);
    assert_eq!(
        clock::show_status(WifiState::Joining),
        vec![
            Action::Setup(Lut::Fast),
            Action::FillFramed {
                area: rectangle(0, 0, 296, 16),
                fill: Color::On,
                frame: Color::Off,
                frame_width: 2,
            },
            status(WifiState::Joining),
            Action::PartialUpdate(region(0, 0, 296, 16)),
        ]
    );
    let now = Timestamp::from_second(1_704_067_205).unwrap();
    let dt = PrimitiveDateTime::from_parts(2024, 1, 1, 0, 0, 5).unwrap();
    let shown = DateTime { year: 2024, month: 1, day: 1, hour: 1, minute: 0, second: 5 };
    assert_eq!(
        clock::show_network_time(now),
        vec![
            Action::SetRtc(dt),
            Action::Setup(Lut::Fast),
            Action::Draw { font: Font::Large, label: Label::Date(shown), x: 148, y: 61, color: Color::Off },
            Action::Draw { font: Font::Large, label: Label::TimeWithSeconds(shown), x: 148, y: 106, color: Color::Off },
        ]
    );
}

#[test]
fn clock_refreshes_what_was_drawn() {
    let date = rectangle(30, 23, 230, 38);
    let time = rectangle(54, 68, 190, 38);
    assert_eq!(date.combine(&time), rectangle(30, 23, 230, 83));
    assert_eq!(rectangle(30, 23, 230, 83).round_out(), rectangle(30, 16, 230, 96));
    assert_eq!(clock::refresh_drawn(Some(date), Some(time)), Some(region(30, 16, 230, 96)));
    assert_eq!(clock::refresh_drawn(Some(date), None), Some(region(30, 16, 230, 48)));
    assert_eq!(clock::refresh_drawn(None, Some(time)), Some(region(54, 64, 190, 48)));
    assert_eq!(clock::refresh_drawn(None, None), None);
}

#[test]
fn rounding_out_keeps_groups_of_eight() {
    assert_eq!(rectangle(0, 16, 10, 8).round_out(), rectangle(0, 16, 10, 8));
    assert_eq!(rectangle(0, 17, 10, 8).round_out(), rectangle(0, 16, 10, 16));
    assert_eq!(rectangle(0, 23, 10, 1).round_out(), rectangle(0, 16, 10, 8));
    assert_eq!(rectangle(0, 23, 10, 2).round_out(), rectangle(0, 16, 10, 16));
}
