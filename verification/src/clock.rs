//! A plain clock: the network time on the panel, drawn once per connection.
//!
//! The date and the time are drawn over the whole width, and only the part of the
//! panel that the drawing touched is refreshed.

use crate::draw::{
    law_labels_read_as_what_they_tell, reads_as_date, reads_as_time_with_seconds, status_area,
    status_bar, Action, Color, Font, Label, Lut, Rectangle, UpdateRegion, BACKGROUND,
    CENTER_X, FOREGROUND, STATUS_BASELINE_Y,
};
use crate::time_util::{
    in_range, law_every_instant_is_shown, local_datetime, local_time, unix_to_primitive_datetime, utc_datetime, DateTime, Timestamp,
};
use crate::wifi::WifiState;
use vstd::prelude::*;

verus! {

/// Baseline of the date.
pub const CLOCK_DATE_BASELINE_Y: i32 = 61;

/// Baseline of the time, one line of 45 pixels below the date.
pub const CLOCK_TIME_BASELINE_Y: i32 = 106;

/// Width of the frame round the status.
pub const FRAME_WIDTH: u32 = 2;

/// What is done when the clock is switched on.
pub open spec fn startup_actions() -> Seq<Action> {
    seq![Action::ResetRtc, Action::Setup(Lut::Internal), Action::Update]
}

/// What is done on a new state of the connection.
pub open spec fn status_actions(state: WifiState) -> Seq<Action> {
    seq![
        Action::Setup(Lut::Fast),
        Action::FillFramed {
            area: status_area(),
            fill: BACKGROUND,
            frame: FOREGROUND,
            frame_width: FRAME_WIDTH,
        },
        Action::Draw {
            font: Font::Small,
            label: Label::Status(state),
            x: CENTER_X,
            y: STATUS_BASELINE_Y,
            color: FOREGROUND,
        },
        Action::PartialUpdate(status_area().as_region()),
    ]
}

/// What draws the date and the time.
pub open spec fn time_drawing(local: DateTime) -> Seq<Action> {
    seq![
        Action::Setup(Lut::Fast),
        Action::Draw {
            font: Font::Large,
            label: Label::Date(local),
            x: CENTER_X,
            y: CLOCK_DATE_BASELINE_Y,
            color: FOREGROUND,
        },
        Action::Draw {
            font: Font::Large,
            label: Label::TimeWithSeconds(local),
            x: CENTER_X,
            y: CLOCK_TIME_BASELINE_Y,
            color: FOREGROUND,
        },
    ]
}

/// Switches the clock on.
pub fn start() -> (r: Vec<Action>)
    ensures
        r@ == startup_actions(),
{
    vec![Action::ResetRtc, Action::Setup(Lut::Internal), Action::Update]
}

/// Shows a new state of the connection.
pub fn show_status(state: WifiState) -> (r: Vec<Action>)
    ensures
        r@ == status_actions(state),
{
    let bounds = status_bar();
    vec![
        Action::Setup(Lut::Fast),
        Action::FillFramed {
            area: bounds,
            fill: BACKGROUND,
            frame: FOREGROUND,
            frame_width: FRAME_WIDTH,
        },
        Action::Draw {
            font: Font::Small,
            label: Label::Status(state),
            x: CENTER_X,
            y: STATUS_BASELINE_Y,
            color: FOREGROUND,
        },
        Action::PartialUpdate(bounds.region().unwrap()),
    ]
}

/// Draws the date and the time.
pub fn draw_time(local: DateTime) -> (r: Vec<Action>)
    ensures
        r@ == time_drawing(local),
{
    vec![
        Action::Setup(Lut::Fast),
        Action::Draw {
            font: Font::Large,
            label: Label::Date(local),
            x: CENTER_X,
            y: CLOCK_DATE_BASELINE_Y,
            color: FOREGROUND,
        },
        Action::Draw {
            font: Font::Large,
            label: Label::TimeWithSeconds(local),
            x: CENTER_X,
            y: CLOCK_TIME_BASELINE_Y,
            color: FOREGROUND,
        },
    ]
}

/// Sets the real-time clock to the time that came in over the network, and draws
/// the date and the time. What they cover goes to [`refresh_drawn`].
pub fn show_network_time(now: Timestamp) -> (r: Vec<Action>)
    ensures
        r@ == seq![Action::SetRtc(utc_datetime(now@))] + time_drawing(local_datetime(now@)),
{
    let mut actions = vec![Action::SetRtc(unix_to_primitive_datetime(now).unwrap())];
    let mut drawing = draw_time(local_time(now));
    actions.append(&mut drawing);
    actions
}

impl Rectangle {
    /// Whether the rectangle starts at no negative coordinate, and its edges can
    /// be counted in 32 bits.
    pub open spec fn countable(self) -> bool {
        &&& self.x >= 0
        &&& self.y >= 0
        &&& self.x + self.width <= u32::MAX
        &&& self.y + self.height <= u32::MAX
    }

    /// The smallest rectangle that holds both.
    pub open spec fn hull(self, other: Rectangle) -> Rectangle {
        let x = if self.x <= other.x { self.x } else { other.x };
        let y = if self.y <= other.y { self.y } else { other.y };
        let right = if self.x + self.width >= other.x + other.width {
            self.x + self.width
        } else {
            other.x + other.width
        };
        let bottom = if self.y + self.height >= other.y + other.height {
            self.y + self.height
        } else {
            other.y + other.height
        };
        Rectangle { x, y, width: (right - x) as u32, height: (bottom - y) as u32 }
    }

    /// Whether the rows of the rectangle can be rounded out to groups of eight in 32 bits.
    pub open spec fn roundable(self) -> bool {
        self.height + 7 + self.y % 8 <= u32::MAX
    }

    /// The rectangle with its rows rounded out to groups of eight.
    pub open spec fn rounded_out(self) -> Rectangle {
        Rectangle {
            y: (self.y - self.y % 8) as i32,
            height: ((self.height + 7 + self.y % 8) / 8 * 8) as u32,
            ..self
        }
    }

    /// Whether every pixel of the other lies in the rectangle.
    pub open spec fn covers(self, other: Rectangle) -> bool {
        forall|px: int, py: int| #[trigger] other.contains(px, py) ==> self.contains(px, py)
    }

    /// Combines the two into the smallest rectangle that holds both.
    pub fn combine(&self, other: &Rectangle) -> (r: Rectangle)
        requires
            self.countable(),
            other.countable(),
        ensures
            r == self.hull(*other),
            r.countable(),
    {
        let x: i32 = if self.x <= other.x { self.x } else { other.x };
        let y: i32 = if self.y <= other.y { self.y } else { other.y };
        let self_right: u32 = self.width + self.x as u32;
        let other_right: u32 = other.width + other.x as u32;
        let self_bottom: u32 = self.height + self.y as u32;
        let other_bottom: u32 = other.height + other.y as u32;
        let right: u32 = if self_right >= other_right { self_right } else { other_right };
        let bottom: u32 = if self_bottom >= other_bottom { self_bottom } else { other_bottom };
        Rectangle { x, y, width: right - x as u32, height: bottom - y as u32 }
    }

    /// Rounds the rows out to groups of eight, as the panel needs them.
    pub fn round_out(&self) -> (r: Rectangle)
        requires
            self.y >= 0,
            self.roundable(),
        ensures
            r == self.rounded_out(),
    {
        let y: i32 = self.y / 8 * 8;
        let above: u32 = (self.y - y) as u32;
        let height: u32 = (self.height + 7 + above) / 8 * 8;
        Rectangle { x: self.x, y, width: self.width, height }
    }
}

/// What the two drawings cover together, if anything.
pub open spec fn drawn_area(date: Option<Rectangle>, time: Option<Rectangle>) -> Option<Rectangle> {
    match (date, time) {
        (Some(a), Some(b)) => Some(a.hull(b)),
        (Some(a), None) => Some(a),
        (None, Some(b)) => Some(b),
        (None, None) => None,
    }
}

/// Whether what the drawings cover starts at no negative coordinate, and can be
/// combined and rounded out in 32 bits.
pub open spec fn refreshable_drawing(date: Option<Rectangle>, time: Option<Rectangle>) -> bool {
    match (date, time) {
        (Some(a), Some(b)) => a.countable() && b.countable() && a.hull(b).roundable(),
        (Some(a), None) => a.x >= 0 && a.y >= 0 && a.roundable(),
        (None, Some(b)) => b.x >= 0 && b.y >= 0 && b.roundable(),
        (None, None) => true,
    }
}

/// The part of the panel to refresh once the date and the time are drawn, if
/// anything was drawn: the groups of eight rows that hold what they cover.
pub fn refresh_drawn(date: Option<Rectangle>, time: Option<Rectangle>) -> (r: Option<UpdateRegion>)
    requires
        refreshable_drawing(date, time),
    ensures
        r == (match drawn_area(date, time) {
            Some(area) => Some(area.rounded_out().as_region()),
            None => None,
        }),
{
    let bounds = match (date, time) {
        (Some(a), Some(b)) => Some(a.combine(&b)),
        (Some(a), None) => Some(a),
        (None, Some(b)) => Some(b),
        (None, None) => None,
    };
    match bounds {
        Some(area) => Some(area.round_out().region().unwrap()),
        None => None,
    }
}

/// What is drawn is refreshed: the panel can refresh the rounded out rectangle on
/// its own, and it covers everything that was drawn.
pub proof fn law_refresh_covers_the_drawing(date: Option<Rectangle>, time: Option<Rectangle>)
    requires
        refreshable_drawing(date, time),
    ensures
        drawn_area(date, time) is None <==> date is None && time is None,
        drawn_area(date, time) matches Some(area) ==> {
            &&& area.rounded_out().refreshable()
            &&& date matches Some(a) ==> area.rounded_out().covers(a)
            &&& time matches Some(b) ==> area.rounded_out().covers(b)
        },
{
}

/// The smallest rectangle that holds both is no larger than any other that does.
pub proof fn law_hull_is_smallest(a: Rectangle, b: Rectangle, other: Rectangle)
    requires
        a.countable(),
        b.countable(),
        a.width > 0 && a.height > 0,
        b.width > 0 && b.height > 0,
        other.covers(a),
        other.covers(b),
    ensures
        other.covers(a.hull(b)),
{
    assert(a.contains(a.x as int, a.y as int));
    assert(b.contains(b.x as int, b.y as int));
    assert(a.contains(a.x + a.width - 1, a.y + a.height - 1));
    assert(b.contains(b.x + b.width - 1, b.y + b.height - 1));
}

/// Rounding out adds no group of eight rows that the rectangle does not touch:
/// whatever can be refreshed and holds the rectangle holds it rounded out.
pub proof fn law_rounding_out_is_smallest(area: Rectangle, other: Rectangle)
    requires
        area.countable(),
        area.roundable(),
        area.width > 0 && area.height > 0,
        other.refreshable(),
        other.covers(area),
    ensures
        other.covers(area.rounded_out()),
{
    assert(area.contains(area.x as int, area.y as int));
    assert(area.contains(area.x + area.width - 1, area.y + area.height - 1));
}

/// What is drawn when the time comes in over the network is its date on the wall, as
/// year, month and day, and one line below it the time, as hour, minute and second,
/// both large and centred. Before that the clock is set to the time, to the second, and
/// the panel is set up to refresh fast; nothing else is done.
pub proof fn law_network_time_is_drawn(nanos: int)
    requires
        in_range(nanos),
    ensures
        ({
            let actions = seq![Action::SetRtc(utc_datetime(nanos))] + time_drawing(
                local_datetime(nanos),
            );
            &&& actions.len() == 4
            &&& actions[0] matches Action::SetRtc(dt) && dt@.valid() && dt@.epoch_second() == nanos
                / 1_000_000_000
            &&& actions[1] == Action::Setup(Lut::Fast)
            &&& actions[2] matches Action::Draw { font, label, x, y, color } && font is Large && x
                == 148 && y == 61 && color is Off && reads_as_date(
                label.chars(),
                local_datetime(nanos),
            )
            &&& actions[3] matches Action::Draw { font, label, x, y, color } && font is Large && x
                == 148 && y == 106 && color is Off && reads_as_time_with_seconds(
                label.chars(),
                local_datetime(nanos),
            )
        }),
{
    law_every_instant_is_shown(nanos);
    law_labels_read_as_what_they_tell(WifiState::Disconnected, local_datetime(nanos));
}

/// Whatever the local time is, the labels that are drawn of it are its own: the date
/// and the time to the second, with nothing put in the place of anything else.
pub proof fn law_drawn_labels_are_of_the_time(local: DateTime)
    ensures
        time_drawing(local).len() == 3,
        time_drawing(local)[0] == Action::Setup(Lut::Fast),
        time_drawing(local)[1] matches Action::Draw { label, .. } && label == Label::Date(local)
            && reads_as_date(label.chars(), local),
        time_drawing(local)[2] matches Action::Draw { label, .. } && label
            == Label::TimeWithSeconds(local) && reads_as_time_with_seconds(label.chars(), local),
{
    law_labels_read_as_what_they_tell(WifiState::Disconnected, local);
}

/// Switching on resets the real-time clock and refreshes the panel slowly. A new state
/// of the connection is drawn in the framed status bar, which is refreshed on its own,
/// fast.
pub proof fn law_new_state_is_shown(state: WifiState)
    ensures
        startup_actions() == seq![Action::ResetRtc, Action::Setup(Lut::Internal), Action::Update],
        status_actions(state).len() == 4,
        status_actions(state)[0] == Action::Setup(Lut::Fast),
        status_actions(state)[1] == (Action::FillFramed {
            area: Rectangle { x: 0, y: 0, width: 296, height: 16 },
            fill: Color::On,
            frame: Color::Off,
            frame_width: 2,
        }),
        status_actions(state)[2] == (Action::Draw {
            font: Font::Small,
            label: Label::Status(state),
            x: 148,
            y: 14,
            color: Color::Off,
        }),
        status_actions(state)[3] == Action::PartialUpdate(
            UpdateRegion { x: 0, y: 0, width: 296, height: 16 },
        ),
{
}

/// Each edge of the smallest rectangle that holds two is an edge of one of them, and
/// lies no further in than that of the other.
pub proof fn law_edges_of_the_hull(a: Rectangle, b: Rectangle)
    requires
        a.countable(),
        b.countable(),
    ensures
        ({
            let hull = a.hull(b);
            &&& hull.x <= a.x && hull.x <= b.x && (hull.x == a.x || hull.x == b.x)
            &&& hull.y <= a.y && hull.y <= b.y && (hull.y == a.y || hull.y == b.y)
            &&& hull.x + hull.width >= a.x + a.width && hull.x + hull.width >= b.x + b.width
            &&& hull.x + hull.width == a.x + a.width || hull.x + hull.width == b.x + b.width
            &&& hull.y + hull.height >= a.y + a.height && hull.y + hull.height >= b.y + b.height
            &&& hull.y + hull.height == a.y + a.height || hull.y + hull.height == b.y + b.height
        }),
{
}

/// Rounding out moves the first row up and the last row down to the borders of groups
/// of eight, by less than eight rows each, and leaves the columns as they are.
pub proof fn law_rounding_out_moves_less_than_a_group(area: Rectangle)
    requires
        area.y >= 0,
        area.roundable(),
    ensures
        ({
            let out = area.rounded_out();
            &&& out.x == area.x && out.width == area.width
            &&& out.y % 8 == 0 && (out.y + out.height) % 8 == 0
            &&& 0 <= out.y <= area.y < out.y + 8
            &&& area.y + area.height <= out.y + out.height < area.y + area.height + 8
        }),
{
}

/// If only one of the two was drawn, what was drawn is that one; if both were, it is
/// what holds them. Whatever was drawn on the panel can be refreshed.
pub proof fn law_what_was_drawn_is_refreshed(a: Rectangle, b: Rectangle)
    ensures
        drawn_area(Some(a), None) == Some(a),
        drawn_area(None, Some(b)) == Some(b),
        drawn_area(Some(a), Some(b)) == Some(a.hull(b)),
        drawn_area(None, None) is None,
        a.x >= 0 && a.y >= 0 && a.x + a.width <= 296 && a.y + a.height <= 128 && b.x >= 0 && b.y
            >= 0 && b.x + b.width <= 296 && b.y + b.height <= 128 ==> refreshable_drawing(
            Some(a),
            Some(b),
        ) && refreshable_drawing(Some(a), None) && refreshable_drawing(None, Some(b)),
        refreshable_drawing(None, None),
        a.countable() <==> a.x >= 0 && a.y >= 0 && a.x + a.width < 0x1_0000_0000 && a.y + a.height
            < 0x1_0000_0000,
        a.roundable() <==> a.height + 7 + a.y % 8 < 0x1_0000_0000,
        refreshable_drawing(Some(a), None) <==> a.x >= 0 && a.y >= 0 && a.roundable(),
        refreshable_drawing(None, Some(b)) <==> b.x >= 0 && b.y >= 0 && b.roundable(),
        refreshable_drawing(Some(a), Some(b)) <==> a.countable() && b.countable() && a.hull(
            b,
        ).roundable(),
{
}

} // verus!
