//! The layout of the panel, what can be drawn on it, and which parts of it can
//! be refreshed on their own.

use crate::reading::Reading;
use crate::text::{
    append_padded, decimal, law_padded_text_is_the_number, lemma_decimal_len, numeral, zero_padded,
};
use crate::time_util::{DateTime, PrimitiveDateTime};
use crate::wifi::WifiState;
use vstd::arithmetic::power::pow;
use vstd::prelude::*;

verus! {

/// Width of the panel in pixels.
pub const WIDTH: u32 = 296;

/// Height of the panel in pixels.
pub const HEIGHT: u32 = 128;

/// Height of the Wi-Fi status bar at the top of the panel.
pub const STATUS_HEIGHT: u32 = 16;

/// Y boundary between the date row (top) and the time row (bottom) of the
/// content area, which is what lies below the status bar.
pub const CONTENT_MID_Y: i32 = 72;

/// X boundary between the left column (date and time) and the right column
/// (temperatures).
pub const RIGHT_COL_X: i32 = 144;

/// Width of the right column.
pub const RIGHT_COL_W: u32 = 152;

/// Centre X of the left column, where date and time are aligned.
pub const LEFT_COL_CENTER_X: i32 = 72;

/// Centre X of the right column, where the temperatures are aligned.
pub const RIGHT_COL_CENTER_X: i32 = 220;

/// Centre X of the panel, where the status is aligned.
pub const CENTER_X: i32 = 148;

/// Baseline of the status.
pub const STATUS_BASELINE_Y: i32 = 14;

/// Baseline of the date: the medium font in the top row.
pub const DATE_BASELINE_Y: i32 = 54;

/// Baseline of the time: the large font in the bottom row.
pub const TIME_BASELINE_Y: i32 = 119;

/// Baseline of the north temperature: the large font in the top row.
pub const NORTH_BASELINE_Y: i32 = 63;

/// Baseline of the south temperature: the large font in the bottom row.
pub const SOUTH_BASELINE_Y: i32 = 119;

/// A rectangle of pixels.
#[derive(Clone, Copy, Debug, PartialEq, Eq, Structural)]
pub struct Rectangle {
    pub x: i32,
    pub y: i32,
    pub width: u32,
    pub height: u32,
}

/// A rectangle of pixels that the panel can refresh on its own.
#[derive(Clone, Copy, Debug, PartialEq, Eq, Structural)]
pub struct UpdateRegion {
    pub x: u32,
    pub y: u32,
    pub width: u32,
    pub height: u32,
}

impl Rectangle {
    /// Whether the pixel lies in the rectangle.
    pub open spec fn contains(self, px: int, py: int) -> bool {
        self.x <= px < self.x + self.width && self.y <= py < self.y + self.height
    }

    /// Whether the panel can refresh the rectangle on its own: it starts at no
    /// negative coordinate, and takes up whole groups of eight rows.
    pub open spec fn refreshable(self) -> bool {
        self.x >= 0 && self.y >= 0 && self.y % 8 == 0 && self.height % 8 == 0
    }

    /// The rectangle as a region to refresh.
    pub open spec fn as_region(self) -> UpdateRegion {
        UpdateRegion {
            x: self.x as u32,
            y: self.y as u32,
            width: self.width,
            height: self.height,
        }
    }

    /// The rectangle as a region to refresh, if the driver takes it.
    pub fn region(&self) -> (r: Option<UpdateRegion>)
        ensures
            r == (if self.refreshable() {
                Some(self.as_region())
            } else {
                None
            }),
    {
        if uc8151_accepts(self) {
            Some(
                UpdateRegion {
                    x: self.x as u32,
                    y: self.y as u32,
                    width: self.width,
                    height: self.height,
                },
            )
        } else {
            None
        }
    }
}

impl UpdateRegion {
    /// Whether the region lies on the panel and takes up whole groups of eight rows.
    pub open spec fn valid(self) -> bool {
        &&& self.x + self.width <= WIDTH
        &&& self.y + self.height <= HEIGHT
        &&& self.y % 8 == 0
        &&& self.height % 8 == 0
    }
}

/// Calls `uc8151::UpdateRegion::try_from` on the rectangle of embedded-graphics
/// with the same corner and size. It succeeds exactly where no coordinate is
/// negative, and the y coordinate and the height are multiples of eight.
#[verifier::external_body]
fn uc8151_accepts(area: &Rectangle) -> (r: bool)
    ensures
        r == area.refreshable(),
{
    let top_left = embedded_graphics::geometry::Point::new(area.x, area.y);
    let size = embedded_graphics::geometry::Size::new(area.width, area.height);
    let rectangle = embedded_graphics::primitives::Rectangle::new(top_left, size);
    uc8151::UpdateRegion::try_from(rectangle).is_ok()
}

/// The whole panel.
pub open spec fn panel_area() -> Rectangle {
    Rectangle { x: 0, y: 0, width: WIDTH, height: HEIGHT }
}

/// The status bar.
pub open spec fn status_area() -> Rectangle {
    Rectangle { x: 0, y: 0, width: WIDTH, height: STATUS_HEIGHT }
}

/// The top row of the left column.
pub open spec fn date_area() -> Rectangle {
    Rectangle {
        x: 0,
        y: STATUS_HEIGHT as i32,
        width: RIGHT_COL_X as u32,
        height: (CONTENT_MID_Y - STATUS_HEIGHT) as u32,
    }
}

/// The bottom row of the left column.
pub open spec fn time_area() -> Rectangle {
    Rectangle {
        x: 0,
        y: CONTENT_MID_Y,
        width: RIGHT_COL_X as u32,
        height: (HEIGHT - CONTENT_MID_Y) as u32,
    }
}

/// The right column.
pub open spec fn temperature_area() -> Rectangle {
    Rectangle {
        x: RIGHT_COL_X,
        y: STATUS_HEIGHT as i32,
        width: RIGHT_COL_W,
        height: (HEIGHT - STATUS_HEIGHT) as u32,
    }
}

/// The whole panel.
pub fn panel() -> (r: Rectangle)
    ensures
        r == panel_area(),
{
    Rectangle { x: 0, y: 0, width: WIDTH, height: HEIGHT }
}

/// The status bar, which is refreshed on its own.
pub fn status_bar() -> (r: Rectangle)
    ensures
        r == status_area(),
        r.refreshable(),
{
    Rectangle { x: 0, y: 0, width: WIDTH, height: STATUS_HEIGHT }
}

/// The bottom row of the left column, which is refreshed on its own.
pub fn time_row() -> (r: Rectangle)
    ensures
        r == time_area(),
        r.refreshable(),
{
    Rectangle {
        x: 0,
        y: CONTENT_MID_Y,
        width: RIGHT_COL_X as u32,
        height: (HEIGHT as i32 - CONTENT_MID_Y) as u32,
    }
}

/// The right column, which is refreshed on its own.
pub fn temperature_column() -> (r: Rectangle)
    ensures
        r == temperature_area(),
        r.refreshable(),
{
    Rectangle {
        x: RIGHT_COL_X,
        y: STATUS_HEIGHT as i32,
        width: RIGHT_COL_W,
        height: HEIGHT - STATUS_HEIGHT,
    }
}

/// Every pixel of the panel lies in exactly one of the four areas, the pixels of
/// the areas lie on the panel, and each area can be refreshed on its own.
pub proof fn law_areas_tile_the_panel(px: int, py: int)
    ensures
        panel_area().contains(px, py) <==> status_area().contains(px, py) || date_area().contains(
            px,
            py,
        ) || time_area().contains(px, py) || temperature_area().contains(px, py),
        !(status_area().contains(px, py) && date_area().contains(px, py)),
        !(status_area().contains(px, py) && time_area().contains(px, py)),
        !(status_area().contains(px, py) && temperature_area().contains(px, py)),
        !(date_area().contains(px, py) && time_area().contains(px, py)),
        !(date_area().contains(px, py) && temperature_area().contains(px, py)),
        !(time_area().contains(px, py) && temperature_area().contains(px, py)),
        status_area().refreshable() && status_area().as_region().valid(),
        date_area().refreshable() && date_area().as_region().valid(),
        time_area().refreshable() && time_area().as_region().valid(),
        temperature_area().refreshable() && temperature_area().as_region().valid(),
{
}

/// Where the baseline of a font lies that is centred in a row.
pub open spec fn centred_baseline(row: Rectangle, ascent: int) -> int {
    row.y + (row.height + ascent) / 2
}

/// The two rows of the content area are equally high, the right column starts
/// at the group of eight columns next to the centre, the labels are aligned at
/// the centres of their columns, and their baselines are centred in their rows.
/// The medium font rises 20 pixels above its baseline, the large one 38.
pub proof fn law_layout_is_centred()
    ensures
        date_area().height == time_area().height,
        RIGHT_COL_X % 8 == 0,
        WIDTH / 2 - 4 <= RIGHT_COL_X <= WIDTH / 2 + 4,
        RIGHT_COL_X + RIGHT_COL_W == WIDTH,
        CENTER_X == WIDTH / 2,
        LEFT_COL_CENTER_X == RIGHT_COL_X / 2,
        RIGHT_COL_CENTER_X == RIGHT_COL_X + RIGHT_COL_W / 2,
        STATUS_BASELINE_Y == STATUS_HEIGHT - 2,
        DATE_BASELINE_Y == centred_baseline(date_area(), 20),
        TIME_BASELINE_Y == centred_baseline(time_area(), 38),
        NORTH_BASELINE_Y == centred_baseline(date_area(), 38),
        SOUTH_BASELINE_Y == centred_baseline(time_area(), 38),
{
}

/// The colour of a pixel.
#[derive(Clone, Copy, Debug, PartialEq, Eq, Structural)]
pub enum Color {
    Off,
    On,
}

/// The colour of what is drawn.
pub const FOREGROUND: Color = Color::Off;

/// The colour behind what is drawn.
pub const BACKGROUND: Color = Color::On;

/// A font of the panel.
#[derive(Clone, Copy, Debug, PartialEq, Eq, Structural)]
pub enum Font {
    Small,
    Medium,
    Large,
}

/// A waveform table of the panel: slow and clean, or fast.
#[derive(Clone, Copy, Debug, PartialEq, Eq, Structural)]
pub enum Lut {
    Internal,
    Fast,
}

/// What a text on the panel tells.
#[derive(Clone, Copy, Debug, PartialEq, Eq)]
pub enum Label {
    /// The state of the connection.
    Status(WifiState),
    /// The date, as year, month and day.
    Date(DateTime),
    /// The time, as hour and minute.
    Time(DateTime),
    /// The time, as hour, minute and second.
    TimeWithSeconds(DateTime),
}

/// A date as text.
pub open spec fn date_text(dt: DateTime) -> Seq<char> {
    zero_padded(dt.year as int, 4) + seq!['-'] + zero_padded(dt.month as int, 2) + seq!['-']
        + zero_padded(dt.day as int, 2)
}

/// A time as text, to the minute.
pub open spec fn time_text(dt: DateTime) -> Seq<char> {
    zero_padded(dt.hour as int, 2) + seq![':'] + zero_padded(dt.minute as int, 2)
}

/// A time as text, to the second.
pub open spec fn time_with_seconds_text(dt: DateTime) -> Seq<char> {
    time_text(dt) + seq![':'] + zero_padded(dt.second as int, 2)
}

impl Label {
    /// What [`Label::text`] returns.
    pub open spec fn chars(self) -> Seq<char> {
        match self {
            Label::Status(state) => state.name(),
            Label::Date(dt) => date_text(dt),
            Label::Time(dt) => time_text(dt),
            Label::TimeWithSeconds(dt) => time_with_seconds_text(dt),
        }
    }

    /// The text to draw.
    pub fn text(&self) -> (r: String)
        ensures
            r@ == self.chars(),
    {
        match self {
            Label::Status(state) => state.to_str().to_owned(),
            Label::Date(dt) => format_date(dt),
            Label::Time(dt) => format_time(dt),
            Label::TimeWithSeconds(dt) => {
                proof {
                    reveal_strlit(":");
                }
                let mut text = format_time(dt);
                text.append(":");
                append_padded(&mut text, dt.second as i16, 2);
                text
            },
        }
    }
}

/// The date as year, month and day.
pub fn format_date(dt: &DateTime) -> (r: String)
    ensures
        r@ == date_text(*dt),
{
    proof {
        reveal_strlit("-");
    }
    let mut text = String::new();
    append_padded(&mut text, dt.year, 4);
    text.append("-");
    append_padded(&mut text, dt.month as i16, 2);
    text.append("-");
    append_padded(&mut text, dt.day as i16, 2);
    text
}

/// The time as hour and minute.
pub fn format_time(dt: &DateTime) -> (r: String)
    ensures
        r@ == time_text(*dt),
{
    proof {
        reveal_strlit(":");
    }
    let mut text = String::new();
    append_padded(&mut text, dt.hour as i16, 2);
    text.append(":");
    append_padded(&mut text, dt.minute as i16, 2);
    text
}

/// Every date takes 11 characters up to the year -1000, and 10 after it; every
/// time takes 5 characters, and 8 with seconds.
pub proof fn law_texts_fit(dt: DateTime)
    requires
        dt.valid(),
    ensures
        date_text(dt).len() == if dt.year <= -1000 { 11int } else { 10int },
        time_text(dt).len() == 5,
        time_with_seconds_text(dt).len() == 8,
{
    reveal_with_fuel(pow, 5);
    if dt.year < 0 {
        lemma_decimal_len((-dt.year) as nat, 4);
        if -dt.year < 1000 {
            lemma_decimal_len((-dt.year) as nat, 3);
        } else {
            reveal_with_fuel(decimal, 4);
        }
    } else {
        lemma_decimal_len(dt.year as nat, 4);
    }
    lemma_decimal_len(dt.month as nat, 2);
    lemma_decimal_len(dt.day as nat, 2);
    lemma_decimal_len(dt.hour as nat, 2);
    lemma_decimal_len(dt.minute as nat, 2);
    lemma_decimal_len(dt.second as nat, 2);
}

/// Something to do with the panel, the real-time clock or the watchdog.
#[derive(Clone, Copy, Debug, PartialEq, Eq)]
pub enum Action {
    /// Reset the real-time clock.
    ResetRtc,
    /// Switch all alarms of the real-time clock off.
    DisableAllAlarms,
    /// Set the second at which the alarm goes off.
    SetAlarmSeconds(u8),
    /// Make the alarm go off at its second.
    EnableAlarmSeconds,
    /// Make the alarm pull the interrupt line.
    EnableAlarmInterrupt,
    /// Acknowledge the alarm.
    ClearAlarmFlag,
    /// Set the real-time clock.
    SetRtc(PrimitiveDateTime),
    /// Read the real-time clock.
    ReadRtc,
    /// Start the period of the watchdog anew.
    ResetWatchdog,
    /// Fill the area with the colour.
    Fill(Rectangle, Color),
    /// Fill the area with the colour, inside a frame.
    FillFramed { area: Rectangle, fill: Color, frame: Color, frame_width: u32 },
    /// Draw the label in the colour, centred at `x` on the baseline `y`. What is
    /// behind the text stays as it is.
    Draw { font: Font, label: Label, x: i32, y: i32, color: Color },
    /// Draw the temperature in the colour, centred at `x` on the baseline `y`. What
    /// is behind the text stays as it is. The text of the number is made where the
    /// action is performed.
    DrawTemperature { font: Font, reading: Reading, x: i32, y: i32, color: Color },
    /// Set the panel up with a waveform table.
    Setup(Lut),
    /// Refresh the whole panel.
    Update,
    /// Refresh a part of the panel.
    PartialUpdate(UpdateRegion),
}

/// What [`render_temps`] returns.
pub open spec fn temps_drawing(
    north: Reading,
    south: Reading,
    foreground: Color,
    background: Color,
    font: Font,
) -> Seq<Action> {
    seq![
        Action::Fill(temperature_area(), background),
        Action::DrawTemperature {
            font,
            reading: north,
            x: RIGHT_COL_CENTER_X,
            y: NORTH_BASELINE_Y,
            color: foreground,
        },
        Action::DrawTemperature {
            font,
            reading: south,
            x: RIGHT_COL_CENTER_X,
            y: SOUTH_BASELINE_Y,
            color: foreground,
        },
    ]
}

/// Draws the north (top right) and south (bottom right) temperatures in the
/// right column, which is cleared before.
pub fn render_temps(
    north: Reading,
    south: Reading,
    foreground: Color,
    background: Color,
    font: Font,
) -> (r: Vec<Action>)
    ensures
        r@ == temps_drawing(north, south, foreground, background, font),
{
    vec![
        Action::Fill(temperature_column(), background),
        Action::DrawTemperature {
            font,
            reading: north,
            x: RIGHT_COL_CENTER_X,
            y: NORTH_BASELINE_Y,
            color: foreground,
        },
        Action::DrawTemperature {
            font,
            reading: south,
            x: RIGHT_COL_CENTER_X,
            y: SOUTH_BASELINE_Y,
            color: foreground,
        },
    ]
}

/// Drawing the temperatures first fills exactly the right column, and nothing else
/// is filled; the two temperatures are drawn after that, north and then south.
pub proof fn law_temps_clear_the_right_column(
    north: Reading,
    south: Reading,
    foreground: Color,
    background: Color,
    font: Font,
)
    ensures
        ({
            let drawing = temps_drawing(north, south, foreground, background, font);
            &&& drawing.len() == 3
            &&& drawing[0] matches Action::Fill(area, color) && color == background && forall|
                px: int,
                py: int,
            | #[trigger]
                area.contains(px, py) <==> 144 <= px < 296 && 16 <= py < 128
            &&& drawing[1] == (Action::DrawTemperature {
                font,
                reading: north,
                x: 220,
                y: 63,
                color: foreground,
            })
            &&& drawing[2] == (Action::DrawTemperature {
                font,
                reading: south,
                x: 220,
                y: 119,
                color: foreground,
            })
        }),
{
}

/// The colour of a pixel after an action, where it was `before` until then. `ink`
/// tells which pixels the text or the frame of an action covers.
pub open spec fn pixel_after(
    before: Color,
    action: Action,
    ink: spec_fn(Action, int, int) -> bool,
    px: int,
    py: int,
) -> Color {
    match action {
        Action::Fill(area, color) => if area.contains(px, py) {
            color
        } else {
            before
        },
        Action::FillFramed { area, fill, frame, .. } => if ink(action, px, py) {
            frame
        } else if area.contains(px, py) {
            fill
        } else {
            before
        },
        Action::Draw { color, .. } | Action::DrawTemperature { color, .. } => if ink(
            action,
            px,
            py,
        ) {
            color
        } else {
            before
        },
        _ => before,
    }
}

/// The colour of a pixel after the actions, one after another.
pub open spec fn pixel_after_all(
    before: Color,
    actions: Seq<Action>,
    ink: spec_fn(Action, int, int) -> bool,
    px: int,
    py: int,
) -> Color
    decreases actions.len(),
{
    if actions.len() == 0 {
        before
    } else {
        pixel_after(
            pixel_after_all(before, actions.drop_last(), ink, px, py),
            actions.last(),
            ink,
            px,
            py,
        )
    }
}

/// Where the first action fills a pixel, what it was before does not matter.
pub proof fn lemma_filled_first(
    a: Color,
    b: Color,
    actions: Seq<Action>,
    ink: spec_fn(Action, int, int) -> bool,
    px: int,
    py: int,
)
    requires
        actions.len() > 0,
        actions[0] matches Action::Fill(area, _) && area.contains(px, py),
    ensures
        pixel_after_all(a, actions, ink, px, py) == pixel_after_all(b, actions, ink, px, py),
    decreases actions.len(),
{
    if actions.len() > 1 {
        lemma_filled_first(a, b, actions.drop_last(), ink, px, py);
    } else {
        reveal_with_fuel(pixel_after_all, 2);
    }
}

/// However texts look, drawing temperatures leaves every pixel of the right column
/// in a colour that does not depend on what was there: nothing of an earlier
/// drawing shines through.
pub proof fn law_old_temps_do_not_shine_through(
    a: Color,
    b: Color,
    north: Reading,
    south: Reading,
    foreground: Color,
    background: Color,
    font: Font,
    ink: spec_fn(Action, int, int) -> bool,
    px: int,
    py: int,
)
    requires
        144 <= px < 296,
        16 <= py < 128,
    ensures
        ({
            let drawing = temps_drawing(north, south, foreground, background, font);
            pixel_after_all(a, drawing, ink, px, py) == pixel_after_all(b, drawing, ink, px, py)
        }),
{
    let drawing = temps_drawing(north, south, foreground, background, font);
    lemma_filled_first(a, b, drawing, ink, px, py);
}

/// However texts look, drawing the same temperatures again changes no pixel.
pub proof fn law_drawing_temps_twice_changes_nothing(
    before: Color,
    north: Reading,
    south: Reading,
    foreground: Color,
    background: Color,
    font: Font,
    ink: spec_fn(Action, int, int) -> bool,
    px: int,
    py: int,
)
    ensures
        ({
            let drawing = temps_drawing(north, south, foreground, background, font);
            let once = pixel_after_all(before, drawing, ink, px, py);
            pixel_after_all(once, drawing, ink, px, py) == once
        }),
{
    let drawing = temps_drawing(north, south, foreground, background, font);
    let two = drawing.drop_last();
    reveal_with_fuel(pixel_after_all, 4);
    assert(two.drop_last().drop_last() == Seq::<Action>::empty());
}

/// Where the areas lie, in pixels: the status bar takes the top 16 rows of a panel of
/// 296 by 128, and what is below is parted at column 144, on the left at row 72.
pub proof fn law_where_the_areas_lie()
    ensures
        panel_area() == (Rectangle { x: 0, y: 0, width: 296, height: 128 }),
        status_area() == (Rectangle { x: 0, y: 0, width: 296, height: 16 }),
        date_area() == (Rectangle { x: 0, y: 16, width: 144, height: 56 }),
        time_area() == (Rectangle { x: 0, y: 72, width: 144, height: 56 }),
        temperature_area() == (Rectangle { x: 144, y: 16, width: 152, height: 112 }),
{
}

/// A rectangle that can be refreshed on its own is refreshed where it lies: the region
/// has its corner and its size. It is one exactly if no coordinate is negative and its
/// first row and the row after its last are the first rows of groups of eight.
pub proof fn law_region_is_the_rectangle(area: Rectangle)
    ensures
        area.refreshable() <==> area.x >= 0 && area.y >= 0 && area.y % 8 == 0 && (area.y
            + area.height) % 8 == 0,
        area.refreshable() ==> area.as_region().x == area.x && area.as_region().y == area.y,
        area.as_region().width == area.width && area.as_region().height == area.height,
{
}

/// Whether the text is the date: year, month and day with hyphens between them, the
/// year in four places and the others in two.
pub open spec fn reads_as_date(text: Seq<char>, dt: DateTime) -> bool {
    exists|year: Seq<char>, month: Seq<char>, day: Seq<char>|
        {
            &&& text == year + seq!['-'] + month + seq!['-'] + day
            &&& #[trigger] numeral(year, dt.year as int, 4)
            &&& #[trigger] numeral(month, dt.month as int, 2)
            &&& #[trigger] numeral(day, dt.day as int, 2)
        }
}

/// Whether the text is the time: hour and minute with a colon between them, in two
/// places each.
pub open spec fn reads_as_time(text: Seq<char>, dt: DateTime) -> bool {
    exists|hour: Seq<char>, minute: Seq<char>|
        {
            &&& text == hour + seq![':'] + minute
            &&& #[trigger] numeral(hour, dt.hour as int, 2)
            &&& #[trigger] numeral(minute, dt.minute as int, 2)
        }
}

/// Whether the text is the time to the second: hour, minute and second with colons
/// between them, in two places each.
pub open spec fn reads_as_time_with_seconds(text: Seq<char>, dt: DateTime) -> bool {
    exists|hour: Seq<char>, minute: Seq<char>, second: Seq<char>|
        {
            &&& text == hour + seq![':'] + minute + seq![':'] + second
            &&& #[trigger] numeral(hour, dt.hour as int, 2)
            &&& #[trigger] numeral(minute, dt.minute as int, 2)
            &&& #[trigger] numeral(second, dt.second as int, 2)
        }
}

/// Every label reads as what it tells.
pub proof fn law_labels_read_as_what_they_tell(state: WifiState, dt: DateTime)
    ensures
        Label::Status(state).chars() == state.name(),
        reads_as_date(Label::Date(dt).chars(), dt),
        reads_as_time(Label::Time(dt).chars(), dt),
        reads_as_time_with_seconds(Label::TimeWithSeconds(dt).chars(), dt),
        reads_as_date(date_text(dt), dt),
        reads_as_time(time_text(dt), dt),
{
    law_padded_text_is_the_number(dt.year as int, 4);
    law_padded_text_is_the_number(dt.month as int, 2);
    law_padded_text_is_the_number(dt.day as int, 2);
    law_padded_text_is_the_number(dt.hour as int, 2);
    law_padded_text_is_the_number(dt.minute as int, 2);
    law_padded_text_is_the_number(dt.second as int, 2);
}

} // verus!
