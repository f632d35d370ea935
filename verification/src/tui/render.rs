//! What a frame shows and where: every text, number and area that drawing puts
//! on the screen.

use crate::application::transport::PlaybackPhase;
use crate::application::view::{format_saved, NowPlaying, NowView, PersistenceStatus, PlayerView,
    ScreenView};
use crate::clock::{format_hms, Duration};
use crate::playback::PositionProvenance;
use crate::playlist::PlaylistId;
use crate::queue::{DisplayDuration, DurationSource, QueueEntryId};
use crate::text::{chars_of, push_char, push_decimal, push_text, push_two_digits};
use crate::tui::geometry::{centered_box, column, row, take_left, take_right, Position, Rect};
use crate::tui::input::row_of;
use crate::tui::layout::{queue_body, visible_rows, Tier};
use crate::tui::state::{InputPurpose, UiState};
use crate::media::slice_text;
use vstd::prelude::*;

verus! {

broadcast use crate::model::group_model;

pub const EMPTY_QUEUE: &'static str = "Queue is empty — press b to browse or a to add";

pub const BRAND: &'static str = "TENUTO";

pub const NOTHING_PLAYING: &'static str = "Nothing playing";

pub const UNKNOWN_TIME: &'static str = "--:--";

pub const CONFIRM_CLEAR_TEXT: &'static str =
    "Clear the queue? Listening history is kept. y to confirm";

/// Bars drawn while no analysis is available.
pub const FLAT_BANDS: usize = 24;

/// The spectrum height below which no row is given up to band numbers.
pub const LABELLED_MIN_ROWS: u16 = 5;

pub const VOLUME_COLUMNS: u64 = 10;

/// The transport row width below which the compact tier has no slider.
pub const SLIDER_MIN_ROW: u16 = 64;

pub const MARKER_COLUMNS: u16 = 2;

pub const NUMBER_COLUMNS: u16 = 4;

pub const DURATION_COLUMNS: u16 = 10;

pub const SAVED_COLUMNS: u16 = 16;

/// The row width below which the saved column is dropped.
pub const SAVED_MIN_ROW: u16 = 44;

/// The row width below which the duration column is dropped.
pub const DURATION_MIN_ROW: u16 = 24;

// ---------------------------------------------------------------------- hits

#[derive(Clone, Copy, Debug, PartialEq, Eq, Structural)]
pub enum TransportButton {
    Previous,
    SeekBack,
    PlayPause,
    Stop,
    SeekForward,
    Next,
    Shuffle,
}

/// Where the last frame put what a mouse can act on.
#[derive(Debug)]
pub struct HitMap {
    /// The playlist tabs that are shown.
    pub tabs: Vec<(Rect, PlaylistId)>,
    /// Each visible queue row.
    pub rows: Vec<(Rect, QueueEntryId)>,
    pub queue: Rect,
    /// The bar alone, so that a column stands for a place in the track.
    pub progress: Rect,
    pub buttons: Vec<(Rect, TransportButton)>,
}

/// What the first area that covers `point` stands for.
pub open spec fn hit_at<T>(hits: Seq<(Rect, T)>, point: Position, from: int) -> Option<T>
    decreases hits.len() - from,
{
    if from >= hits.len() {
        None
    } else if hits[from].0.covers(point) {
        Some(hits[from].1)
    } else {
        hit_at(hits, point, from + 1)
    }
}

pub fn hit<T: Copy>(hits: &Vec<(Rect, T)>, point: Position) -> (found: Option<T>)
    ensures
        found == hit_at(hits@, point, 0),
{
    let mut at: usize = 0;
    while at < hits.len()
        invariant
            at <= hits@.len(),
            hit_at(hits@, point, 0) == hit_at(hits@, point, at as int),
        decreases hits@.len() - at,
    {
        if hits[at].0.contains(point) {
            return Some(hits[at].1);
        }
        at += 1;
    }
    None
}

// --------------------------------------------------------------------- times

impl Duration {
    /// `mm:ss` under an hour, `HH:MM:SS` from then on.
    pub open spec fn clock_spec(self) -> Seq<char> {
        let full = self.hms_spec();
        if full.len() >= 3 && full.take(3) == seq!['0', '0', ':'] {
            full.skip(3)
        } else {
            full
        }
    }
}

pub fn clock(span: Duration) -> (text: String)
    ensures
        text@ == span.clock_spec(),
{
    let full = format_hms(span);
    let chars = chars_of(full.as_str());
    if chars.len() >= 3 && chars[0] == '0' && chars[1] == '0' && chars[2] == ':' {
        proof {
            assert(full@.take(3) =~= seq!['0', '0', ':']);
            assert(full@.subrange(3, full@.len() as int) =~= full@.skip(3));
        }
        slice_text(&chars, 3, chars.len())
    } else {
        proof {
            if full@.len() >= 3 && full@.take(3) == seq!['0', '0', ':'] {
                assert(full@.take(3)[0] == '0');
                assert(full@.take(3)[1] == '0');
                assert(full@.take(3)[2] == ':');
            }
        }
        full
    }
}

impl DisplayDuration {
    /// A declared length in parentheses, and an estimated one with its mark.
    pub open spec fn label(self) -> Seq<char> {
        match self.source {
            DurationSource::Decoded(PositionProvenance::Established) => self.value.clock_spec(),
            DurationSource::Decoded(PositionProvenance::Estimated) => seq!['~']
                + self.value.clock_spec(),
            DurationSource::Declared => seq!['('] + self.value.clock_spec() + seq![')'],
        }
    }
}

pub fn duration_label(duration: DisplayDuration) -> (label: String)
    ensures
        label@ == duration.label(),
{
    let time = clock(duration.value);
    match duration.source {
        DurationSource::Decoded(PositionProvenance::Established) => time,
        DurationSource::Decoded(PositionProvenance::Estimated) => {
            let mut label = String::new();
            push_char(&mut label, '~');
            push_text(&mut label, time.as_str());
            proof {
                assert(label@ =~= duration.label());
            }
            label
        },
        DurationSource::Declared => {
            let mut label = String::new();
            push_char(&mut label, '(');
            push_text(&mut label, time.as_str());
            push_char(&mut label, ')');
            proof {
                assert(label@ =~= duration.label());
            }
            label
        },
    }
}

/// How much of a track is played: `played` of `whole`.
#[derive(Clone, Copy, Debug, PartialEq, Eq, Structural)]
pub struct Ratio {
    pub played: Duration,
    pub whole: Duration,
}

/// The time label: a position and a length once something is loaded, and what
/// is remembered before.
pub open spec fn time_label(now: Option<NowView>) -> Seq<char> {
    match now {
        None => UNKNOWN_TIME@ + " / "@ + UNKNOWN_TIME@,
        Some(now) => if now.loaded {
            (if now.estimated_position {
                seq!['~']
            } else {
                seq![]
            }) + now.position.clock_spec() + " / "@ + match now.duration {
                Some(duration) => duration.label(),
                None => UNKNOWN_TIME@,
            }
        } else {
            let saved = match now.saved {
                Some(history) => history.label(),
                None => UNKNOWN_TIME@,
            };
            match now.duration {
                Some(duration) => saved + seq![' ', '·', ' '] + duration.label(),
                None => saved,
            }
        },
    }
}

/// How much of the bar is filled: something only once a track is loaded whose
/// length the decoder confirmed.
pub open spec fn bar_ratio(now: Option<NowView>) -> Option<Ratio> {
    match now {
        Some(now) => match now.duration {
            Some(DisplayDuration { value, source: DurationSource::Decoded(_) }) => if now.loaded
                && value.nanos > 0 {
                Some(
                    Ratio {
                        played: if now.position.nanos <= value.nanos {
                            now.position
                        } else {
                            value
                        },
                        whole: value,
                    },
                )
            } else {
                None
            },
            _ => None,
        },
        None => None,
    }
}

pub fn progress_label(now: Option<&NowPlaying>) -> (shown: (String, Option<Ratio>))
    ensures
        ({
            let seen = match now {
                Some(now) => Some(now@),
                None => None,
            };
            shown.0@ == time_label(seen) && shown.1 == bar_ratio(seen)
        }),
{
    let now = match now {
        Some(now) => now,
        None => {
            let mut label = UNKNOWN_TIME.to_owned();
            push_text(&mut label, " / ");
            push_text(&mut label, UNKNOWN_TIME);
            return (label, None);
        },
    };
    if !now.loaded {
        let mut label = match now.saved {
            Some(history) => format_saved(history),
            None => UNKNOWN_TIME.to_owned(),
        };
        if let Some(duration) = now.duration {
            let ghost saved = label@;
            push_char(&mut label, ' ');
            push_char(&mut label, '·');
            push_char(&mut label, ' ');
            push_text(&mut label, duration_label(duration).as_str());
            proof {
                assert(label@ =~= saved + seq![' ', '·', ' '] + duration.label());
            }
        }
        return (label, None);
    }
    let mut label = String::new();
    if now.estimated_position {
        push_char(&mut label, '~');
    }
    push_text(&mut label, clock(now.position).as_str());
    push_text(&mut label, " / ");
    match now.duration {
        Some(duration) => push_text(&mut label, duration_label(duration).as_str()),
        None => push_text(&mut label, UNKNOWN_TIME),
    }
    proof {
        assert(label@ =~= time_label(Some(now@)));
    }
    let ratio = match now.duration {
        Some(DisplayDuration { value, source: DurationSource::Decoded(_) }) => if value.nanos > 0 {
            Some(
                Ratio {
                    played: if now.position.nanos <= value.nanos {
                        now.position
                    } else {
                        value
                    },
                    whole: value,
                },
            )
        } else {
            None
        },
        _ => None,
    };
    (label, ratio)
}

/// `LIVE  12:34`: a live source has no timeline, only how long it was listened
/// to.
pub fn live_label(view: &PlayerView) -> (label: String)
    ensures
        label@ == "LIVE  "@ + match view@.now_playing {
            Some(now) => now.position.clock_spec(),
            None => UNKNOWN_TIME@,
        },
{
    let mut label = "LIVE  ".to_owned();
    match &view.now_playing {
        Some(now) => push_text(&mut label, clock(now.position).as_str()),
        None => push_text(&mut label, UNKNOWN_TIME),
    }
    label
}

/// The bar: after the label where they share a row, and otherwise between
/// brackets.
pub fn bar_area(progress: Rect, shared: bool, used: u16) -> (bar: Rect)
    ensures
        bar == if shared {
            progress.right_of(used)
        } else {
            progress.right_of(1).left_of(1)
        },
{
    let mut bar = progress;
    if shared {
        let _ = take_left(&mut bar, used);
    } else {
        let _ = take_left(&mut bar, 1);
        let _ = take_right(&mut bar, 1);
    }
    bar
}

// --------------------------------------------------------------- information

impl ScreenView {
    /// The information lines: the title, the artist where it is known, and the
    /// album with its year where either is.
    pub open spec fn info(self) -> Seq<Seq<char>> {
        match self.now_playing {
            None => seq![NOTHING_PLAYING@],
            Some(now) => {
                let artist: Seq<Seq<char>> = match now.artist {
                    Some(artist) => seq![artist],
                    None => seq![],
                };
                let release: Seq<Seq<char>> = match (now.album, now.year) {
                    (Some(album), Some(year)) => seq![album + seq![' ', '·', ' '] + year],
                    (Some(only), None) => seq![only],
                    (None, Some(only)) => seq![only],
                    (None, None) => seq![],
                };
                seq![now.title] + artist + release
            },
        }
    }

    /// What the transport is doing, in a word.
    pub open spec fn phase_word(self) -> Seq<char> {
        match self.phase {
            PlaybackPhase::Unloaded => "idle"@,
            PlaybackPhase::Loading => "loading"@,
            PlaybackPhase::LoadFailed => "failed"@,
            PlaybackPhase::Playing => "playing"@,
            PlaybackPhase::Reconnecting => "reconnecting…"@,
            PlaybackPhase::Paused => "paused"@,
            PlaybackPhase::Stopped => "stopped"@,
            PlaybackPhase::Ended => "ended"@,
        }
    }
}

pub fn info_lines(view: &PlayerView) -> (lines: Vec<String>)
    ensures
        crate::model::seq(lines@) == view@.info(),
        1 <= lines@.len() <= 3,
{
    let mut lines: Vec<String> = Vec::new();
    match &view.now_playing {
        None => {
            lines.push(NOTHING_PLAYING.to_owned());
        },
        Some(now) => {
            lines.push(now.title.clone());
            if let Some(artist) = &now.artist {
                lines.push(artist.clone());
            }
            match (&now.album, &now.year) {
                (Some(album), Some(year)) => {
                    let mut release = album.clone();
                    push_char(&mut release, ' ');
                    push_char(&mut release, '·');
                    push_char(&mut release, ' ');
                    push_text(&mut release, year.as_str());
                    proof {
                        assert(release@ =~= album@ + seq![' ', '·', ' '] + year@);
                    }
                    lines.push(release);
                },
                (Some(only), None) => lines.push(only.clone()),
                (None, Some(only)) => lines.push(only.clone()),
                (None, None) => {},
            }
        },
    }
    proof {
        assert(crate::model::seq(lines@) =~= view@.info());
    }
    lines
}

/// How many information lines there are.
pub fn info_line_count(view: &PlayerView) -> (count: u16)
    ensures
        count == view@.info().len(),
        1 <= count <= 3,
{
    let lines = info_lines(view);
    lines.len() as u16
}

/// The transport phase as a word, and whether it waits for data.
pub fn state_label(view: &PlayerView) -> (shown: (&'static str, bool))
    ensures
        shown.0@ == view@.phase_word(),
        shown.1 == (view@.now_playing matches Some(now) && now.buffering),
{
    let label = match view.phase {
        PlaybackPhase::Unloaded => "idle",
        PlaybackPhase::Loading => "loading",
        PlaybackPhase::LoadFailed => "failed",
        PlaybackPhase::Playing => "playing",
        PlaybackPhase::Reconnecting => "reconnecting…",
        PlaybackPhase::Paused => "paused",
        PlaybackPhase::Stopped => "stopped",
        PlaybackPhase::Ended => "ended",
    };
    let buffering: bool = match &view.now_playing {
        Some(now) => now.buffering,
        None => false,
    };
    (label, buffering)
}

/// Whether the transport row ends in the volume slider.
pub fn has_volume_slider(tier: Tier, transport: Rect) -> (slider: bool)
    ensures
        slider == (tier == Tier::Normal || (tier == Tier::Compact && transport.width
            >= SLIDER_MIN_ROW)),
{
    match tier {
        Tier::Normal => true,
        Tier::Compact => transport.width >= SLIDER_MIN_ROW,
        _ => false,
    }
}

/// The flags at the right of the status row: the volume unless there is a
/// slider, and the mouse.
pub open spec fn flags_text(mouse: bool, slider: bool, percent: u8) -> Seq<char> {
    let mouse = if mouse {
        "on"@
    } else {
        "off"@
    };
    if slider {
        " mouse "@ + mouse + " "@
    } else {
        " vol "@ + crate::text::decimal(percent as nat) + "% · mouse "@ + mouse + " "@
    }
}

pub fn status_flags(ui: &UiState, slider: bool, percent: u8) -> (flags: String)
    ensures
        flags@ == flags_text(ui@.mouse_capture, slider, percent),
{
    let mouse = if ui.mouse_capture {
        "on"
    } else {
        "off"
    };
    let mut flags = String::new();
    if slider {
        push_text(&mut flags, " mouse ");
    } else {
        push_text(&mut flags, " vol ");
        push_decimal(&mut flags, percent as u64);
        push_text(&mut flags, "% · mouse ");
    }
    push_text(&mut flags, mouse);
    push_text(&mut flags, " ");
    proof {
        assert(flags@ =~= flags_text(ui@.mouse_capture, slider, percent));
    }
    flags
}

/// What is wrong with saving, if anything is.
pub fn persistence_label(status: PersistenceStatus) -> (label: Option<&'static str>)
    ensures
        match (status, label) {
            (PersistenceStatus::Saving, None) => true,
            (PersistenceStatus::Unsaved, Some(text)) => text@ == "unsaved"@,
            (PersistenceStatus::Failing, Some(text)) => text@ == "not saving"@,
            _ => false,
        },
{
    match status {
        PersistenceStatus::Saving => None,
        PersistenceStatus::Unsaved => Some("unsaved"),
        PersistenceStatus::Failing => Some("not saving"),
    }
}

// ----------------------------------------------------------------- transport

/// Whether Space would pause: a source that reconnects plays on.
pub fn pausing(phase: PlaybackPhase) -> (pauses: bool)
    ensures
        pauses == (phase == PlaybackPhase::Playing || phase == PlaybackPhase::Reconnecting),
{
    phase == PlaybackPhase::Playing || phase == PlaybackPhase::Reconnecting
}

/// What is left of the transport row after `count` buttons, each with a gap
/// after it.
pub open spec fn after_buttons(area: Rect, widths: Seq<u16>, count: int) -> Rect
    decreases count,
{
    if count <= 0 {
        area
    } else {
        after_buttons(area, widths, count - 1).right_of(widths[count - 1]).right_of(1)
    }
}

/// The places of buttons of these widths, from the left, and what is left of
/// the row. A button that does not fit is empty.
pub fn place_buttons(area: Rect, widths: &Vec<u16>) -> (placed: (Vec<Rect>, Rect))
    ensures
        placed.0@.len() == widths@.len(),
        forall|i: int|
            0 <= i < widths@.len() ==> #[trigger] placed.0@[i] == after_buttons(
                area,
                widths@,
                i,
            ).left_part(widths@[i]),
        placed.1 == after_buttons(area, widths@, widths@.len() as int),
{
    let mut rest = area;
    let mut places: Vec<Rect> = Vec::new();
    let mut at: usize = 0;
    while at < widths.len()
        invariant
            at <= widths@.len(),
            places@.len() == at,
            rest == after_buttons(area, widths@, at as int),
            forall|i: int|
                0 <= i < at ==> #[trigger] places@[i] == after_buttons(
                    area,
                    widths@,
                    i,
                ).left_part(widths@[i]),
        decreases widths@.len() - at,
    {
        places.push(take_left(&mut rest, widths[at]));
        let _ = take_left(&mut rest, 1);
        at += 1;
    }
    (places, rest)
}

/// How much of the volume slider is filled: any volume at all fills something.
pub fn volume_filled(percent: u8) -> (filled: u64)
    ensures
        percent == 0 ==> filled == 0,
        0 < percent <= 100 ==> (filled - 1) * 100 < percent * VOLUME_COLUMNS <= filled * 100,
        percent > 100 ==> filled == VOLUME_COLUMNS,
        filled <= VOLUME_COLUMNS,
{
    let filled: u64 = (percent as u64 * VOLUME_COLUMNS + 99) / 100;
    if filled <= VOLUME_COLUMNS {
        filled
    } else {
        VOLUME_COLUMNS
    }
}

/// `  70%`: the percentage, right-aligned in three columns.
pub open spec fn volume_text(percent: u8) -> Seq<char> {
    let digits = crate::text::decimal(percent as nat);
    seq![' ', ' '] + Seq::new((3 - digits.len()) as nat, |i: int| ' ') + digits + seq!['%']
}

pub fn volume_label(percent: u8) -> (label: String)
    ensures
        label@ == volume_text(percent),
{
    let mut label = "".to_owned();
    push_char(&mut label, ' ');
    push_char(&mut label, ' ');
    if percent < 100 {
        push_char(&mut label, ' ');
    }
    if percent < 10 {
        push_char(&mut label, ' ');
    }
    push_decimal(&mut label, percent as u64);
    push_char(&mut label, '%');
    proof {
        reveal_strlit("");
        reveal_with_fuel(crate::text::decimal, 3);
        assert(label@ =~= volume_text(percent));
    }
    label
}

// ------------------------------------------------------------------ spectrum

/// How the bars of a spectrum are laid out. Every bar has a slot that ends in
/// its gap; the last gap is off the area.
#[derive(Clone, Copy, Debug, PartialEq, Eq, Structural)]
pub struct BarLayout {
    pub slot: usize,
    pub bars: usize,
    /// The columns left empty at the left.
    pub spare: usize,
    /// Whether the last row numbers the bars.
    pub labelled: bool,
    /// The rows of the bars.
    pub rows: usize,
}

/// Bars as wide as one per band allows, and as many as then fit.
pub open spec fn bar_layout(width: usize, height: u16, bands: usize) -> BarLayout {
    let share = (width + 1) / bands as int;
    let slot = if share > 2 {
        share
    } else {
        2
    };
    let labelled = slot >= 3 && height >= LABELLED_MIN_ROWS;
    BarLayout {
        slot: slot as usize,
        bars: ((width + 1) / slot) as usize,
        spare: ((width + 1) % slot) as usize,
        labelled,
        rows: if labelled {
            (height - 1) as usize
        } else {
            height as usize
        },
    }
}

pub fn lay_out_bars(width: u16, height: u16, bands: usize) -> (layout: BarLayout)
    requires
        bands > 0,
    ensures
        layout == bar_layout(width as usize, height, bands),
{
    let columns: usize = width as usize + 1;
    let share: usize = columns / bands;
    let slot: usize = if share > 2 {
        share
    } else {
        2
    };
    let labelled: bool = slot >= 3 && height >= LABELLED_MIN_ROWS;
    BarLayout {
        slot,
        bars: columns / slot,
        spare: columns % slot,
        labelled,
        rows: if labelled {
            (height - 1) as usize
        } else {
            height as usize
        },
    }
}

/// The first column of a bar, counted from the left of the area.
pub fn bar_left(layout: BarLayout, bar: usize) -> (left: usize)
    requires
        layout.spare + layout.bars * layout.slot <= usize::MAX,
        bar < layout.bars,
    ensures
        left == layout.spare + bar * layout.slot,
{
    proof {
        assert(bar * layout.slot <= layout.bars * layout.slot) by (nonlinear_arith)
            requires
                bar < layout.bars,
        ;
    }
    layout.spare + bar * layout.slot
}

/// Where a bar takes its value from: a band, and how far on towards the next,
/// `part` of `whole`.
#[derive(Clone, Copy, Debug, PartialEq, Eq, Structural)]
pub struct BandPoint {
    pub band: usize,
    pub next: usize,
    pub part: usize,
    pub whole: usize,
}

/// Of fewer bars than bands, each takes the nearest band; more of them lie
/// between two.
pub open spec fn band_point(bars: usize, bands: usize, bar: usize) -> BandPoint {
    if bars <= bands {
        let band = (bar * bands / bars as int) as usize;
        BandPoint { band, next: band, part: 0, whole: 1 }
    } else {
        let at = bar * (bands - 1);
        let band = (at / (bars - 1)) as usize;
        BandPoint {
            band,
            next: if band + 1 < bands {
                (band + 1) as usize
            } else {
                (bands - 1) as usize
            },
            part: (at % (bars - 1)) as usize,
            whole: (bars - 1) as usize,
        }
    }
}

pub fn band_for(bars: usize, bands: usize, bar: usize) -> (point: BandPoint)
    requires
        0 < bands,
        bar < bars,
    ensures
        point == band_point(bars, bands, bar),
        point.band < bands,
        point.next < bands,
        point.part < point.whole,
{
    if bars <= bands {
        proof {
            assert(0 <= bar * bands <= u64::MAX * u64::MAX) by (nonlinear_arith)
                requires
                    bar <= u64::MAX,
                    bands <= u64::MAX,
            ;
            assert((bar * bands) / (bars as int) < bands) by (nonlinear_arith)
                requires
                    0 <= bar < bars,
                    bands > 0,
            ;
            assert(0 <= (bar * bands) / (bars as int)) by (nonlinear_arith)
                requires
                    0 <= bar < bars,
                    bands > 0,
            ;
        }
        let band: usize = ((bar as u128 * bands as u128) / bars as u128) as usize;
        BandPoint { band, next: band, part: 0, whole: 1 }
    } else {
        proof {
            assert(bar * (bands - 1) <= u64::MAX * u64::MAX) by (nonlinear_arith)
                requires
                    0 <= bar <= u64::MAX,
                    0 < bands <= u64::MAX,
            ;
            assert(bar * (bands - 1) / (bars - 1) <= bands - 1) by (nonlinear_arith)
                requires
                    0 <= bar <= bars - 1,
                    bands >= 1,
                    bars >= 2,
            ;
            assert(0 <= bar * (bands - 1) / (bars - 1)) by (nonlinear_arith)
                requires
                    0 <= bar,
                    bands >= 1,
                    bars >= 2,
            ;
            assert(0 <= bar * (bands - 1)) by (nonlinear_arith)
                requires
                    0 <= bar,
                    bands >= 1,
            ;
        }
        let at: u128 = bar as u128 * (bands as u128 - 1);
        let whole: u128 = bars as u128 - 1;
        let band: usize = (at / whole) as usize;
        let next: usize = if band < bands - 1 {
            band + 1
        } else {
            bands - 1
        };
        BandPoint { band, next, part: (at % whole) as usize, whole: bars - 1 }
    }
}

/// What one cell of a bar shows.
#[derive(Clone, Copy, Debug, PartialEq, Eq, Structural)]
pub enum BarCell {
    /// The falling peak.
    Cap,
    /// So many eighths, and whether it is the top of a loud bar.
    Level { eighths: usize, loud: bool },
}

/// A bar of so many eighths, seen in the row `from_bottom`. The peak is shown
/// only above the bar.
pub open spec fn bar_cell(eighths: usize, peak: usize, loud: bool, from_bottom: usize) -> BarCell {
    let top = (eighths - 1) / 8;
    let cap = (peak - 1) / 8;
    if cap > top && cap == from_bottom {
        BarCell::Cap
    } else {
        let left = eighths - from_bottom * 8;
        BarCell::Level {
            eighths: if left <= 0 {
                0
            } else if left >= 8 {
                8
            } else {
                left as usize
            },
            loud: from_bottom == top && loud,
        }
    }
}

pub fn cell_of(eighths: usize, peak: usize, loud: bool, from_bottom: usize) -> (cell: BarCell)
    requires
        eighths > 0,
        peak > 0,
    ensures
        cell == bar_cell(eighths, peak, loud, from_bottom),
{
    let top: usize = (eighths - 1) / 8;
    let cap: usize = (peak - 1) / 8;
    if cap > top && cap == from_bottom {
        return BarCell::Cap;
    }
    let left: usize = if from_bottom <= eighths / 8 {
        eighths - from_bottom * 8
    } else {
        0
    };
    BarCell::Level {
        eighths: if left >= 8 {
            8
        } else {
            left
        },
        loud: from_bottom == top && loud,
    }
}

// --------------------------------------------------------------------- queue

/// ` 1 track `, ` 12 tracks `.
pub open spec fn tracks_text(count: nat) -> Seq<char> {
    if count == 1 {
        " 1 track "@
    } else {
        " "@ + crate::text::decimal(count) + " tracks "@
    }
}

pub fn count_label(rows: usize) -> (label: String)
    ensures
        label@ == tracks_text(rows as nat),
{
    if rows == 1 {
        return " 1 track ".to_owned();
    }
    let mut label = " ".to_owned();
    push_decimal(&mut label, rows as u64);
    push_text(&mut label, " tracks ");
    label
}

/// The inside of the queue: under its first row where it has no border, and
/// else inside the border.
pub fn listing_body(area: Rect, tier: Tier) -> (body: Rect)
    ensures
        body == if tier == Tier::Minimal {
            Rect {
                y: crate::tui::geometry::plus(area.y, 1),
                height: crate::tui::geometry::minus(area.height, 1),
                ..area
            }
        } else {
            area.inside()
        },
{
    if tier == Tier::Minimal {
        Rect {
            x: area.x,
            y: area.y.saturating_add(1),
            width: area.width,
            height: area.height.saturating_sub(1),
        }
    } else {
        queue_body(area)
    }
}

/// The columns left for the tabs in the border: inside the corners, with a
/// column of air at each end, and clear of the count.
pub fn strip_room(width: u16, count_columns: usize) -> (room: usize)
    ensures
        room == if width >= 4 + count_columns {
            width - 4 - count_columns
        } else {
            0
        },
{
    (width as usize).saturating_sub(count_columns.saturating_add(4))
}

/// One visible row of the queue.
#[derive(Clone, Copy, Debug, PartialEq, Eq, Structural)]
pub struct RowPlan {
    pub area: Rect,
    /// Its place in the list.
    pub index: usize,
    pub id: QueueEntryId,
    pub playing: bool,
    pub selected: bool,
}

impl ScreenView {
    /// The rows that are visible in `body`, top to bottom.
    pub open spec fn rows_in(self, body: Rect, offset: usize, selected: Option<QueueEntryId>) -> Seq<
        RowPlan,
    > {
        let at = self.row_of(selected);
        let first = crate::tui::layout::first_visible(
            self.rows.len() as int,
            offset as int,
            at,
            body.height as int,
        );
        let last = if first + body.height <= self.rows.len() {
            first + body.height
        } else {
            self.rows.len() as int
        };
        if body.height == 0 {
            Seq::empty()
        } else {
            Seq::new(
                (last - first) as nat,
                |i: int|
                    RowPlan {
                        area: body.row_at(crate::tui::geometry::plus(body.y, i as u16)),
                        index: (first + i) as usize,
                        id: self.rows[first + i].id,
                        playing: self.active == Some(self.rows[first + i].id),
                        selected: at == Some(first + i),
                    },
            )
        }
    }
}

/// The rows that are visible in `body`.
pub fn plan_rows(view: &PlayerView, ui: &UiState, body: Rect) -> (plans: Vec<RowPlan>)
    ensures
        plans@ == view@.rows_in(body, ui@.queue_offset, ui@.selected),
{
    let selected = row_of(view, ui.selected);
    let (first, last) = visible_rows(
        view.rows.len(),
        ui.queue_offset,
        selected,
        body.height as usize,
    );
    let ghost all = view@.rows_in(body, ui@.queue_offset, ui@.selected);
    let mut plans: Vec<RowPlan> = Vec::new();
    let mut index: usize = first;
    while index < last
        invariant
            first <= index <= last <= view.rows@.len(),
            last - first <= body.height,
            all.len() == last - first,
            forall|i: int|
                0 <= i < last - first ==> #[trigger] all[i] == (RowPlan {
                    area: body.row_at(crate::tui::geometry::plus(body.y, i as u16)),
                    index: (first + i) as usize,
                    id: view@.rows[first + i].id,
                    playing: view@.active == Some(view@.rows[first + i].id),
                    selected: view@.row_of(ui@.selected) == Some(first + i),
                }),
            match selected {
                Some(at) => view@.row_of(ui@.selected) == Some(at as int),
                None => view@.row_of(ui@.selected) is None,
            },
            plans@ == all.take(index - first),
        decreases last - index,
    {
        let id = view.rows[index].id;
        assert(view@.rows[index as int] == view.rows@[index as int]@);
        let down: u16 = (index - first) as u16;
        plans.push(
            RowPlan {
                area: row(body, body.y.saturating_add(down)),
                index,
                id,
                playing: view.active == Some(id),
                selected: selected == Some(index),
            },
        );
        proof {
            assert(plans@.last() == all[index - first]);
            assert(plans@ =~= all.take(index - first + 1));
        }
        index += 1;
    }
    proof {
        assert(all.take(last - first) =~= all);
    }
    plans
}

/// The columns of a queue row. A narrow row drops the saved column, and then
/// the duration, before the title.
#[derive(Clone, Copy, Debug, PartialEq, Eq, Structural)]
pub struct RowColumns {
    pub marker: Rect,
    pub number: Rect,
    pub title: Rect,
    pub duration: Rect,
    pub saved: Rect,
}

pub fn row_columns(area: Rect) -> (columns: RowColumns)
    ensures
        ({
            let after = area.right_of(MARKER_COLUMNS).right_of(NUMBER_COLUMNS);
            let left = if after.width < SAVED_MIN_ROW {
                after
            } else {
                after.left_of(SAVED_COLUMNS).left_of(1)
            };
            &&& columns.marker == area.left_part(MARKER_COLUMNS)
            &&& columns.number == area.right_of(MARKER_COLUMNS).left_part(NUMBER_COLUMNS)
            &&& columns.saved == if after.width < SAVED_MIN_ROW {
                Rect { width: 0, ..after }
            } else {
                after.right_part(SAVED_COLUMNS)
            }
            &&& columns.duration == if left.width < DURATION_MIN_ROW {
                Rect { width: 0, ..left }
            } else {
                left.right_part(DURATION_COLUMNS)
            }
            &&& columns.title == if left.width < DURATION_MIN_ROW {
                left
            } else {
                left.left_of(DURATION_COLUMNS).left_of(1)
            }
        }),
{
    let mut rest = area;
    let marker = take_left(&mut rest, MARKER_COLUMNS);
    let number = take_left(&mut rest, NUMBER_COLUMNS);
    let saved = column(&mut rest, SAVED_COLUMNS, SAVED_MIN_ROW);
    let duration = column(&mut rest, DURATION_COLUMNS, DURATION_MIN_ROW);
    RowColumns { marker, number, title: rest, duration, saved }
}

/// The number of a row: two digits at least, counted from one.
pub fn row_number(index: usize) -> (text: String)
    requires
        index < u64::MAX,
    ensures
        text@ == crate::text::two_digits((index + 1) as nat),
{
    let mut text = String::new();
    push_two_digits(&mut text, index as u64 + 1);
    proof {
        assert(text@ =~= crate::text::two_digits((index + 1) as nat));
    }
    text
}

// ------------------------------------------------------------------ overlays

/// The question before a playlist is deleted, with its name where it is still
/// there.
pub open spec fn delete_question(view: ScreenView, id: PlaylistId) -> Seq<char> {
    "Delete playlist \""@ + (match crate::model::position(
        view.tabs,
        crate::tui::tabs::tab_is(id),
        0,
    ) {
        Some(at) => view.tabs[at].name,
        None => Seq::empty(),
    }) + "\"? y to confirm"@
}

pub fn confirm_delete_text(view: &PlayerView, id: PlaylistId) -> (text: String)
    ensures
        text@ == delete_question(view@, id),
{
    let ghost wanted = crate::tui::tabs::tab_is(id);
    let mut text = "Delete playlist \"".to_owned();
    let ghost front = text@;
    let mut at: usize = 0;
    while at < view.tabs.len()
        invariant
            at <= view.tabs@.len(),
            wanted == crate::tui::tabs::tab_is(id),
            front == "Delete playlist \""@,
            text@ == front,
            crate::model::position(view@.tabs, wanted, 0) == crate::model::position(
                view@.tabs,
                wanted,
                at as int,
            ),
        decreases view.tabs@.len() - at,
    {
        assert(view@.tabs[at as int] == view.tabs@[at as int]@);
        if view.tabs[at].id == id {
            push_text(&mut text, view.tabs[at].name.as_str());
            push_text(&mut text, "\"? y to confirm");
            return text;
        }
        at += 1;
    }
    push_text(&mut text, "\"? y to confirm");
    proof {
        assert(text@ =~= delete_question(view@, id));
    }
    text
}

/// The title of the input overlay.
pub fn input_title(purpose: InputPurpose) -> (title: &'static str)
    ensures
        title@ == match purpose {
            InputPurpose::AddUrl(_) => " add path or URL — Enter to add, Esc to cancel "@,
            InputPurpose::NewPlaylist => " new playlist — Enter to create, Esc to cancel "@,
            InputPurpose::Rename(_) => " rename playlist — Enter to rename, Esc to cancel "@,
        },
{
    match purpose {
        InputPurpose::AddUrl(_) => " add path or URL — Enter to add, Esc to cancel ",
        InputPurpose::NewPlaylist => " new playlist — Enter to create, Esc to cancel ",
        InputPurpose::Rename(_) => " rename playlist — Enter to rename, Esc to cancel ",
    }
}

/// A number of columns as far as one of `u16` holds it.
pub open spec fn as_columns(n: int) -> u16 {
    if n <= u16::MAX {
        n as u16
    } else {
        u16::MAX
    }
}

/// A box around `rows` rows of text that is `columns` wide, with its border and
/// a column of air on each side.
pub fn text_box(area: Rect, columns: usize, rows: u16) -> (placed: Rect)
    ensures
        placed == area.middle(as_columns(columns + 4), crate::tui::geometry::plus(rows, 2)),
{
    let wide: usize = columns.saturating_add(4);
    let width: u16 = if wide <= u16::MAX as usize {
        wide as u16
    } else {
        u16::MAX
    };
    centered_box(area, width, rows.saturating_add(2))
}

/// The row in the middle of an area that is too small for anything else.
pub fn message_row(area: Rect) -> (middle: Rect)
    ensures
        middle == (Rect {
            y: crate::tui::geometry::plus(area.y, area.height / 2),
            height: crate::tui::geometry::smaller(area.height, 1),
            ..area
        }),
{
    Rect {
        x: area.x,
        y: area.y.saturating_add(area.height / 2),
        width: area.width,
        height: if area.height <= 1 {
            area.height
        } else {
            1
        },
    }
}

// ---------------------------------------------------------------------- laws

/// The last bar ends at the right edge, and what is left empty on the left is
/// less than a bar and its gap.
pub proof fn bars_end_at_the_edge(width: usize, height: u16, bands: usize)
    requires
        0 < width < usize::MAX,
        bands > 0,
    ensures
        ({
            let layout = bar_layout(width, height, bands);
            &&& layout.bars >= 1
            &&& layout.spare < layout.slot
            &&& layout.spare + (layout.bars - 1) * layout.slot + (layout.slot - 1) == width
        }),
{
    let layout = bar_layout(width, height, bands);
    let columns = width + 1;
    let share = columns / bands as int;
    assert(share <= columns) by (nonlinear_arith)
        requires
            share == columns / bands as int,
            bands > 0,
            columns > 0,
    ;
    let slot: int = if share > 2 {
        share
    } else {
        2
    };
    assert(slot <= columns);
    assert(layout.slot == slot);
    let bars = columns / slot;
    let spare = columns % slot;
    assert(columns == slot * bars + spare && 0 <= spare < slot && bars >= 1) by (nonlinear_arith)
        requires
            bars == columns / slot,
            spare == columns % slot,
            2 <= slot <= columns,
    ;
    assert(bars <= columns) by (nonlinear_arith)
        requires
            columns == slot * bars + spare,
            spare >= 0,
            slot >= 2,
            bars >= 1,
    ;
    assert(slot * bars == bars * slot && (bars - 1) * slot == bars * slot - slot)
        by (nonlinear_arith);
}

/// There is a bar for every band, or for every second column where there are
/// more bands than that.
pub proof fn bars_fill_the_row(width: usize, height: u16, bands: usize)
    requires
        0 < width < usize::MAX,
        bands > 0,
    ensures
        bar_layout(width, height, bands).bars >= bands || bar_layout(width, height, bands).bars
            == (width + 1) / 2,
{
    let columns = width + 1;
    let share = columns / bands as int;
    if share > 2 {
        assert(columns / share >= bands) by (nonlinear_arith)
            requires
                share == columns / bands as int,
                bands > 0,
                share > 2,
        ;
        assert(columns / share <= columns) by (nonlinear_arith)
            requires
                share > 2,
                columns > 0,
        ;
        assert(share <= columns) by (nonlinear_arith)
            requires
                share == columns / bands as int,
                bands > 0,
                columns > 0,
        ;
    }
}

/// Every visible row lies in the list's area, on a row of its own.
pub proof fn rows_do_not_overlap(body: Rect, i: u16, j: u16, point: Position)
    requires
        i < j < body.height,
        body.y + body.height <= u16::MAX,
    ensures
        body.row_at(crate::tui::geometry::plus(body.y, i)).covers(point) ==> body.covers(point),
        !(body.row_at(crate::tui::geometry::plus(body.y, i)).covers(point) && body.row_at(
            crate::tui::geometry::plus(body.y, j),
        ).covers(point)),
{
}

/// The bars go over the bands from left to right: each stands for a band that there is,
/// none for one before the band of a bar to its left, the first for the first, and where
/// there are at least as many bars as bands, and more than one, the last for the last.
pub proof fn bars_go_over_the_bands(bars: usize, bands: usize, bar: usize, next: usize)
    requires
        bands > 0,
        bar <= next < bars,
    ensures
        ({
            let a = band_point(bars, bands, bar);
            let b = band_point(bars, bands, next);
            &&& a.band < bands && a.next < bands
            &&& a.band <= b.band
            &&& a.part < a.whole
            &&& band_point(bars, bands, 0).band == 0 && band_point(bars, bands, 0).part == 0
            &&& bars >= bands && bars > 1 && next == bars - 1 ==> b.band == bands - 1
        }),
{
    if bars <= bands {
        shares_rise(bar as int, next as int, bands as int, bars as int);
        shares_rise(0, next as int, bands as int, bars as int);
        if bars == bands {
            vstd::arithmetic::div_mod::lemma_div_multiples_vanish(next as int, bars as int);
            assert(next * bands == bars * next) by (nonlinear_arith)
                requires
                    bars == bands,
            ;
        }
    } else {
        shares_rise(bar as int, next as int, bands - 1, bars - 1);
        shares_rise(0, next as int, bands - 1, bars - 1);
        vstd::arithmetic::div_mod::lemma_div_multiples_vanish(bands - 1, bars - 1);
    }
}

proof fn shares_rise(low: int, high: int, parts: int, whole: int)
    requires
        0 <= low <= high <= whole,
        0 < whole,
        0 <= parts,
    ensures
        0 <= (low * parts) / whole <= (high * parts) / whole <= parts,
        high < whole && parts > 0 ==> (high * parts) / whole < parts,
        0 <= (low * parts) % whole < whole,
        low == 0 ==> (low * parts) / whole == 0 && (low * parts) % whole == 0,
{
    assert(0 <= low * parts <= high * parts <= whole * parts) by (nonlinear_arith)
        requires
            0 <= low <= high <= whole,
            0 <= parts,
    ;
    vstd::arithmetic::div_mod::lemma_div_is_ordered(0, low * parts, whole);
    vstd::arithmetic::div_mod::lemma_div_is_ordered(low * parts, high * parts, whole);
    vstd::arithmetic::div_mod::lemma_div_is_ordered(high * parts, whole * parts, whole);
    vstd::arithmetic::div_mod::lemma_div_multiples_vanish(parts, whole);
    if high < whole && parts > 0 {
        assert(high * parts < whole * parts) by (nonlinear_arith)
            requires
                high < whole,
                parts > 0,
        ;
        vstd::arithmetic::div_mod::lemma_multiply_divide_lt(high * parts, whole, parts);
        assert(parts * whole == whole * parts) by (nonlinear_arith);
    }
    vstd::arithmetic::div_mod::lemma_mod_bound(low * parts, whole);
    if low == 0 {
        assert(low * parts == 0) by (nonlinear_arith)
            requires
                low == 0,
        ;
    }
}

/// A bar is drawn from the bottom: the rows under its top are full, its top row holds the
/// rest, and those above are empty but for the peak, which stands above the bar alone.
pub proof fn bar_is_drawn_from_the_bottom(eighths: usize, peak: usize, loud: bool, row: usize)
    requires
        eighths > 0,
        peak > 0,
    ensures
        ({
            let cell = bar_cell(eighths, peak, loud, row);
            &&& row * 8 + 8 <= eighths ==> (cell matches BarCell::Level { eighths: level, .. }
                && level == 8)
            &&& row * 8 < eighths < row * 8 + 8 ==> (cell matches BarCell::Level {
                eighths: level,
                ..
            } && level == eighths - row * 8)
            &&& eighths <= row * 8 && row * 8 < peak <= row * 8 + 8 ==> cell == BarCell::Cap
            &&& eighths <= row * 8 && !(row * 8 < peak <= row * 8 + 8) ==> (
            cell matches BarCell::Level { eighths: level, .. } && level == 0)
            &&& (cell matches BarCell::Level { loud: shown, .. } && shown) ==> loud && row * 8
                < eighths <= row * 8 + 8
        }),
{
}

} // verus!
