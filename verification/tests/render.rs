use tenuto::application::transport::PlaybackPhase;
use tenuto::application::view::{
    NowPlaying, PersistenceStatus, PlayerView, PlaylistTab, QueueRow, SavedHistory,
};
use tenuto::clock::Duration;
use tenuto::media::{AbsolutePath, MediaId};
use tenuto::playback::{PlaybackState, PositionProvenance, Volume};
use tenuto::playlist::PlaylistId;
use tenuto::queue::{DisplayDuration, DurationSource, QueueEntryId};
use tenuto::tui::geometry::{Position, Rect};
use tenuto::tui::layout::{regions, tier_for, visible_rows, Tier};
use tenuto::tui::render::{
    band_for, bar_area, bar_left, cell_of, clock, confirm_delete_text, count_label, duration_label,
    has_volume_slider, hit, info_line_count, info_lines, input_title, lay_out_bars, listing_body,
    live_label, message_row, pausing, persistence_label, place_buttons, plan_rows, progress_label,
    row_columns, row_number, state_label, status_flags, strip_room, text_box, volume_filled,
    volume_label, BarCell,
};
use tenuto::tui::state::{InputPurpose, UiState};

/// The drawn runs of a row of full bars, as (first column, width).
fn runs(width: u16, height: u16, bands: usize) -> Vec<(u16, u16)> {
    let layout = lay_out_bars(width, height, bands);
    (0..layout.bars)
        .map(|bar| (bar_left(layout, bar) as u16, (layout.slot - 1) as u16))
        .collect()
}

#[test]
fn the_spectrum_ends_at_the_right_edge_with_equal_bars() {
    // Widths a 21- or 24-band row does not divide, as a resized window gives.
    for (width, bands) in [(38, 24), (60, 21), (76, 21), (100, 24), (39, 10)] {
        let bars = runs(width, 4, bands);
        let case = format!("{width} columns, {bands} bands: {bars:?}");
        assert!(
            bars.len() >= bands.min(usize::from(width).div_ceil(2)),
            "{case}"
        );
        // Less than a bar and its gap is spare, all of it on the left.
        assert!(bars.first().is_some_and(|bar| bar.0 <= bar.1), "{case}");
        assert_eq!(bars.last().map(|bar| bar.0 + bar.1), Some(width), "{case}");
        assert!(
            bars.windows(2)
                .all(|pair| pair[0].0 + pair[0].1 + 1 == pair[1].0),
            "{case}"
        );
        assert!(bars.iter().all(|bar| bar.1 == bars[0].1), "{case}");
    }
}

/// A bar's value, between its two bands.
fn value(levels: &[f32], bars: usize, bar: usize) -> f32 {
    let point = band_for(bars, levels.len(), bar);
    let low = levels[point.band];
    low + (levels[point.next] - low) * (point.part as f32 / point.whole as f32)
}

fn eighths(level: f32, height: usize) -> usize {
    ((level * (height * 8) as f32).round() as usize).max(1)
}

/// The rows of a bar, from the top.
fn column(level: f32, peak: f32, height: usize) -> Vec<BarCell> {
    (0..height)
        .rev()
        .map(|from_bottom| {
            cell_of(
                eighths(level, height),
                eighths(peak, height),
                level >= 0.8,
                from_bottom,
            )
        })
        .collect()
}

fn filled(eighths: usize) -> BarCell {
    BarCell::Level { eighths, loud: false }
}

#[test]
fn bars_beyond_the_bands_interpolate_between_neighbours() {
    // Four bands in nine columns: five one-column bars.
    let levels = [0.0, 0.5, 0.5, 1.0];
    let layout = lay_out_bars(9, 8, levels.len());
    assert_eq!(layout.bars, 5);
    let full_rows = |bar: usize| {
        let level = value(&levels, layout.bars, bar);
        column(level, 0.0, layout.rows)
            .iter()
            .filter(|cell| matches!(cell, BarCell::Level { eighths: 8, .. }))
            .count()
    };
    let heights: Vec<usize> = (0..layout.bars).map(full_rows).collect();
    // The ends are the outer bands; the second bar is between 0.0 and 0.5.
    assert_eq!(heights, [0, 3, 4, 5, 8]);
}

#[test]
fn a_peak_cap_floats_above_its_bar() {
    // Bars one row tall; the first band's peak is up in the third row.
    assert_eq!(
        column(0.25, 0.75, 4),
        [filled(0), BarCell::Cap, filled(0), filled(8)]
    );
    // A peak resting on its bar's top cell is the bar itself.
    assert_eq!(
        column(0.25, 0.25, 4),
        [filled(0), filled(0), filled(0), filled(8)]
    );
}

#[test]
fn a_loud_bar_is_marked_on_its_top_cell_alone() {
    assert_eq!(
        cell_of(32, 1, true, 3),
        BarCell::Level { eighths: 8, loud: true }
    );
    assert_eq!(cell_of(32, 1, true, 2), filled(8));
}

#[test]
fn fewer_bars_than_bands_take_the_nearest() {
    let points: Vec<usize> = (0..3).map(|bar| band_for(3, 6, bar).band).collect();
    assert_eq!(points, [0, 2, 4]);
}

#[test]
fn wide_bars_in_a_tall_area_are_numbered() {
    assert!(lay_out_bars(72, 5, 24).labelled);
    assert_eq!(lay_out_bars(72, 5, 24).rows, 4);
    assert!(!lay_out_bars(72, 4, 24).labelled);
    assert!(!lay_out_bars(40, 5, 24).labelled);
}

fn secs(secs: u64) -> Duration {
    Duration::from_secs(secs)
}

fn now() -> NowPlaying {
    NowPlaying {
        entry: Some(QueueEntryId::from_raw(1)),
        title: "So What".to_owned(),
        artist: Some("Miles Davis".to_owned()),
        album: Some("Kind of Blue".to_owned()),
        year: Some("1959".to_owned()),
        loaded: true,
        state: PlaybackState::Playing,
        position: secs(62),
        duration: Some(DisplayDuration {
            value: secs(300),
            source: DurationSource::Decoded(PositionProvenance::Established),
        }),
        estimated_position: false,
        degraded: false,
        buffering: false,
        seek: None,
        saved: None,
        session_rev: 1,
        load: None,
    }
}

fn row(id: u64) -> QueueRow {
    let path = AbsolutePath::new(format!("/music/{id}.flac")).expect("absolute");
    QueueRow {
        id: QueueEntryId::from_raw(id),
        media: MediaId::LocalFile(path),
        title: format!("track {id}"),
        subtitle: None,
        duration: None,
        saved: None,
    }
}

fn view(now_playing: Option<NowPlaying>, rows: u64) -> PlayerView {
    PlayerView {
        tabs: vec![PlaylistTab {
            id: PlaylistId::from_raw(1),
            name: "Default".to_owned(),
            playing: true,
            shuffled: false,
        }],
        viewed: PlaylistId::from_raw(1),
        rows: (1..=rows).map(row).collect(),
        active: Some(QueueEntryId::from_raw(2)),
        now_playing,
        phase: PlaybackPhase::Playing,
        live: false,
        last_requested: None,
        reconnecting: false,
        volume: Volume::full(),
        persistence: PersistenceStatus::Saving,
        status: None,
    }
}

#[test]
fn times_lose_their_empty_hour() {
    assert_eq!(clock(secs(62)), "01:02");
    assert_eq!(clock(secs(3_662)), "01:01:02");
    assert_eq!(clock(secs(360_000)), "100:00:00");
    assert_eq!(clock(secs(0)), "00:00");
}

#[test]
fn a_length_says_where_it_comes_from() {
    let label = |source| duration_label(DisplayDuration { value: secs(62), source });
    assert_eq!(
        label(DurationSource::Decoded(PositionProvenance::Established)),
        "01:02"
    );
    assert_eq!(
        label(DurationSource::Decoded(PositionProvenance::Estimated)),
        "~01:02"
    );
    assert_eq!(label(DurationSource::Declared), "(01:02)");
}

#[test]
fn the_time_label_follows_what_is_loaded() {
    assert_eq!(progress_label(None), ("--:-- / --:--".to_owned(), None));

    let (label, ratio) = progress_label(Some(&now()));
    assert_eq!(label, "01:02 / 05:00");
    let ratio = ratio.expect("a confirmed length");
    assert_eq!((ratio.played, ratio.whole), (secs(62), secs(300)));

    let beyond = NowPlaying { position: secs(400), estimated_position: true, ..now() };
    let (label, ratio) = progress_label(Some(&beyond));
    assert_eq!(label, "~06:40 / 05:00");
    assert_eq!(ratio.map(|ratio| ratio.played), Some(secs(300)));

    let declared = DisplayDuration { value: secs(300), source: DurationSource::Declared };
    let claimed = NowPlaying { duration: Some(declared), ..now() };
    assert_eq!(progress_label(Some(&claimed)), ("01:02 / (05:00)".to_owned(), None));

    let unloaded = NowPlaying { loaded: false, saved: Some(SavedHistory::Played), ..now() };
    assert_eq!(progress_label(Some(&unloaded)), ("played · 05:00".to_owned(), None));
    let unknown = NowPlaying { loaded: false, duration: None, ..now() };
    assert_eq!(progress_label(Some(&unknown)), ("--:--".to_owned(), None));
}

#[test]
fn a_live_source_shows_its_listening_time() {
    assert_eq!(live_label(&view(Some(now()), 0)), "LIVE  01:02");
    assert_eq!(live_label(&view(None, 0)), "LIVE  --:--");
}

#[test]
fn the_bar_follows_its_label_or_stands_between_brackets() {
    let area = Rect { x: 5, y: 3, width: 40, height: 1 };
    assert_eq!(bar_area(area, true, 14), Rect { x: 19, width: 26, ..area });
    assert_eq!(bar_area(area, false, 14), Rect { x: 6, width: 38, ..area });
}

#[test]
fn information_lines_hold_what_is_known() {
    assert_eq!(
        info_lines(&view(Some(now()), 0)),
        ["So What", "Miles Davis", "Kind of Blue · 1959"]
    );
    let untagged = NowPlaying { artist: None, album: None, ..now() };
    assert_eq!(info_lines(&view(Some(untagged), 0)), ["So What", "1959"]);
    assert_eq!(info_lines(&view(None, 0)), ["Nothing playing"]);
    assert_eq!(info_line_count(&view(Some(now()), 0)), 3);
    assert_eq!(info_line_count(&view(None, 0)), 1);
}

#[test]
fn the_state_is_a_word_with_buffering_beside_it() {
    assert_eq!(state_label(&view(Some(now()), 0)), ("playing", false));
    let waiting = NowPlaying { buffering: true, ..now() };
    assert_eq!(state_label(&view(Some(waiting), 0)), ("playing", true));
    let lost = PlayerView { phase: PlaybackPhase::Reconnecting, ..view(None, 0) };
    assert_eq!(state_label(&lost), ("reconnecting…", false));
    assert!(pausing(PlaybackPhase::Reconnecting));
    assert!(pausing(PlaybackPhase::Playing));
    assert!(!pausing(PlaybackPhase::Paused));
}

#[test]
fn the_volume_is_a_slider_or_a_flag() {
    let transport = |width| Rect { x: 0, y: 0, width, height: 1 };
    assert!(has_volume_slider(Tier::Normal, transport(10)));
    assert!(has_volume_slider(Tier::Compact, transport(64)));
    assert!(!has_volume_slider(Tier::Compact, transport(63)));
    assert!(!has_volume_slider(Tier::Minimal, transport(100)));

    let ui = UiState::new(true);
    assert_eq!(status_flags(&ui, true, 70), " mouse on ");
    assert_eq!(status_flags(&UiState::new(false), false, 70), " vol 70% · mouse off ");
    assert_eq!(volume_label(7), "    7%");
    assert_eq!(volume_label(70), "   70%");
    assert_eq!(volume_label(100), "  100%");
    for (percent, filled) in [(0, 0), (1, 1), (10, 1), (11, 2), (70, 7), (100, 10), (255, 10)] {
        assert_eq!(volume_filled(percent), filled, "{percent}%");
    }
}

#[test]
fn only_a_problem_with_saving_is_shown() {
    assert_eq!(persistence_label(PersistenceStatus::Saving), None);
    assert_eq!(persistence_label(PersistenceStatus::Unsaved), Some("unsaved"));
    assert_eq!(persistence_label(PersistenceStatus::Failing), Some("not saving"));
}

#[test]
fn buttons_stand_side_by_side_as_far_as_they_fit() {
    let area = Rect { x: 0, y: 0, width: 10, height: 1 };
    let (places, rest) = place_buttons(area, &vec![4, 4, 3]);
    assert_eq!(places[0], Rect { x: 0, y: 0, width: 4, height: 1 });
    assert_eq!(places[1], Rect { x: 5, y: 0, width: 4, height: 1 });
    assert!(places[2].is_empty());
    assert!(rest.is_empty());
    assert_eq!(hit(&vec![(places[0], 'a'), (places[1], 'b')], Position { x: 6, y: 0 }), Some('b'));
    assert_eq!(hit(&vec![(places[0], 'a'), (places[1], 'b')], Position { x: 4, y: 0 }), None);
}

#[test]
fn the_queue_shows_the_rows_that_fit_with_the_selected_one() {
    let view = view(None, 9);
    let body = Rect { x: 1, y: 5, width: 60, height: 3 };
    let mut ui = UiState::new(false);
    ui.selected = Some(QueueEntryId::from_raw(6));
    let plans = plan_rows(&view, &ui, body);
    assert_eq!(
        plans.iter().map(|plan| plan.index).collect::<Vec<_>>(),
        [3, 4, 5]
    );
    assert_eq!(
        plans.iter().map(|plan| plan.area.y).collect::<Vec<_>>(),
        [5, 6, 7]
    );
    assert_eq!(
        plans.iter().map(|plan| plan.selected).collect::<Vec<_>>(),
        [false, false, true]
    );
    ui.selected = None;
    let plans = plan_rows(&view, &ui, body);
    assert_eq!(
        plans.iter().map(|plan| plan.playing).collect::<Vec<_>>(),
        [false, true, false]
    );
    assert!(plan_rows(&view, &ui, Rect { height: 0, ..body }).is_empty());
    assert_eq!(visible_rows(9, 100, None, 4), (5, 9));
}

#[test]
fn a_narrow_row_drops_the_saved_column_and_then_the_duration() {
    let row = |width| row_columns(Rect { x: 0, y: 0, width, height: 1 });
    let wide = row(60);
    assert_eq!((wide.saved.width, wide.duration.width, wide.title.width), (16, 10, 26));
    let narrow = row(40);
    assert_eq!((narrow.saved.width, narrow.duration.width, narrow.title.width), (0, 10, 23));
    let least = row(20);
    assert_eq!((least.saved.width, least.duration.width, least.title.width), (0, 0, 14));
    assert_eq!(row_number(0), "01");
    assert_eq!(row_number(122), "123");
}

#[test]
fn the_queue_has_a_border_or_a_head() {
    let area = Rect { x: 0, y: 4, width: 40, height: 6 };
    assert_eq!(listing_body(area, Tier::Minimal), Rect { y: 5, height: 5, ..area });
    assert_eq!(
        listing_body(area, Tier::Normal),
        Rect { x: 1, y: 5, width: 38, height: 4 }
    );
    assert_eq!(count_label(1), " 1 track ");
    assert_eq!(count_label(12), " 12 tracks ");
    assert_eq!(strip_room(40, 11), 25);
    assert_eq!(strip_room(10, 11), 0);
}

#[test]
fn overlays_ask_and_are_centred() {
    let view = view(None, 0);
    assert_eq!(
        confirm_delete_text(&view, PlaylistId::from_raw(1)),
        "Delete playlist \"Default\"? y to confirm"
    );
    assert_eq!(
        confirm_delete_text(&view, PlaylistId::from_raw(2)),
        "Delete playlist \"\"? y to confirm"
    );
    assert_eq!(
        input_title(InputPurpose::NewPlaylist),
        " new playlist — Enter to create, Esc to cancel "
    );
    let area = Rect { x: 0, y: 0, width: 80, height: 24 };
    assert_eq!(
        text_box(area, 20, 1),
        Rect { x: 28, y: 10, width: 24, height: 3 }
    );
    assert_eq!(text_box(area, 200, 40), area);
    assert_eq!(
        message_row(Rect { height: 7, ..area }),
        Rect { y: 3, height: 1, ..area }
    );
}

#[test]
fn a_frame_is_as_large_as_its_screen_allows() {
    assert_eq!(tier_for(29, 50), Tier::Resize);
    assert_eq!(tier_for(30, 8), Tier::Minimal);
    assert_eq!(tier_for(60, 20), Tier::Compact);
    assert_eq!(tier_for(80, 24), Tier::Normal);
    let area = Rect { x: 0, y: 0, width: 80, height: 24 };
    let parts = regions(area, Tier::Normal, 2);
    assert_eq!(parts.footer.y, 23);
    assert!(parts.cover.is_some() && parts.spectrum.is_some());
    assert_ne!(parts.time, parts.progress);
    let small = regions(Rect { width: 40, height: 10, ..area }, Tier::Minimal, 1);
    assert_eq!(small.time, small.progress);
    assert_eq!(small.cover, None);
}

#[test]
fn a_band_is_found_however_many_there_are() {
    let last = band_for(usize::MAX, usize::MAX, usize::MAX - 1);
    assert_eq!((last.band, last.part), (usize::MAX - 1, 0));
    let one = band_for(usize::MAX, 1, usize::MAX - 1);
    assert_eq!((one.band, one.next, one.part), (0, 0, 0));
    assert_eq!(cell_of(9, 9, false, usize::MAX), BarCell::Level { eighths: 0, loud: false });
}
