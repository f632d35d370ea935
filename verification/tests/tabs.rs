use tenuto::application::view::PlaylistTab;
use tenuto::playlist::PlaylistId;
use tenuto::tui::tabs::{compact, strip, window_measured, TabLabel, GAP};
use unicode_width::UnicodeWidthStr;

fn tab(id: u64, name: &str, playing: bool, shuffled: bool) -> PlaylistTab {
    PlaylistTab {
        id: PlaylistId::from_raw_for_tests(id),
        name: name.to_owned(),
        playing,
        shuffled,
    }
}

fn texts(labels: &[TabLabel]) -> Vec<&str> {
    labels.iter().map(|label| label.text.as_str()).collect()
}

fn columns(labels: &[TabLabel]) -> usize {
    labels.iter().map(|label| label.text.width()).sum::<usize>()
        + GAP.width() * labels.len().saturating_sub(1)
}

#[test]
fn marks_sit_on_the_playing_and_the_shuffled_tab() {
    let tabs = [
        tab(1, "Default", false, false),
        tab(2, "Morning", false, true),
        tab(3, "Workout", true, true),
    ];
    let labels = strip(&tabs, PlaylistId::from_raw_for_tests(2), 80);
    assert_eq!(
        texts(&labels),
        ["Default", "Morning ·shfl", "▶Workout ·shfl"]
    );
    assert_eq!(
        labels
            .iter()
            .map(|l| (l.viewed, l.playing))
            .collect::<Vec<_>>(),
        [(false, false), (true, false), (false, true)]
    );
}

#[test]
fn the_window_scrolls_to_keep_the_viewed_tab_and_never_exceeds_the_width() {
    let tabs: Vec<_> = (1..=9)
        .map(|i| tab(i, &format!("Playlist{i}"), false, false))
        .collect();
    for viewed in 1..=9 {
        let labels = strip(&tabs, PlaylistId::from_raw_for_tests(viewed), 34);
        assert!(
            labels.iter().any(|label| label.viewed),
            "viewed {viewed} is on screen"
        );
        assert!(
            columns(&labels) <= 34,
            "viewed {viewed}: {} columns",
            columns(&labels)
        );
    }
}

#[test]
fn width_is_measured_in_columns_not_bytes_or_chars() {
    // Each CJK character is two columns and three bytes.
    let tabs = [tab(1, "音楽音楽", false, false), tab(2, "ab", false, false)];
    let labels = strip(&tabs, PlaylistId::from_raw_for_tests(1), 10);
    assert_eq!(
        texts(&labels),
        ["音楽音楽"],
        "8 columns + gap + 2 = 12 > 10"
    );
}

#[test]
fn a_single_over_long_name_is_clipped_with_an_ellipsis() {
    let tabs = [tab(1, "An extraordinarily long playlist name", true, true)];
    let labels = strip(&tabs, PlaylistId::from_raw_for_tests(1), 12);
    assert_eq!(labels.len(), 1);
    assert_eq!(labels[0].text.width(), 12);
    assert!(labels[0].text.ends_with('…'));
}

#[test]
fn zero_width_and_an_unknown_viewed_id_are_harmless() {
    let tabs = [tab(1, "Default", true, false)];
    assert!(strip(&tabs, PlaylistId::from_raw_for_tests(1), 0).is_empty());
    assert_eq!(
        texts(&strip(&tabs, PlaylistId::from_raw_for_tests(9), 40)),
        ["▶Default"]
    );
}

#[test]
fn compact_names_the_viewed_playlist_and_its_place() {
    let tabs = [
        tab(1, "Default", false, false),
        tab(2, "Morning", true, true),
    ];
    assert_eq!(
        compact(&tabs, PlaylistId::from_raw_for_tests(2), 40),
        "▶Morning ·shfl 2/2"
    );
    assert!(compact(&tabs, PlaylistId::from_raw_for_tests(2), 8).width() <= 8);
}

#[test]
fn tabs_before_the_viewed_one_come_first() {
    // Each is ten columns; the viewed one and two more fit.
    assert_eq!(window_measured(&vec![10, 10, 10, 10, 10], 2, 34, 2), (0, 3));
    assert_eq!(window_measured(&vec![10, 10, 10, 10, 10], 2, 34, 0), (0, 3));
    assert_eq!(window_measured(&vec![10, 10, 10, 10, 10], 2, 10, 3), (3, 4));
}

#[test]
fn a_viewed_tab_that_is_cut_fills_the_strip_alone() {
    assert_eq!(window_measured(&vec![3, 20, 3], 2, 10, 1), (1, 2));
    assert_eq!(window_measured(&vec![0, 20, 0], 0, 10, 1), (0, 3));
    let tabs = [
        tab(1, "Default", false, false),
        tab(2, "A playlist with a long name", false, false),
        tab(3, "Workout", false, false),
    ];
    let labels = strip(&tabs, PlaylistId::from_raw_for_tests(2), 10);
    assert_eq!(labels.len(), 1);
    assert!(labels[0].viewed);
    assert!(columns(&labels) <= 10);
}
