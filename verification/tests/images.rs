use tenuto::artwork::ArtworkError;
use tenuto::cli::ArtworkMode;
use tenuto::media::{AbsolutePath, MediaId};
use tenuto::tui::geometry::Rect;
use tenuto::tui::images::{
    cover_area, detected, failure_status, has_status_report, picker_for, picker_plan, query_timeout, status_step,
    CoverCache, CoverRequest, CoverRequests, CoverSource, CoverStep, ImageProtocol, PickerPlan,
    PrepareStep, TtyRead, TtyStep, ANSWERED_QUERY_TIMEOUT, DETECTION_TIMEOUT,
};

/// Width of a test image whose encoding panics.
const PANICKING_WIDTH: u32 = 13;

const AREA: Option<Rect> = Some(Rect { x: 0, y: 0, width: 14, height: 7 });

fn media(name: &str) -> MediaId {
    MediaId::LocalFile(AbsolutePath::new(format!("/music/{name}.flac")).unwrap())
}

/// An image is its width here, and what it is encoded to is that number again.
type Cache = CoverCache<u32, u32>;

/// Prepares as the front end does: asks what is to be encoded, encodes it, and
/// hands back what came of it.
fn prepare(
    cache: &mut Cache,
    picker: bool,
    mode: ArtworkMode,
    area: Option<Rect>,
    encodings: &mut usize,
) -> bool {
    match cache.prepare(picker, mode, area) {
        PrepareStep::Ready => false,
        PrepareStep::Encode { key, panic_now } => {
            *encodings += 1;
            let width = *cache.image().expect("there is something to encode");
            let candidate = if panic_now || width == PANICKING_WIDTH {
                Err(ArtworkError::Panicked)
            } else {
                Ok(width)
            };
            cache.finish(key, candidate)
        }
    }
}

#[test]
fn an_answering_terminal_is_recognised_across_split_and_late_reads() {
    let mut reply = Vec::new();
    let mut answered = false;
    for read in [None, Some(&b"k\x1b["[..]), None, None, Some(&b"0n"[..])] {
        let read = match read {
            Some(bytes) => TtyRead::Bytes(bytes.to_vec()),
            None => TtyRead::Blocked,
        };
        match status_step(&mut reply, read, false) {
            TtyStep::Answered => answered = true,
            TtyStep::ReadOn => {}
            TtyStep::Silent => panic!("the time is not up"),
        }
    }
    assert!(answered);
}

#[test]
fn a_silent_terminal_gives_up_at_the_deadline() {
    let mut reply = Vec::new();
    let typed = TtyRead::Bytes(b"typed keys".to_vec());
    assert_eq!(status_step(&mut reply, typed, false), TtyStep::ReadOn);
    assert_eq!(status_step(&mut reply, TtyRead::Blocked, false), TtyStep::ReadOn);
    assert_eq!(status_step(&mut reply, TtyRead::Blocked, true), TtyStep::Silent);
    assert_eq!(status_step(&mut reply, TtyRead::Ended, false), TtyStep::Silent);
}

#[test]
fn the_library_query_outwaits_a_terminal_that_answered_the_probe() {
    assert!(ANSWERED_QUERY_TIMEOUT >= 2000);
    assert!(ANSWERED_QUERY_TIMEOUT > DETECTION_TIMEOUT * 4);
    assert_eq!(query_timeout(true), Some(ANSWERED_QUERY_TIMEOUT));
    assert_eq!(query_timeout(false), None, "a silent terminal is not asked");
}

#[test]
fn only_real_artwork_failures_become_a_status() {
    assert_eq!(failure_status(&ArtworkError::Missing), None);
    assert_eq!(
        failure_status(&ArtworkError::Corrupt).as_deref(),
        Some("Cover art unavailable: artwork could not be decoded")
    );
    for error in [
        ArtworkError::TooLarge,
        ArtworkError::TooManyPixels,
        ArtworkError::Unsupported,
        ArtworkError::Corrupt,
        ArtworkError::Io,
        ArtworkError::Panicked,
        ArtworkError::Encoding,
    ] {
        let status = failure_status(&error).unwrap();
        assert_eq!(
            status,
            format!("Cover art unavailable: {}", error.describe())
        );
    }
}

#[test]
fn a_status_report_is_recognised_among_other_input() {
    assert!(has_status_report(b"\x1b[0n"));
    assert!(has_status_report(b"q\x1b[A\x1b[3n"));
    assert!(!has_status_report(b"\x1b[n"));
    assert!(!has_status_report(b"\x1b[0"));
    assert!(!has_status_report(b"\x1b[12;4R"));
}

#[test]
fn a_stand_in_encodes_silently_and_leaves_the_failure_to_real_artwork() {
    let mut encodings = 0;
    let mut cache = Cache::new(true);

    cache.set_image(media("a"), None, Some(256));
    assert!(
        prepare(&mut cache, true, ArtworkMode::Blocks, AREA, &mut encodings),
        "the stand-in encodes rather than meeting the encoding panic"
    );
    assert!(
        cache.take_failure().is_none(),
        "a stand-in has no artwork to call unavailable"
    );

    cache.set_image(media("a"), Some(8), Some(256));
    assert!(
        !prepare(&mut cache, true, ArtworkMode::Blocks, AREA, &mut encodings),
        "the real cover meets the encoding panic the stand-in left alone"
    );
    assert!(
        matches!(cache.take_failure(), Some(ArtworkError::Panicked)),
        "and that one is reported"
    );
}

#[test]
fn a_panicking_replacement_clears_the_cover_once_and_the_next_key_prepares() {
    let mut encodings = 0;
    let mut cache = Cache::new(false);

    cache.set_image(media("seed"), Some(8), None);
    assert!(prepare(&mut cache, true, ArtworkMode::Blocks, AREA, &mut encodings));
    assert!(cache.widget().is_some(), "seeded cover is prepared");
    assert!(
        !cache.take_placement_cleanup(),
        "a first cover replaces nothing"
    );

    cache.set_image(media("panics"), Some(PANICKING_WIDTH), None);
    let before = encodings;
    assert!(!prepare(&mut cache, true, ArtworkMode::Blocks, AREA, &mut encodings));
    assert!(cache.widget().is_none(), "placeholder after the panic");
    assert!(cache.take_placement_cleanup());
    assert!(
        !cache.take_placement_cleanup(),
        "exactly one cleanup request"
    );
    assert_eq!(
        cache.take_failure(),
        Some(ArtworkError::Panicked),
        "the failure is reported"
    );
    assert!(
        !prepare(&mut cache, true, ArtworkMode::Blocks, AREA, &mut encodings),
        "the failed key is not retried"
    );
    assert_eq!(encodings, before + 1);
    assert_eq!(cache.take_failure(), None, "and reported once");

    cache.set_image(media("next"), Some(8), None);
    assert!(prepare(&mut cache, true, ArtworkMode::Blocks, AREA, &mut encodings));
    assert!(cache.widget().is_some());
}

#[test]
fn the_encoding_panic_hook_fires_once_inside_the_boundary() {
    let area = Some(Rect { x: 0, y: 0, width: 8, height: 4 });
    let mut encodings = 0;
    let mut cache = Cache::new(true);

    cache.set_image(media("first"), Some(8), None);
    assert!(!prepare(&mut cache, true, ArtworkMode::Blocks, area, &mut encodings));
    assert!(cache.widget().is_none());
    assert!(cache.take_placement_cleanup());

    cache.set_image(media("second"), Some(8), None);
    assert!(prepare(&mut cache, true, ArtworkMode::Blocks, area, &mut encodings));
    assert!(cache.widget().is_some());
}

#[test]
fn off_and_hidden_areas_drop_a_prepared_cover() {
    let mut encodings = 0;
    let mut cache = Cache::new(false);
    cache.set_image(media("a"), Some(8), None);
    assert!(prepare(&mut cache, true, ArtworkMode::Blocks, AREA, &mut encodings));

    assert!(!prepare(&mut cache, false, ArtworkMode::Off, AREA, &mut encodings));
    assert!(cache.widget().is_none());
    assert!(cache.take_placement_cleanup());

    assert!(prepare(&mut cache, true, ArtworkMode::Blocks, AREA, &mut encodings));
    assert!(!prepare(
        &mut cache,
        true,
        ArtworkMode::Blocks,
        Some(Rect { x: 0, y: 0, width: 0, height: 7 }),
        &mut encodings
    ));
    assert!(cache.widget().is_none());
    assert!(cache.take_placement_cleanup());
}

#[test]
fn the_picker_follows_the_mode() {
    assert_eq!(picker_for(ArtworkMode::Off, Some(1), 2), None);
    assert_eq!(picker_for(ArtworkMode::Blocks, Some(1), 2), Some(2));
    assert_eq!(picker_for(ArtworkMode::Auto, Some(1), 2), Some(1));
    assert_eq!(picker_for(ArtworkMode::Auto, None, 2), Some(2));
    assert_eq!(picker_plan(ArtworkMode::Off), PickerPlan::Nothing);
    assert_eq!(picker_plan(ArtworkMode::Blocks), PickerPlan::HalfBlocks);
    assert_eq!(picker_plan(ArtworkMode::Auto), PickerPlan::Ask(DETECTION_TIMEOUT));
    assert_eq!(detected(Some(1), 0), None, "a guess is no detection");
    assert_eq!(detected(Some(1), 2), Some(1));
}

#[test]
fn a_cover_is_asked_for_once_from_each_source() {
    let request = |name: &str, at: &str| {
        Some(CoverRequest { media: media(name), source: CoverSource::Remote(at.to_owned()) })
    };
    let mut requests = CoverRequests::new();
    assert!(matches!(requests.moved(request("a", "u1")), CoverStep::Load(_)));
    assert_eq!(requests.moved(request("a", "u1")), CoverStep::Keep);
    assert!(requests.wants(&media("a")));
    assert!(!requests.wants(&media("b")));
    assert!(
        matches!(requests.moved(request("a", "u2")), CoverStep::Load(_)),
        "the same media from another source"
    );
    assert_eq!(requests.moved(None), CoverStep::Drop(media("a")));
    assert_eq!(requests.moved(None), CoverStep::Keep);
    assert!(!requests.wants(&media("a")));
}

#[test]
fn an_image_over_the_cells_gives_way_to_an_overlay() {
    for over in [ImageProtocol::Sixel, ImageProtocol::Iterm2] {
        assert_eq!(cover_area(AREA, true, Some(over)), None);
        assert_eq!(cover_area(AREA, false, Some(over)), AREA);
    }
    for within in [ImageProtocol::Kitty, ImageProtocol::HalfBlocks] {
        assert_eq!(cover_area(AREA, true, Some(within)), AREA);
    }
    assert_eq!(cover_area(AREA, true, None), AREA);
}

#[test]
fn an_invalidated_cover_is_cleaned_up_and_prepared_again() {
    let mut encodings = 0;
    let mut cache = Cache::new(false);
    cache.set_image(media("a"), Some(8), None);
    assert!(prepare(&mut cache, true, ArtworkMode::Auto, AREA, &mut encodings));
    cache.invalidate();
    assert!(cache.take_placement_cleanup());
    assert!(prepare(&mut cache, true, ArtworkMode::Auto, AREA, &mut encodings));
    assert_eq!(encodings, 2);
    assert!(!prepare(&mut cache, true, ArtworkMode::Auto, AREA, &mut encodings));
    assert_eq!(encodings, 2, "a prepared cover is kept");
    assert!(cache.widget().is_some());
}
