use image::{DynamicImage, GenericImageView, ImageFormat, Rgb, RgbImage};
use std::io::Cursor;
use std::sync::Arc;
use tenuto::artwork::{default_cover, ArtworkError, BuiltInCovers, CoverFiles, CoverKind};

const KINDS: [CoverKind; 3] = [CoverKind::Music, CoverKind::Radio, CoverKind::Podcast];

fn jpeg(red: u8, green: u8, blue: u8) -> Vec<u8> {
    let picture = RgbImage::from_pixel(256, 256, Rgb([red, green, blue]));
    let mut file = Cursor::new(Vec::new());
    DynamicImage::ImageRgb8(picture)
        .write_to(&mut file, ImageFormat::Jpeg)
        .expect("a plain picture encodes");
    file.into_inner()
}

fn files() -> CoverFiles {
    CoverFiles {
        music: jpeg(200, 40, 40),
        radio: jpeg(40, 200, 40),
        podcast: jpeg(40, 40, 200),
    }
}

/// The covers after each of these kinds was asked for.
fn decoded(files: &CoverFiles, kinds: &[CoverKind]) -> BuiltInCovers<Arc<DynamicImage>> {
    let mut covers = BuiltInCovers::new();
    for kind in kinds {
        if let Some(file) = covers.undecoded(files, *kind) {
            let picture = image::load_from_memory_with_format(file, ImageFormat::Jpeg);
            covers.settle(*kind, picture.map(Arc::new).ok());
        }
    }
    covers
}

#[test]
fn every_kind_decodes_to_a_square_cover() {
    let covers = decoded(&files(), &KINDS);
    for kind in KINDS {
        let cover = default_cover(&covers, kind).expect("a built-in cover decodes");
        assert_eq!(
            cover.dimensions(),
            (256, 256),
            "{kind:?} is not the expected size"
        );
    }
}

#[test]
fn each_kind_is_a_different_picture() {
    let built_in = decoded(&files(), &KINDS);
    let covers: Vec<_> = KINDS
        .into_iter()
        .map(|kind| default_cover(&built_in, kind).expect("a built-in cover decodes"))
        .collect();
    for (left, right) in [(0, 1), (0, 2), (1, 2)] {
        assert_ne!(
            covers[left].as_bytes(),
            covers[right].as_bytes(),
            "{:?} and {:?} are the same picture",
            KINDS[left],
            KINDS[right]
        );
    }
}

#[test]
fn the_same_kind_shares_one_decode() {
    let files = files();
    let covers = decoded(&files, &[CoverKind::Music, CoverKind::Music]);
    let first = default_cover(&covers, CoverKind::Music).cloned().expect("decodes");
    let second = default_cover(&covers, CoverKind::Music).cloned().expect("decodes");
    assert!(Arc::ptr_eq(&first, &second));
    assert_eq!(covers.undecoded(&files, CoverKind::Music), None);
}

#[test]
fn each_kind_shows_its_own_file() {
    let covers = decoded(&files(), &KINDS);
    for (kind, colour) in KINDS.into_iter().zip([[200, 40, 40], [40, 200, 40], [40, 40, 200]]) {
        let cover = default_cover(&covers, kind).expect("a built-in cover decodes");
        for (shown, drawn) in cover.as_bytes().iter().zip(colour.into_iter().cycle()) {
            assert!(shown.abs_diff(drawn) <= 4, "{kind:?}: {shown} for {drawn}");
        }
    }
}

#[test]
fn a_cover_that_cannot_be_decoded_is_none() {
    let broken = CoverFiles {
        music: vec![0xff, 0xd8, 0x00],
        radio: Vec::new(),
        podcast: b"no picture".to_vec(),
    };
    let covers = decoded(&broken, &KINDS);
    for kind in KINDS {
        assert!(default_cover(&covers, kind).is_none());
        assert_eq!(covers.undecoded(&broken, kind), None, "it is not tried again");
    }
}

#[test]
fn the_first_decode_of_a_kind_stays_and_touches_no_other() {
    let files = CoverFiles { music: vec![1], radio: vec![2], podcast: vec![3] };
    let mut covers = BuiltInCovers::new();
    for (kind, file) in KINDS.into_iter().zip([1, 2, 3]) {
        assert_eq!(covers.undecoded(&files, kind), Some(&vec![file]));
        assert_eq!(default_cover(&covers, kind), None);
    }
    covers.settle(CoverKind::Radio, Some("first"));
    covers.settle(CoverKind::Radio, Some("second"));
    assert_eq!(default_cover(&covers, CoverKind::Radio), Some(&"first"));
    covers.settle(CoverKind::Podcast, None);
    covers.settle(CoverKind::Podcast, Some("late"));
    assert_eq!(default_cover(&covers, CoverKind::Podcast), None);
    assert_eq!(covers.undecoded(&files, CoverKind::Podcast), None);
    assert_eq!(covers.undecoded(&files, CoverKind::Music), Some(&vec![1]));
}

#[test]
fn every_failure_says_what_it_is() {
    assert_eq!(ArtworkError::Missing.describe(), "no artwork");
    assert_eq!(ArtworkError::Corrupt.describe(), "artwork could not be decoded");
}
