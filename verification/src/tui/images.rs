//! Cover art in the terminal: whether the terminal answers, which protocol is
//! used, and the one prepared cover that a frame draws.

use crate::artwork::ArtworkError;
use crate::cli::ArtworkMode;
use crate::media::{MediaId, MediaKey};
use crate::text::{push_text, same_text};
use crate::tui::geometry::Rect;
use vstd::prelude::*;

verus! {

broadcast use crate::model::group_model;

/// How long the terminal has to answer before half-blocks are settled for, in
/// milliseconds.
pub const DETECTION_TIMEOUT: u64 = 250;

/// How long the full query may take once the terminal has answered, in
/// milliseconds.
pub const ANSWERED_QUERY_TIMEOUT: u64 = 2000;

/// What the artwork mode calls for.
#[derive(Clone, Copy, Debug, PartialEq, Eq, Structural)]
pub enum PickerPlan {
    /// No pictures at all.
    Nothing,
    HalfBlocks,
    /// Ask the terminal, for at most so many milliseconds.
    Ask(u64),
}

/// Nothing for off, half-blocks without asking for blocks, and a question for
/// auto.
pub fn picker_plan(mode: ArtworkMode) -> (plan: PickerPlan)
    ensures
        plan == match mode {
            ArtworkMode::Off => PickerPlan::Nothing,
            ArtworkMode::Blocks => PickerPlan::HalfBlocks,
            ArtworkMode::Auto => PickerPlan::Ask(DETECTION_TIMEOUT),
        },
{
    match mode {
        ArtworkMode::Off => PickerPlan::Nothing,
        ArtworkMode::Blocks => PickerPlan::HalfBlocks,
        ArtworkMode::Auto => PickerPlan::Ask(DETECTION_TIMEOUT),
    }
}

/// The picker that `mode` calls for: what was detected, or half-blocks where
/// nothing was.
pub fn picker_for<P>(mode: ArtworkMode, detected: Option<P>, halfblocks: P) -> (picker: Option<P>)
    ensures
        picker == match mode {
            ArtworkMode::Off => None,
            ArtworkMode::Blocks => Some(halfblocks),
            ArtworkMode::Auto => match detected {
                Some(found) => Some(found),
                None => Some(halfblocks),
            },
        },
{
    match mode {
        ArtworkMode::Off => None,
        ArtworkMode::Blocks => Some(halfblocks),
        ArtworkMode::Auto => match detected {
            Some(found) => Some(found),
            None => Some(halfblocks),
        },
    }
}

/// The status line for a failure on the active entry: none where there simply
/// is no artwork.
pub open spec fn failure_text(error: ArtworkError) -> Option<Seq<char>> {
    if error == ArtworkError::Missing {
        None
    } else {
        Some("Cover art unavailable: "@ + error.text())
    }
}

/// How long the full question may take, in milliseconds: it goes only to a
/// terminal that has just answered a status report.
pub fn query_timeout(answered: bool) -> (timeout: Option<u64>)
    ensures
        timeout == if answered {
            Some(ANSWERED_QUERY_TIMEOUT)
        } else {
            None
        },
{
    if answered {
        Some(ANSWERED_QUERY_TIMEOUT)
    } else {
        None
    }
}

/// What the full question detected. A picker without any reported capability
/// is a guess, and counts as no answer.
pub fn detected<P>(picker: Option<P>, capabilities: usize) -> (found: Option<P>)
    ensures
        found == if capabilities == 0 {
            None
        } else {
            picker
        },
{
    if capabilities == 0 {
        None
    } else {
        picker
    }
}

pub fn failure_status(error: &ArtworkError) -> (status: Option<String>)
    ensures
        crate::model::opt(status) == failure_text(*error),
{
    if *error == ArtworkError::Missing {
        return None;
    }
    let mut status = "Cover art unavailable: ".to_owned();
    push_text(&mut status, error.describe());
    Some(status)
}

// ----------------------------------------------------------- status reports

pub open spec fn is_digit_byte(byte: u8) -> bool {
    0x30 <= byte <= 0x39
}

/// Whether a status report begins at `start` and its digits end at `end`: an
/// escape, a bracket, one or more digits, and an `n`.
pub open spec fn report_at(bytes: Seq<u8>, start: int, end: int) -> bool {
    &&& 0 <= start
    &&& start + 2 < end < bytes.len()
    &&& bytes[start] == 0x1b
    &&& bytes[start + 1] == 0x5b
    &&& forall|i: int| start + 2 <= i < end ==> is_digit_byte(#[trigger] bytes[i])
    &&& bytes[end] == 0x6e
}

/// Whether `bytes` holds a status report.
pub open spec fn holds_report(bytes: Seq<u8>) -> bool {
    exists|start: int, end: int| #[trigger] report_at(bytes, start, end)
}

fn report_begins(bytes: &[u8], start: usize) -> (begins: bool)
    requires
        start < bytes@.len(),
    ensures
        begins == exists|end: int| #[trigger] report_at(bytes@, start as int, end),
{
    if bytes.len() - start < 4 || bytes[start] != 0x1b || bytes[start + 1] != 0x5b {
        return false;
    }
    let mut at: usize = start + 2;
    while at < bytes.len() && bytes[at] >= 0x30 && bytes[at] <= 0x39
        invariant
            start + 2 <= at <= bytes@.len(),
            forall|i: int| start + 2 <= i < at ==> is_digit_byte(#[trigger] bytes@[i]),
        decreases bytes@.len() - at,
    {
        at += 1;
    }
    let found: bool = at > start + 2 && at < bytes.len() && bytes[at] == 0x6e;
    proof {
        if found {
            assert(report_at(bytes@, start as int, at as int));
        }
        if exists|end: int| #[trigger] report_at(bytes@, start as int, end) {
            let end = choose|end: int| #[trigger] report_at(bytes@, start as int, end);
            assert(!is_digit_byte(bytes@[end]));
            if end < at {
                assert(is_digit_byte(bytes@[end]));
            }
            if end > at {
                assert(is_digit_byte(bytes@[at as int]));
            }
        }
    }
    found
}

/// Whether `bytes` holds a status report, among whatever else.
pub fn has_status_report(bytes: &[u8]) -> (holds: bool)
    ensures
        holds == holds_report(bytes@),
{
    let mut start: usize = 0;
    while start < bytes.len()
        invariant
            start <= bytes@.len(),
            forall|s: int, end: int| 0 <= s < start ==> !#[trigger] report_at(bytes@, s, end),
        decreases bytes@.len() - start,
    {
        if report_begins(bytes, start) {
            return true;
        }
        start += 1;
    }
    false
}

/// What came of reading the terminal.
#[derive(Debug, PartialEq, Eq)]
pub enum TtyRead {
    Bytes(Vec<u8>),
    /// Nothing is there yet.
    Blocked,
    /// The input ended, or the read failed.
    Ended,
}

/// What follows a read.
#[derive(Clone, Copy, Debug, PartialEq, Eq, Structural)]
pub enum TtyStep {
    Answered,
    Silent,
    ReadOn,
}

/// One read of the terminal while its report is awaited: it has answered once
/// everything read so far holds a report, and is silent once the time is up or
/// the input is over. Bytes before the report are dropped.
pub fn status_step(reply: &mut Vec<u8>, read: TtyRead, expired: bool) -> (step: TtyStep)
    ensures
        final(reply)@ == match read {
            TtyRead::Bytes(bytes) => old(reply)@ + bytes@,
            _ => old(reply)@,
        },
        step == match read {
            TtyRead::Bytes(bytes) => if bytes@.len() == 0 {
                TtyStep::Silent
            } else if holds_report(old(reply)@ + bytes@) {
                TtyStep::Answered
            } else if expired {
                TtyStep::Silent
            } else {
                TtyStep::ReadOn
            },
            TtyRead::Blocked => if expired {
                TtyStep::Silent
            } else {
                TtyStep::ReadOn
            },
            TtyRead::Ended => TtyStep::Silent,
        },
{
    match read {
        TtyRead::Bytes(bytes) => {
            let ghost before = reply@;
            let mut bytes = bytes;
            if bytes.len() == 0 {
                proof {
                    assert(before + bytes@ =~= before);
                }
                return TtyStep::Silent;
            }
            reply.append(&mut bytes);
            if has_status_report(reply.as_slice()) {
                return TtyStep::Answered;
            }
        },
        TtyRead::Blocked => {},
        TtyRead::Ended => return TtyStep::Silent,
    }
    if expired {
        TtyStep::Silent
    } else {
        TtyStep::ReadOn
    }
}

/// A report split over several reads is recognised when its last byte comes:
/// more input never hides one.
pub proof fn later_input_hides_no_report(bytes: Seq<u8>, more: Seq<u8>)
    requires
        holds_report(bytes),
    ensures
        holds_report(bytes + more),
{
    let (start, end) = choose|start: int, end: int| #[trigger] report_at(bytes, start, end);
    let all = bytes + more;
    assert forall|i: int| start + 2 <= i < end implies is_digit_byte(#[trigger] all[i]) by {
        assert(is_digit_byte(bytes[i]));
    }
    assert(report_at(all, start, end));
}

// ------------------------------------------------------------ cover sources

/// Where a cover is loaded from.
#[derive(Debug, PartialEq, Eq)]
pub enum CoverSource {
    /// A local file, by its path.
    Local(String),
    /// An address.
    Remote(String),
}

#[verifier::ext_equal]
pub enum CoverSourceView {
    Local(Seq<char>),
    Remote(Seq<char>),
}

impl View for CoverSource {
    type V = CoverSourceView;

    open spec fn view(&self) -> CoverSourceView {
        match *self {
            CoverSource::Local(path) => CoverSourceView::Local(path@),
            CoverSource::Remote(url) => CoverSourceView::Remote(url@),
        }
    }
}

impl CoverSource {
    pub fn same(&self, other: &Self) -> (same: bool)
        ensures
            same == (self@ == other@),
    {
        match (self, other) {
            (CoverSource::Local(a), CoverSource::Local(b)) => same_text(a, b),
            (CoverSource::Remote(a), CoverSource::Remote(b)) => same_text(a, b),
            _ => false,
        }
    }
}

impl Clone for CoverSource {
    fn clone(&self) -> (copy: Self)
        ensures
            copy@ == self@,
    {
        match self {
            CoverSource::Local(path) => CoverSource::Local(path.clone()),
            CoverSource::Remote(url) => CoverSource::Remote(url.clone()),
        }
    }
}

/// A media and where its cover is from.
#[derive(Debug, PartialEq, Eq)]
pub struct CoverRequest {
    pub media: MediaId,
    pub source: CoverSource,
}

#[verifier::ext_equal]
pub struct CoverRequestView {
    pub media: MediaKey,
    pub source: CoverSourceView,
}

impl View for CoverRequest {
    type V = CoverRequestView;

    open spec fn view(&self) -> CoverRequestView {
        CoverRequestView { media: self.media@, source: self.source@ }
    }
}

/// What a move of the active entry calls for.
#[derive(Debug, PartialEq, Eq)]
pub enum CoverStep {
    /// The cover that was requested is still the one to show.
    Keep,
    /// This cover is to be loaded; the stand-in is shown meanwhile.
    Load(CoverRequest),
    /// There is no cover any more for this media.
    Drop(MediaId),
}

/// The cover that was last requested.
#[derive(Debug, PartialEq, Eq)]
pub struct CoverRequests {
    requested: Option<CoverRequest>,
}

impl View for CoverRequests {
    type V = Option<CoverRequestView>;

    closed spec fn view(&self) -> Option<CoverRequestView> {
        crate::model::opt(self.requested)
    }
}

impl CoverRequests {
    pub fn new() -> (requests: Self)
        ensures
            requests@ is None,
    {
        CoverRequests { requested: None }
    }

    /// The active entry's cover may be another one. Only a new media, or a new
    /// source for the same media, is requested.
    pub fn moved(&mut self, active: Option<CoverRequest>) -> (step: CoverStep)
        ensures
            final(self)@ == crate::model::opt(active),
            match (active, old(self)@) {
                (Some(active), Some(requested)) => if active@ == requested {
                    step is Keep
                } else {
                    step matches CoverStep::Load(request) && request@ == active@
                },
                (Some(active), None) => step matches CoverStep::Load(request) && request@
                    == active@,
                (None, Some(requested)) => step matches CoverStep::Drop(media) && media@
                    == requested.media,
                (None, None) => step is Keep,
            },
    {
        match active {
            Some(active) => {
                let known: bool = match &self.requested {
                    Some(requested) => requested.media.same(&active.media)
                        && requested.source.same(&active.source),
                    None => false,
                };
                let request = CoverRequest {
                    media: active.media.clone(),
                    source: active.source.clone(),
                };
                self.requested = Some(active);
                if known {
                    CoverStep::Keep
                } else {
                    CoverStep::Load(request)
                }
            },
            None => match self.requested.take() {
                Some(requested) => CoverStep::Drop(requested.media),
                None => CoverStep::Keep,
            },
        }
    }

    /// Whether a cover that was loaded for `media` is still wanted.
    pub fn wants(&self, media: &MediaId) -> (wanted: bool)
        ensures
            wanted == (self@ matches Some(requested) && requested.media == media@),
    {
        match &self.requested {
            Some(requested) => requested.media.same(media),
            None => false,
        }
    }
}

// -------------------------------------------------------------- cover cache

/// How pictures reach the screen.
#[derive(Clone, Copy, Debug, PartialEq, Eq, Structural)]
pub enum ImageProtocol {
    HalfBlocks,
    Sixel,
    Kitty,
    Iterm2,
}

/// The area that the cover is drawn in. Sixel and iTerm2 pictures lie over the
/// cells, so that no overlay could hide one: while one is open they are not
/// drawn.
pub fn cover_area(area: Option<Rect>, overlay_open: bool, protocol: Option<ImageProtocol>) -> (shown:
    Option<Rect>)
    ensures
        shown == if overlay_open && (protocol == Some(ImageProtocol::Sixel) || protocol == Some(
            ImageProtocol::Iterm2,
        )) {
            None
        } else {
            area
        },
{
    if overlay_open && (protocol == Some(ImageProtocol::Sixel) || protocol == Some(
        ImageProtocol::Iterm2,
    )) {
        None
    } else {
        area
    }
}

/// Everything that a prepared cover depends on.
#[derive(Debug, PartialEq, Eq)]
pub struct CoverKey {
    pub media: MediaId,
    pub mode: ArtworkMode,
    pub area: Rect,
}

#[verifier::ext_equal]
pub struct CoverKeyView {
    pub media: MediaKey,
    pub mode: ArtworkMode,
    pub area: Rect,
}

impl View for CoverKey {
    type V = CoverKeyView;

    open spec fn view(&self) -> CoverKeyView {
        CoverKeyView { media: self.media@, mode: self.mode, area: self.area }
    }
}

impl CoverKey {
    fn same(&self, other: &Self) -> (same: bool)
        ensures
            same == (self@ == other@),
    {
        self.media.same(&other.media) && self.mode == other.mode && self.area == other.area
    }
}

impl Clone for CoverKey {
    fn clone(&self) -> (copy: Self)
        ensures
            copy@ == self@,
    {
        CoverKey { media: self.media.clone(), mode: self.mode, area: self.area }
    }
}

/// What the next frame needs.
#[derive(Debug, PartialEq, Eq)]
pub enum PrepareStep {
    /// Nothing: the prepared cover fits, or there is none to prepare.
    Ready,
    /// The picture is to be encoded for this key. A test may ask that the
    /// encoding panic.
    Encode { key: CoverKey, panic_now: bool },
}

/// The active entry's picture and the one prepared form of it, kept until what
/// it depends on changes. `I` is a decoded picture and `P` an encoded one.
#[derive(Debug)]
pub struct CoverCache<I, P> {
    media: Option<MediaId>,
    image: Option<I>,
    /// What `prepared` was made for.
    key: Option<CoverKey>,
    prepared: Option<P>,
    /// The last key that failed: it is not tried again.
    failed: Option<CoverKey>,
    placement_dirty: bool,
    /// Why the last preparation failed, until it is taken.
    failure: Option<ArtworkError>,
    panic_next_encoding: bool,
    /// Whether the picture only stands in: a failure to encode it is not
    /// reported.
    standin: bool,
}

#[verifier::ext_equal]
pub struct CacheView<I, P> {
    pub media: Option<MediaKey>,
    pub image: Option<I>,
    pub key: Option<CoverKeyView>,
    pub prepared: Option<P>,
    pub failed: Option<CoverKeyView>,
    pub placement_dirty: bool,
    pub failure: Option<ArtworkError>,
    pub panic_next_encoding: bool,
    pub standin: bool,
}

impl<I, P> View for CoverCache<I, P> {
    type V = CacheView<I, P>;

    closed spec fn view(&self) -> CacheView<I, P> {
        CacheView {
            media: crate::model::opt(self.media),
            image: self.image,
            key: crate::model::opt(self.key),
            prepared: self.prepared,
            failed: crate::model::opt(self.failed),
            placement_dirty: self.placement_dirty,
            failure: self.failure,
            panic_next_encoding: self.panic_next_encoding,
            standin: self.standin,
        }
    }
}

impl<I, P> CacheView<I, P> {
    /// Without a prepared cover; one that was there leaves a place to clean.
    pub open spec fn dropped(self) -> CacheView<I, P> {
        CacheView {
            key: None,
            prepared: None,
            placement_dirty: self.placement_dirty || self.prepared is Some,
            ..self
        }
    }

    /// With another picture: `image`, or else what stands in for it.
    pub open spec fn replaced(self, media: MediaKey, image: Option<I>, standin: Option<I>) -> CacheView<
        I,
        P,
    > {
        let left = self.dropped();
        CacheView {
            media: Some(media),
            standin: image is None,
            image: if image is Some {
                image
            } else {
                standin
            },
            failed: None,
            failure: None,
            ..left
        }
    }

    /// What a cover is prepared for: none without a picker, a picture, a media
    /// and an area with cells in it.
    pub open spec fn wanted(self, picker: bool, mode: ArtworkMode, area: Option<Rect>) -> Option<
        CoverKeyView,
    > {
        match (self.media, area) {
            (Some(media), Some(area)) => if picker && self.image is Some && area.width > 0
                && area.height > 0 {
                Some(CoverKeyView { media, mode, area })
            } else {
                None
            },
            _ => None,
        }
    }

    /// Whether a key is settled: prepared, or failed before.
    pub open spec fn settled(self, key: CoverKeyView) -> bool {
        (self.prepared is Some && self.key == Some(key)) || self.failed == Some(key)
    }

    /// With what the encoder made of a key.
    pub open spec fn encoded(self, key: CoverKeyView, candidate: Result<P, ArtworkError>) -> CacheView<
        I,
        P,
    > {
        let left = self.dropped();
        match candidate {
            Ok(prepared) => CacheView { prepared: Some(prepared), key: Some(key), ..left },
            Err(error) => CacheView {
                placement_dirty: true,
                failed: Some(key),
                failure: if self.standin {
                    self.failure
                } else {
                    Some(error)
                },
                ..left
            },
        }
    }
}

impl<I, P> CoverCache<I, P> {
    pub fn new(panic_next_encoding: bool) -> (cache: Self)
        ensures
            cache@ == (CacheView::<I, P> {
                media: None,
                image: None,
                key: None,
                prepared: None,
                failed: None,
                placement_dirty: false,
                failure: None,
                panic_next_encoding,
                standin: false,
            }),
    {
        CoverCache {
            media: None,
            image: None,
            key: None,
            prepared: None,
            failed: None,
            placement_dirty: false,
            failure: None,
            panic_next_encoding,
            standin: false,
        }
    }

    fn drop_prepared(&mut self)
        ensures
            final(self)@ == old(self)@.dropped(),
    {
        self.key = None;
        if self.prepared.is_some() {
            self.placement_dirty = true;
        }
        self.prepared = None;
    }

    /// Takes another picture for `media`, or what stands in where there is
    /// none. What was prepared goes.
    pub fn set_image(&mut self, media: MediaId, image: Option<I>, standin: Option<I>)
        ensures
            final(self)@ == old(self)@.replaced(media@, image, standin),
    {
        self.media = Some(media);
        self.standin = image.is_none();
        self.image = match image {
            Some(image) => Some(image),
            None => standin,
        };
        self.failed = None;
        self.failure = None;
        self.drop_prepared();
    }

    pub fn image(&self) -> (image: Option<&I>)
        ensures
            image == match self@.image {
                Some(image) => Some(&image),
                None => None,
            },
    {
        self.image.as_ref()
    }

    /// What has to be done before the cover can be drawn in `area`. Only a key
    /// that is neither prepared nor failed is encoded; a stand-in leaves the
    /// test hook to the real cover.
    pub fn prepare(&mut self, picker: bool, mode: ArtworkMode, area: Option<Rect>) -> (step: PrepareStep)
        ensures
            match old(self)@.wanted(picker, mode, area) {
                None => step is Ready && final(self)@ == old(self)@.dropped(),
                Some(key) => if old(self)@.settled(key) {
                    step is Ready && final(self)@ == old(self)@
                } else {
                    step matches PrepareStep::Encode { key: wanted, panic_now } && wanted@ == key
                        && panic_now == (!old(self)@.standin && old(self)@.panic_next_encoding)
                        && final(self)@ == (CacheView {
                        panic_next_encoding: old(self)@.standin && old(self)@.panic_next_encoding,
                        ..old(self)@
                    })
                },
            },
    {
        let shown = match area {
            Some(area) => if area.width > 0 && area.height > 0 {
                Some(area)
            } else {
                None
            },
            None => None,
        };
        let key = match (&self.media, shown) {
            (Some(media), Some(area)) => if picker && self.image.is_some() {
                CoverKey { media: media.clone(), mode, area }
            } else {
                self.drop_prepared();
                return PrepareStep::Ready;
            },
            _ => {
                self.drop_prepared();
                return PrepareStep::Ready;
            },
        };
        let prepared: bool = match (&self.prepared, &self.key) {
            (Some(_), Some(current)) => current.same(&key),
            _ => false,
        };
        let failed: bool = match &self.failed {
            Some(failed) => failed.same(&key),
            None => false,
        };
        if prepared || failed {
            return PrepareStep::Ready;
        }
        let panic_now: bool = !self.standin && self.panic_next_encoding;
        if !self.standin {
            self.panic_next_encoding = false;
        }
        PrepareStep::Encode { key, panic_now }
    }

    /// Takes what the encoder made. Says whether a cover is prepared by it; a
    /// failure is kept to be reported, unless the picture only stands in.
    pub fn finish(&mut self, key: CoverKey, candidate: Result<P, ArtworkError>) -> (prepared: bool)
        ensures
            prepared == (candidate is Ok),
            final(self)@ == old(self)@.encoded(key@, candidate),
    {
        self.drop_prepared();
        match candidate {
            Ok(encoded) => {
                self.prepared = Some(encoded);
                self.key = Some(key);
                true
            },
            Err(error) => {
                self.placement_dirty = true;
                self.failed = Some(key);
                if !self.standin {
                    self.failure = Some(error);
                }
                false
            },
        }
    }

    /// Forgets what was prepared and what failed, and asks for a cleaning: for
    /// a redraw or a resize.
    pub fn invalidate(&mut self)
        ensures
            final(self)@ == (CacheView {
                failed: None,
                failure: None,
                placement_dirty: true,
                ..old(self)@.dropped()
            }),
    {
        self.drop_prepared();
        self.failed = None;
        self.failure = None;
        self.placement_dirty = true;
    }

    /// Whether the screen has to be cleaned before the next draw, once.
    pub fn take_placement_cleanup(&mut self) -> (clean: bool)
        ensures
            clean == old(self)@.placement_dirty,
            final(self)@ == (CacheView { placement_dirty: false, ..old(self)@ }),
    {
        let clean: bool = self.placement_dirty;
        self.placement_dirty = false;
        clean
    }

    /// Why the last preparation failed, once.
    pub fn take_failure(&mut self) -> (failure: Option<ArtworkError>)
        ensures
            failure == old(self)@.failure,
            final(self)@ == (CacheView { failure: None, ..old(self)@ }),
    {
        self.failure.take()
    }

    pub fn widget(&self) -> (widget: Option<&P>)
        ensures
            widget == match self@.prepared {
                Some(prepared) => Some(&prepared),
                None => None,
            },
    {
        self.prepared.as_ref()
    }
}

// --------------------------------------------------------------------- laws

/// A key that failed is not encoded again until the picture changes or the
/// screen is redrawn; a key that succeeded is not encoded again either.
pub proof fn encoding_is_settled<I, P>(
    cache: CacheView<I, P>,
    key: CoverKeyView,
    candidate: Result<P, ArtworkError>,
)
    ensures
        cache.encoded(key, candidate).settled(key),
{
}

/// A failure to encode a stand-in is never reported, and one to encode real
/// artwork always is.
pub proof fn only_real_artwork_fails<I, P>(
    cache: CacheView<I, P>,
    key: CoverKeyView,
    error: ArtworkError,
)
    requires
        cache.failure is None,
    ensures
        cache.encoded(key, Err(error)).failure == if cache.standin {
            None
        } else {
            Some(error)
        },
        cache.encoded(key, Err(error)).prepared is None,
{
}

/// Whenever a cover that was on the screen goes, the screen is to be cleaned.
pub proof fn replaced_cover_is_cleaned<I, P>(
    cache: CacheView<I, P>,
    media: MediaKey,
    image: Option<I>,
    standin: Option<I>,
    key: CoverKeyView,
    candidate: Result<P, ArtworkError>,
)
    requires
        cache.prepared is Some,
    ensures
        cache.replaced(media, image, standin).placement_dirty,
        cache.replaced(media, image, standin).prepared is None,
        cache.encoded(key, candidate).placement_dirty,
        cache.dropped().placement_dirty,
{
}

/// A new picture is shown for its media: the artwork where there is any, and otherwise what
/// stands in. What failed or was prepared before counts no more.
pub proof fn picture_is_replaced<I, P>(
    cache: CacheView<I, P>,
    media: MediaKey,
    image: Option<I>,
    standin: Option<I>,
    key: CoverKeyView,
)
    ensures
        ({
            let after = cache.replaced(media, image, standin);
            &&& after.media == Some(media)
            &&& image is Some ==> after.image == image && !after.standin
            &&& image is None ==> after.image == standin && after.standin
            &&& after.prepared is None && !after.settled(key)
            &&& after.failure is None
        }),
{
}

/// A cover is prepared exactly where it can be drawn and there is a picture of a media, and
/// for that media, that mode and that place.
pub proof fn cover_is_wanted_where_it_shows<I, P>(
    cache: CacheView<I, P>,
    picker: bool,
    mode: ArtworkMode,
    area: Rect,
    media: MediaKey,
)
    ensures
        cache.wanted(picker, mode, None) is None,
        !picker || cache.image is None || cache.media is None || area.width == 0 || area.height == 0
            ==> cache.wanted(picker, mode, Some(area)) is None,
        picker && cache.image is Some && cache.media == Some(media) && area.width > 0 && area.height
            > 0 ==> cache.wanted(picker, mode, Some(area)) == Some(
            CoverKeyView { media, mode, area },
        ),
{
}

/// What the encoder made is what is shown, for the place it was made for; what it could not
/// make is not tried again there, and a cover for another place still is.
pub proof fn encoded_cover_is_shown<I, P>(
    cache: CacheView<I, P>,
    key: CoverKeyView,
    other: CoverKeyView,
    prepared: P,
    error: ArtworkError,
)
    requires
        other != key,
    ensures
        cache.encoded(key, Ok(prepared)).prepared == Some(prepared),
        cache.encoded(key, Ok(prepared)).key == Some(key),
        cache.encoded(key, Ok(prepared)).image == cache.image,
        cache.encoded(key, Err(error)).prepared is None,
        cache.encoded(key, Err(error)).failed == Some(key),
        !cache.encoded(key, Err(error)).settled(other),
{
}

/// Missing artwork is not reported, and every other failure is, with its reason.
pub proof fn failures_are_told(error: ArtworkError)
    ensures
        error == ArtworkError::Missing <==> failure_text(error) is None,
        failure_text(error) matches Some(text) ==> text.len() >= error.text().len() && text.skip(
            text.len() - error.text().len(),
        ) == error.text(),
{
    if let Some(text) = failure_text(error) {
        assert(text.skip(text.len() - error.text().len()) =~= error.text());
    }
}

/// The answer to the status question is recognised wherever it stands among other input, and
/// without an escape there is none.
pub proof fn status_answer_is_recognised(before: Seq<u8>, digit: u8, after: Seq<u8>)
    requires
        0x30 <= digit <= 0x39,
    ensures
        holds_report(before + seq![0x1bu8, 0x5bu8, digit, 0x6eu8] + after),
        (forall|i: int| 0 <= i < before.len() ==> #[trigger] before[i] != 0x1b) ==> !holds_report(
            before,
        ),
{
    let bytes = before + seq![0x1bu8, 0x5bu8, digit, 0x6eu8] + after;
    let at = before.len() as int;
    assert(bytes[at] == 0x1b && bytes[at + 1] == 0x5b && bytes[at + 2] == digit && bytes[at + 3]
        == 0x6e);
    assert(report_at(bytes, at, at + 3));
    if holds_report(before) {
        let (start, end) = choose|start: int, end: int| #[trigger] report_at(before, start, end);
        assert(before[start] == 0x1b);
    }
}

} // verus!
