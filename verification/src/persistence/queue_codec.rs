//! The playlists of the state file, decoded apart from listening history so
//! that a damaged queue never costs a checkpoint.

use crate::clock::Duration;
use crate::json::{number_of, Field, FieldView, Json, JsonView};
use crate::media::{AbsolutePath, MediaId, MediaKey, NormalizedUrl, Url};
use crate::playback::PositionProvenance;
use crate::playlist::{Playlist, PlaylistView, Shuffle};
use crate::queue::{
    source_matches, DisplayDuration, DisplayMetadata, DisplayView, DurationSource, EntryView, Queue,
    QueueEntry, QueueEntryId, QueueSource, QueueView, SourceView,
};
use crate::text::same_text;
use std::collections::BTreeSet;
use vstd::prelude::*;

verus! {

broadcast use crate::model::group_model;

#[derive(Clone, Copy, Debug, PartialEq, Eq, Structural)]
pub enum ActiveProblem {
    Malformed,
    Dangling,
    MediaMismatch,
}

#[derive(Clone, Copy, Debug, PartialEq, Eq, Structural)]
pub enum QueueProblem {
    Malformed,
    DuplicateIds,
    SourceMismatch,
    OverCapacity { found: usize },
}

#[derive(Clone, Copy, Debug, PartialEq, Eq, Structural)]
pub enum PlaylistProblem {
    Malformed,
    DuplicatePlaylistId,
    DuplicateEntryId,
    /// A repair needed a new number and there was none left, so the later of
    /// the two in conflict was dropped.
    IdsExhausted,
    TooManyPlaylists { found: usize },
    OverCapacity { found: usize },
    DanglingPlaying,
    /// A shuffle without a numeric seed, or whose first entry is no number. A
    /// first entry that is merely no longer a member is no problem.
    Shuffle,
}

/// What had to be reset for a file to be read.
#[derive(Clone, Copy, Debug, PartialEq, Eq, Structural)]
pub enum QueueReset {
    ActiveReference(ActiveProblem),
    WholeQueue(QueueProblem),
    Playlists(PlaylistProblem),
}

impl QueueReset {
    /// Which fields were reset, for the warning at startup.
    pub fn fields_reset(self) -> (fields: &'static str)
        ensures
            fields@ == match self {
                QueueReset::ActiveReference(_) => "the active queue entry"@,
                QueueReset::WholeQueue(_) => "the queue and its active entry"@,
                QueueReset::Playlists(_) => "one or more playlists"@,
            },
    {
        match self {
            QueueReset::ActiveReference(_) => "the active queue entry",
            QueueReset::WholeQueue(_) => "the queue and its active entry",
            QueueReset::Playlists(_) => "one or more playlists",
        }
    }
}

/// Where an entry's audio comes from, as it is saved.
#[derive(Debug, PartialEq, Eq)]
pub enum SourceDto {
    Local { path: String },
    Remote { url: String },
    Podcast { fallback_url: String },
}

#[verifier::ext_equal]
pub enum SourceDtoView {
    Local { path: Seq<char> },
    Remote { url: Seq<char> },
    Podcast { fallback_url: Seq<char> },
}

impl View for SourceDto {
    type V = SourceDtoView;

    open spec fn view(&self) -> SourceDtoView {
        match *self {
            SourceDto::Local { path } => SourceDtoView::Local { path: path@ },
            SourceDto::Remote { url } => SourceDtoView::Remote { url: url@ },
            SourceDto::Podcast { fallback_url } => SourceDtoView::Podcast {
                fallback_url: fallback_url@,
            },
        }
    }
}

/// What is shown of an entry, as it is saved.
#[derive(Debug, PartialEq, Eq)]
pub struct DisplayDto {
    pub title: Option<String>,
    pub artist: Option<String>,
    pub album: Option<String>,
    pub year: Option<String>,
    pub duration_ms: Option<u64>,
    pub duration_source: Option<String>,
}

#[verifier::ext_equal]
pub struct DisplayDtoView {
    pub title: Option<Seq<char>>,
    pub artist: Option<Seq<char>>,
    pub album: Option<Seq<char>>,
    pub year: Option<Seq<char>>,
    pub duration_ms: Option<u64>,
    pub duration_source: Option<Seq<char>>,
}

impl View for DisplayDto {
    type V = DisplayDtoView;

    open spec fn view(&self) -> DisplayDtoView {
        DisplayDtoView {
            title: crate::model::opt(self.title),
            artist: crate::model::opt(self.artist),
            album: crate::model::opt(self.album),
            year: crate::model::opt(self.year),
            duration_ms: self.duration_ms,
            duration_source: crate::model::opt(self.duration_source),
        }
    }
}

/// An entry, as it is saved.
#[derive(Debug, PartialEq, Eq)]
pub struct QueueEntryDto {
    pub id: u64,
    pub media: MediaId,
    pub source: SourceDto,
    pub display: DisplayDto,
}

#[verifier::ext_equal]
pub struct EntryDtoView {
    pub id: u64,
    pub media: MediaKey,
    pub source: SourceDtoView,
    pub display: DisplayDtoView,
}

impl View for QueueEntryDto {
    type V = EntryDtoView;

    open spec fn view(&self) -> EntryDtoView {
        EntryDtoView {
            id: self.id,
            media: self.media@,
            source: self.source@,
            display: self.display@,
        }
    }
}

// ---------------------------------------------------------------- encoding

impl DurationSource {
    /// The label that a duration's source is saved under.
    pub open spec fn label(self) -> Seq<char> {
        match self {
            DurationSource::Decoded(PositionProvenance::Established) => "decoded"@,
            DurationSource::Decoded(PositionProvenance::Estimated) => "decoded_estimated"@,
            DurationSource::Declared => "declared"@,
        }
    }
}

impl SourceView {
    pub open spec fn dto(self) -> SourceDtoView {
        match self {
            SourceView::LocalFile(path) => SourceDtoView::Local { path },
            SourceView::RemoteUrl(url) => SourceDtoView::Remote { url },
            SourceView::Podcast { fallback } => SourceDtoView::Podcast { fallback_url: fallback },
        }
    }
}

impl DisplayView {
    pub open spec fn dto(self) -> DisplayDtoView {
        DisplayDtoView {
            title: self.title,
            artist: self.artist,
            album: self.album,
            year: self.year,
            duration_ms: match self.duration {
                Some(duration) => Some(duration.value.millis_spec() as u64),
                None => None,
            },
            duration_source: match self.duration {
                Some(duration) => Some(duration.source.label()),
                None => None,
            },
        }
    }
}

impl EntryView {
    pub open spec fn dto(self) -> EntryDtoView {
        EntryDtoView {
            id: self.id.raw,
            media: self.media,
            source: self.source.dto(),
            display: self.display.dto(),
        }
    }
}

impl QueueView {
    pub open spec fn dtos(self) -> Seq<EntryDtoView> {
        self.entries.map_values(|entry: EntryView| entry.dto())
    }
}

fn encode_entry(entry: &QueueEntry) -> (dto: QueueEntryDto)
    ensures
        dto@ == entry@.dto(),
{
    let source = match entry.source() {
        QueueSource::LocalFile(path) => SourceDto::Local { path: path.as_str().to_owned() },
        QueueSource::RemoteUrl(url) => SourceDto::Remote { url: url.as_str().to_owned() },
        QueueSource::Podcast { fallback } => SourceDto::Podcast {
            fallback_url: fallback.as_str().to_owned(),
        },
    };
    let display = entry.display();
    let duration_ms = match display.duration {
        Some(duration) => Some(duration.value.as_millis()),
        None => None,
    };
    let duration_source = match display.duration {
        Some(duration) => Some(
            match duration.source {
                DurationSource::Decoded(PositionProvenance::Established) => "decoded",
                DurationSource::Decoded(PositionProvenance::Estimated) => "decoded_estimated",
                DurationSource::Declared => "declared",
            }.to_owned(),
        ),
        None => None,
    };
    QueueEntryDto {
        id: entry.id().get(),
        media: entry.media().clone(),
        source,
        display: DisplayDto {
            title: display.title.clone(),
            artist: display.artist.clone(),
            album: display.album.clone(),
            year: display.year.clone(),
            duration_ms,
            duration_source,
        },
    }
}

/// The entries of a queue, as they are saved. A queue in memory is valid, so
/// this never fails.
pub fn encode(queue: &Queue) -> (dtos: Vec<QueueEntryDto>)
    ensures
        crate::model::seq(dtos@) == queue@.dtos(),
{
    let entries = queue.entries();
    let mut dtos: Vec<QueueEntryDto> = Vec::new();
    let mut at: usize = 0;
    while at < entries.len()
        invariant
            at <= entries@.len(),
            crate::model::seq(entries@) == queue@.entries,
            crate::model::seq(dtos@) == queue@.dtos().take(at as int),
        decreases entries@.len() - at,
    {
        assert(queue@.entries[at as int] == entries@[at as int]@);
        dtos.push(encode_entry(&entries[at]));
        proof {
            assert(queue@.dtos().take(at + 1) =~= queue@.dtos().take(at as int).push(
                queue@.entries[at as int].dto(),
            ));
        }
        at += 1;
    }
    proof {
        assert(queue@.dtos().take(at as int) =~= queue@.dtos());
    }
    dtos
}

/// A shuffle, as it is saved.
#[derive(Clone, Copy, Debug, PartialEq, Eq, Structural)]
pub struct ShuffleDto {
    pub seed: u64,
    pub first: Option<u64>,
}

/// A playlist, as it is saved.
#[derive(Debug, PartialEq, Eq)]
pub struct PlaylistDto {
    pub id: u64,
    pub name: String,
    pub shuffle: Option<ShuffleDto>,
    pub entries: Vec<QueueEntryDto>,
    pub active_entry: Option<u64>,
}

#[verifier::ext_equal]
pub struct PlaylistDtoView {
    pub id: u64,
    pub name: Seq<char>,
    pub shuffle: Option<ShuffleDto>,
    pub entries: Seq<EntryDtoView>,
    pub active_entry: Option<u64>,
}

impl View for PlaylistDto {
    type V = PlaylistDtoView;

    open spec fn view(&self) -> PlaylistDtoView {
        PlaylistDtoView {
            id: self.id,
            name: self.name@,
            shuffle: self.shuffle,
            entries: crate::model::seq(self.entries@),
            active_entry: self.active_entry,
        }
    }
}

/// The number of an entry, where there is one.
pub open spec fn raw_of(id: Option<QueueEntryId>) -> Option<u64> {
    match id {
        Some(id) => Some(id.raw),
        None => None,
    }
}

impl PlaylistView {
    pub open spec fn dto(self) -> PlaylistDtoView {
        PlaylistDtoView {
            id: self.id.raw,
            name: self.name,
            shuffle: match self.shuffle {
                Some(shuffle) => Some(ShuffleDto { seed: shuffle.seed, first: raw_of(shuffle.first) }),
                None => None,
            },
            entries: self.queue.dtos(),
            active_entry: raw_of(self.queue.active),
        }
    }
}

fn raw(id: Option<QueueEntryId>) -> (raw: Option<u64>)
    ensures
        raw == raw_of(id),
{
    match id {
        Some(id) => Some(id.raw),
        None => None,
    }
}

/// The playlists, as they are saved.
pub fn encode_playlists(playlists: &Vec<Playlist>) -> (dtos: Vec<PlaylistDto>)
    ensures
        crate::model::seq(dtos@) == crate::model::seq(playlists@).map_values(
            |playlist: PlaylistView| playlist.dto(),
        ),
{
    let ghost all = crate::model::seq(playlists@).map_values(
        |playlist: PlaylistView| playlist.dto(),
    );
    let mut dtos: Vec<PlaylistDto> = Vec::new();
    let mut at: usize = 0;
    while at < playlists.len()
        invariant
            at <= playlists@.len(),
            all == crate::model::seq(playlists@).map_values(
                |playlist: PlaylistView| playlist.dto(),
            ),
            crate::model::seq(dtos@) == all.take(at as int),
        decreases playlists@.len() - at,
    {
        let playlist = &playlists[at];
        let shuffle = match playlist.shuffle() {
            Some(shuffle) => Some(ShuffleDto { seed: shuffle.seed, first: raw(shuffle.first) }),
            None => None,
        };
        let dto = PlaylistDto {
            id: playlist.id().get(),
            name: playlist.name().to_owned(),
            shuffle,
            entries: encode(playlist.queue()),
            active_entry: raw(playlist.queue().active()),
        };
        proof {
            assert(dto@ =~= playlists@[at as int]@.dto());
            assert(all.take(at + 1) =~= all.take(at as int).push(dto@));
        }
        dtos.push(dto);
        at += 1;
    }
    proof {
        assert(all.take(at as int) =~= all);
    }
    dtos
}

// ------------------------------------------------------------ JSON, out

pub open spec fn member(name: Seq<char>, value: JsonView) -> FieldView {
    FieldView { name, value }
}

pub open spec fn text_or_null(text: Option<Seq<char>>) -> JsonView {
    match text {
        Some(text) => JsonView::Text(text),
        None => JsonView::Null,
    }
}

pub open spec fn number_or_null(number: Option<u64>) -> JsonView {
    match number {
        Some(number) => JsonView::Number(number),
        None => JsonView::Null,
    }
}

impl SourceDtoView {
    pub open spec fn json(self) -> JsonView {
        match self {
            SourceDtoView::Local { path } => JsonView::Object(
                seq![member("kind"@, JsonView::Text("local"@)), member("path"@, JsonView::Text(path))],
            ),
            SourceDtoView::Remote { url } => JsonView::Object(
                seq![member("kind"@, JsonView::Text("remote"@)), member("url"@, JsonView::Text(url))],
            ),
            SourceDtoView::Podcast { fallback_url } => JsonView::Object(
                seq![
                    member("kind"@, JsonView::Text("podcast"@)),
                    member("fallback_url"@, JsonView::Text(fallback_url)),
                ],
            ),
        }
    }
}

impl DisplayDtoView {
    pub open spec fn json(self) -> JsonView {
        JsonView::Object(
            seq![
                member("title"@, text_or_null(self.title)),
                member("artist"@, text_or_null(self.artist)),
                member("album"@, text_or_null(self.album)),
                member("year"@, text_or_null(self.year)),
                member("duration_ms"@, number_or_null(self.duration_ms)),
                member("duration_source"@, text_or_null(self.duration_source)),
            ],
        )
    }
}

impl EntryDtoView {
    pub open spec fn json(self) -> JsonView {
        JsonView::Object(
            seq![
                member("id"@, JsonView::Number(self.id)),
                member("media"@, JsonView::Text(self.media.text())),
                member("source"@, self.source.json()),
                member("display"@, self.display.json()),
            ],
        )
    }
}

impl ShuffleDto {
    pub open spec fn json(self) -> JsonView {
        JsonView::Object(
            seq![
                member("seed"@, JsonView::Number(self.seed)),
                member("first"@, number_or_null(self.first)),
            ],
        )
    }
}

impl PlaylistDtoView {
    pub open spec fn json(self) -> JsonView {
        JsonView::Object(
            seq![
                member("id"@, JsonView::Number(self.id)),
                member("name"@, JsonView::Text(self.name)),
                member(
                    "shuffle"@,
                    match self.shuffle {
                        Some(shuffle) => shuffle.json(),
                        None => JsonView::Null,
                    },
                ),
                member(
                    "entries"@,
                    JsonView::Array(self.entries.map_values(|entry: EntryDtoView| entry.json())),
                ),
                member("active_entry"@, number_or_null(self.active_entry)),
            ],
        )
    }
}

fn field(name: &str, value: Json) -> (field: Field)
    ensures
        field@ == member(name@, value@),
{
    Field { name: name.to_owned(), value }
}

fn text_json(text: &str) -> (value: Json)
    ensures
        value@ == JsonView::Text(text@),
{
    Json::Text(text.to_owned())
}

fn optional_text_json(text: &Option<String>) -> (value: Json)
    ensures
        value@ == text_or_null(crate::model::opt(*text)),
{
    match text {
        Some(text) => Json::Text(text.clone()),
        None => Json::Null,
    }
}

/// A number, or null.
pub fn optional_number_json(number: Option<u64>) -> (value: Json)
    ensures
        value@ == number_or_null(number),
{
    match number {
        Some(number) => Json::Number(number),
        None => Json::Null,
    }
}

impl SourceDto {
    pub fn to_json(&self) -> (value: Json)
        ensures
            value@ == self@.json(),
    {
        let mut fields: Vec<Field> = Vec::new();
        match self {
            SourceDto::Local { path } => {
                fields.push(field("kind", text_json("local")));
                fields.push(field("path", text_json(path.as_str())));
            },
            SourceDto::Remote { url } => {
                fields.push(field("kind", text_json("remote")));
                fields.push(field("url", text_json(url.as_str())));
            },
            SourceDto::Podcast { fallback_url } => {
                fields.push(field("kind", text_json("podcast")));
                fields.push(field("fallback_url", text_json(fallback_url.as_str())));
            },
        }
        proof {
            assert(crate::model::seq(fields@) =~= self@.json()->Object_0);
        }
        Json::object(fields)
    }
}

impl DisplayDto {
    pub fn to_json(&self) -> (value: Json)
        ensures
            value@ == self@.json(),
    {
        let mut fields: Vec<Field> = Vec::new();
        fields.push(field("title", optional_text_json(&self.title)));
        fields.push(field("artist", optional_text_json(&self.artist)));
        fields.push(field("album", optional_text_json(&self.album)));
        fields.push(field("year", optional_text_json(&self.year)));
        fields.push(field("duration_ms", optional_number_json(self.duration_ms)));
        fields.push(field("duration_source", optional_text_json(&self.duration_source)));
        proof {
            assert(crate::model::seq(fields@) =~= self@.json()->Object_0);
        }
        Json::object(fields)
    }
}

impl QueueEntryDto {
    pub fn to_json(&self) -> (value: Json)
        ensures
            value@ == self@.json(),
    {
        let mut fields: Vec<Field> = Vec::new();
        fields.push(field("id", Json::Number(self.id)));
        fields.push(field("media", text_json(self.media.to_text().as_str())));
        fields.push(field("source", self.source.to_json()));
        fields.push(field("display", self.display.to_json()));
        proof {
            assert(crate::model::seq(fields@) =~= self@.json()->Object_0);
        }
        Json::object(fields)
    }
}

impl PlaylistDto {
    pub fn to_json(&self) -> (value: Json)
        ensures
            value@ == self@.json(),
    {
        let ghost all = self@.entries.map_values(|entry: EntryDtoView| entry.json());
        let mut entries: Vec<Json> = Vec::new();
        let mut at: usize = 0;
        while at < self.entries.len()
            invariant
                at <= self.entries@.len(),
                all == self@.entries.map_values(|entry: EntryDtoView| entry.json()),
                crate::model::seq(entries@) == all.take(at as int),
            decreases self.entries@.len() - at,
        {
            entries.push(self.entries[at].to_json());
            proof {
                assert(all.take(at + 1) =~= all.take(at as int).push(
                    self.entries@[at as int]@.json(),
                ));
            }
            at += 1;
        }
        proof {
            assert(all.take(at as int) =~= all);
        }
        let shuffle = match self.shuffle {
            Some(shuffle) => {
                let mut fields: Vec<Field> = Vec::new();
                fields.push(field("seed", Json::Number(shuffle.seed)));
                fields.push(field("first", optional_number_json(shuffle.first)));
                proof {
                    assert(crate::model::seq(fields@) =~= shuffle.json()->Object_0);
                }
                Json::object(fields)
            },
            None => Json::Null,
        };
        let mut fields: Vec<Field> = Vec::new();
        fields.push(field("id", Json::Number(self.id)));
        fields.push(field("name", text_json(self.name.as_str())));
        fields.push(field("shuffle", shuffle));
        fields.push(field("entries", Json::array(entries)));
        fields.push(field("active_entry", optional_number_json(self.active_entry)));
        proof {
            assert(crate::model::seq(fields@) =~= self@.json()->Object_0);
        }
        Json::object(fields)
    }
}

// ------------------------------------------------------------- JSON, in

/// A text that may be absent or null; nothing where it is something else.
pub open spec fn optional_text_in(value: Option<JsonView>) -> Option<Option<Seq<char>>> {
    match value {
        None => Some(None),
        Some(JsonView::Null) => Some(None),
        Some(JsonView::Text(text)) => Some(Some(text)),
        Some(_) => None,
    }
}

/// A number that may be absent or null; nothing where it is something else.
pub open spec fn optional_number_in(value: Option<JsonView>) -> Option<Option<u64>> {
    match value {
        None => Some(None),
        Some(JsonView::Null) => Some(None),
        Some(JsonView::Number(number)) => Some(Some(number)),
        Some(_) => None,
    }
}

/// A text that must be there.
pub open spec fn text_in(value: Option<JsonView>) -> Option<Seq<char>> {
    match value {
        Some(JsonView::Text(text)) => Some(text),
        _ => None,
    }
}

impl SourceDtoView {
    /// A source is tagged by its `kind`, with one part beside it.
    pub open spec fn read(value: JsonView) -> Option<SourceDtoView> {
        if !value.is_record(2) {
            None
        } else if text_in(value.part("kind"@, 0)) == Some("local"@) {
            match text_in(value.part("path"@, 1)) {
                Some(path) => Some(SourceDtoView::Local { path }),
                None => None,
            }
        } else if text_in(value.part("kind"@, 0)) == Some("remote"@) {
            match text_in(value.part("url"@, 1)) {
                Some(url) => Some(SourceDtoView::Remote { url }),
                None => None,
            }
        } else if text_in(value.part("kind"@, 0)) == Some("podcast"@) {
            match text_in(value.part("fallback_url"@, 1)) {
                Some(fallback_url) => Some(SourceDtoView::Podcast { fallback_url }),
                None => None,
            }
        } else {
            None
        }
    }
}

impl DisplayDtoView {
    pub open spec fn blank() -> DisplayDtoView {
        DisplayDtoView {
            title: None,
            artist: None,
            album: None,
            year: None,
            duration_ms: None,
            duration_source: None,
        }
    }

    pub open spec fn read(value: JsonView) -> Option<DisplayDtoView> {
        match (
            optional_text_in(value.part("title"@, 0)),
            optional_text_in(value.part("artist"@, 1)),
            optional_text_in(value.part("album"@, 2)),
            optional_text_in(value.part("year"@, 3)),
            optional_number_in(value.part("duration_ms"@, 4)),
            optional_text_in(value.part("duration_source"@, 5)),
        ) {
            (
                Some(title),
                Some(artist),
                Some(album),
                Some(year),
                Some(duration_ms),
                Some(duration_source),
            ) => if value.is_record(6) {
                Some(
                    DisplayDtoView { title, artist, album, year, duration_ms, duration_source },
                )
            } else {
                None
            },
            _ => None,
        }
    }
}

impl EntryDtoView {
    pub open spec fn read(value: JsonView) -> Option<EntryDtoView> {
        let id = crate::json::number_in(value.part("id"@, 0));
        let media = match text_in(value.part("media"@, 1)) {
            Some(text) => MediaKey::from_text(text),
            None => None,
        };
        let source = match value.part("source"@, 2) {
            Some(source) => SourceDtoView::read(source),
            None => None,
        };
        let display = match value.part("display"@, 3) {
            Some(display) => DisplayDtoView::read(display),
            None => Some(DisplayDtoView::blank()),
        };
        match (id, media, source, display) {
            (Some(id), Some(media), Some(source), Some(display)) => if value.is_record(4) {
                Some(EntryDtoView { id, media, source, display })
            } else {
                None
            },
            _ => None,
        }
    }
}

fn read_optional_text(value: Option<&Json>) -> (text: Option<Option<String>>)
    ensures
        match text {
            Some(text) => optional_text_in(crate::model::opt(value)) == Some(
                crate::model::opt(text),
            ),
            None => optional_text_in(crate::model::opt(value)) is None,
        },
{
    match value {
        None => Some(None),
        Some(Json::Null) => Some(None),
        Some(Json::Text(text)) => Some(Some(text.clone())),
        Some(_) => None,
    }
}

fn read_optional_number(value: Option<&Json>) -> (number: Option<Option<u64>>)
    ensures
        number == optional_number_in(crate::model::opt(value)),
{
    match value {
        None => Some(None),
        Some(Json::Null) => Some(None),
        Some(Json::Number(number)) => Some(Some(*number)),
        Some(_) => None,
    }
}

fn read_text(value: Option<&Json>) -> (text: Option<&str>)
    ensures
        crate::model::opt(text) == text_in(crate::model::opt(value)),
{
    match value {
        Some(value) => value.text(),
        None => None,
    }
}

impl SourceDto {
    pub fn read(value: &Json) -> (source: Option<Self>)
        ensures
            crate::model::opt(source) == SourceDtoView::read(value@),
    {
        if !value.is_record(2) {
            return None;
        }
        let kind = match read_text(value.part("kind", 0)) {
            Some(kind) => kind,
            None => return None,
        };
        if same_text(kind, "local") {
            match read_text(value.part("path", 1)) {
                Some(path) => Some(SourceDto::Local { path: path.to_owned() }),
                None => None,
            }
        } else if same_text(kind, "remote") {
            match read_text(value.part("url", 1)) {
                Some(url) => Some(SourceDto::Remote { url: url.to_owned() }),
                None => None,
            }
        } else if same_text(kind, "podcast") {
            match read_text(value.part("fallback_url", 1)) {
                Some(url) => Some(SourceDto::Podcast { fallback_url: url.to_owned() }),
                None => None,
            }
        } else {
            None
        }
    }
}

impl DisplayDto {
    fn blank() -> (display: Self)
        ensures
            display@ == DisplayDtoView::blank(),
    {
        DisplayDto {
            title: None,
            artist: None,
            album: None,
            year: None,
            duration_ms: None,
            duration_source: None,
        }
    }

    pub fn read(value: &Json) -> (display: Option<Self>)
        ensures
            crate::model::opt(display) == DisplayDtoView::read(value@),
    {
        if !value.is_record(6) {
            return None;
        }
        let title = match read_optional_text(value.part("title", 0)) {
            Some(title) => title,
            None => return None,
        };
        let artist = match read_optional_text(value.part("artist", 1)) {
            Some(artist) => artist,
            None => return None,
        };
        let album = match read_optional_text(value.part("album", 2)) {
            Some(album) => album,
            None => return None,
        };
        let year = match read_optional_text(value.part("year", 3)) {
            Some(year) => year,
            None => return None,
        };
        let duration_ms = match read_optional_number(value.part("duration_ms", 4)) {
            Some(duration_ms) => duration_ms,
            None => return None,
        };
        let duration_source = match read_optional_text(value.part("duration_source", 5)) {
            Some(duration_source) => duration_source,
            None => return None,
        };
        Some(DisplayDto { title, artist, album, year, duration_ms, duration_source })
    }
}

impl QueueEntryDto {
    pub fn read(value: &Json) -> (entry: Option<Self>)
        ensures
            crate::model::opt(entry) == EntryDtoView::read(value@),
            entry matches Some(entry) ==> (entry@.media.steady() ==> entry@.media.valid()),
    {
        if !value.is_record(4) {
            return None;
        }
        let id: u64 = match number_of(value.part("id", 0)) {
            Some(id) => id,
            None => return None,
        };
        let media = match read_text(value.part("media", 1)) {
            Some(text) => match MediaId::parse(text) {
                Ok(media) => media,
                Err(_) => return None,
            },
            None => return None,
        };
        let source = match value.part("source", 2) {
            Some(source) => match SourceDto::read(source) {
                Some(source) => source,
                None => return None,
            },
            None => return None,
        };
        let display = match value.part("display", 3) {
            Some(display) => match DisplayDto::read(display) {
                Some(display) => display,
                None => return None,
            },
            None => DisplayDto::blank(),
        };
        Some(QueueEntryDto { id, media, source, display })
    }
}

// -------------------------------------------------------------- entries

impl SourceDtoView {
    /// The source that was saved; nothing where its path or URL is none.
    pub open spec fn source(self) -> Option<SourceView> {
        match self {
            SourceDtoView::Local { path } => if crate::media::is_absolute(path) {
                Some(SourceView::LocalFile(path))
            } else {
                None
            },
            SourceDtoView::Remote { url } => match crate::media::url_read(url) {
                Some(read) => if crate::media::is_web(read) {
                    Some(SourceView::RemoteUrl(read.text))
                } else {
                    None
                },
                None => None,
            },
            SourceDtoView::Podcast { fallback_url } => match crate::media::url_read(fallback_url) {
                Some(read) => Some(SourceView::Podcast { fallback: read.text }),
                None => None,
            },
        }
    }
}

impl DisplayDtoView {
    /// The duration that was saved: only with a label that is known.
    pub open spec fn duration(self) -> Option<DisplayDuration> {
        match (self.duration_ms, self.duration_source) {
            (Some(millis), Some(label)) => {
                let value = Duration {
                    nanos: (millis * crate::clock::NANOS_PER_MILLI) as u128,
                };
                if label == "decoded"@ {
                    Some(
                        DisplayDuration {
                            value,
                            source: DurationSource::Decoded(PositionProvenance::Established),
                        },
                    )
                } else if label == "decoded_estimated"@ {
                    Some(
                        DisplayDuration {
                            value,
                            source: DurationSource::Decoded(PositionProvenance::Estimated),
                        },
                    )
                } else if label == "declared"@ {
                    Some(DisplayDuration { value, source: DurationSource::Declared })
                } else {
                    None
                }
            },
            _ => None,
        }
    }

    pub open spec fn display(self) -> DisplayView {
        DisplayView {
            title: self.title,
            artist: self.artist,
            album: self.album,
            year: self.year,
            duration: self.duration(),
        }
    }
}

impl EntryDtoView {
    /// The entry that was saved, or why there is none: its source is none, or
    /// is one for another media.
    pub open spec fn entry(self) -> Result<EntryView, QueueProblem> {
        match self.source.source() {
            Some(source) => if source.serves(self.media) {
                Ok(
                    EntryView {
                        id: QueueEntryId { raw: self.id },
                        media: self.media,
                        source,
                        display: self.display.display(),
                    },
                )
            } else {
                Err(QueueProblem::SourceMismatch)
            },
            None => Err(QueueProblem::Malformed),
        }
    }
}

fn source_from_dto(dto: SourceDto) -> (source: Option<QueueSource>)
    ensures
        crate::model::opt(source) == dto@.source(),
        source matches Some(source) ==> (source@.steady() ==> source@.valid()),
{
    match dto {
        SourceDto::Local { path } => match AbsolutePath::new(path) {
            Ok(path) => Some(QueueSource::LocalFile(path)),
            Err(_) => None,
        },
        SourceDto::Remote { url } => match NormalizedUrl::parse(url.as_str()) {
            Ok(url) => Some(QueueSource::RemoteUrl(url)),
            Err(_) => None,
        },
        SourceDto::Podcast { fallback_url } => match Url::parse(fallback_url.as_str()) {
            Ok(url) => Some(QueueSource::Podcast { fallback: url }),
            Err(_) => None,
        },
    }
}

fn duration_from_dto(millis: Option<u64>, label: Option<&str>) -> (duration: Option<
    DisplayDuration,
>)
    ensures
        duration == (DisplayDtoView {
            duration_ms: millis,
            duration_source: crate::model::opt(label),
            ..DisplayDtoView::blank()
        }).duration(),
{
    match (millis, label) {
        (Some(millis), Some(label)) => {
            let value = Duration::from_millis(millis);
            if same_text(label, "decoded") {
                Some(
                    DisplayDuration {
                        value,
                        source: DurationSource::Decoded(PositionProvenance::Established),
                    },
                )
            } else if same_text(label, "decoded_estimated") {
                Some(
                    DisplayDuration {
                        value,
                        source: DurationSource::Decoded(PositionProvenance::Estimated),
                    },
                )
            } else if same_text(label, "declared") {
                Some(DisplayDuration { value, source: DurationSource::Declared })
            } else {
                None
            }
        },
        _ => None,
    }
}

/// Builds the entry that was saved. A source that does not construct is
/// malformed; one for another media is a mismatch; a duration under an unknown
/// label is dropped, never the entry.
pub fn entry_from_dto(dto: QueueEntryDto) -> (entry: Result<QueueEntry, QueueProblem>)
    ensures
        match entry {
            Ok(entry) => dto@.entry() == Ok::<EntryView, QueueProblem>(entry@) && (
            entry@.source.steady() ==> entry@.source.valid()),
            Err(problem) => dto@.entry() == Err::<EntryView, QueueProblem>(problem),
        },
{
    let QueueEntryDto { id, media, source, display } = dto;
    let source = match source_from_dto(source) {
        Some(source) => source,
        None => return Err(QueueProblem::Malformed),
    };
    if !source_matches(&media, &source) {
        return Err(QueueProblem::SourceMismatch);
    }
    let label = match &display.duration_source {
        Some(label) => Some(label.as_str()),
        None => None,
    };
    let duration = duration_from_dto(display.duration_ms, label);
    let DisplayDto { title, artist, album, year, .. } = display;
    let display = DisplayMetadata { title, artist, album, year, duration };
    Ok(QueueEntry::from_parts(QueueEntryId::from_raw(id), media, source, display))
}

/// The saved entries that an array holds; nothing where an item is none.
pub open spec fn dtos_in(items: Seq<JsonView>) -> Option<Seq<EntryDtoView>> {
    if forall|i: int| 0 <= i < items.len() ==> EntryDtoView::read(#[trigger] items[i]) is Some {
        Some(items.map_values(|item: JsonView| EntryDtoView::read(item).unwrap()))
    } else {
        None
    }
}

pub open spec fn distinct_ids(dtos: Seq<EntryDtoView>) -> bool {
    forall|i: int, j: int|
        0 <= i < j < dtos.len() ==> #[trigger] dtos[i].id != #[trigger] dtos[j].id
}

/// Holding no entry.
pub open spec fn is_broken() -> spec_fn(EntryDtoView) -> bool {
    |dto: EntryDtoView| dto.entry() is Err
}

/// The entries that an array holds, or the one problem that costs them all: an
/// item that is none, then an identity that occurs twice, then the first
/// entry that cannot be built.
pub open spec fn entries_of(items: Seq<JsonView>) -> Result<Seq<EntryView>, QueueProblem> {
    match dtos_in(items) {
        None => Err(QueueProblem::Malformed),
        Some(dtos) => if !distinct_ids(dtos) {
            Err(QueueProblem::DuplicateIds)
        } else {
            match crate::model::position(dtos, is_broken(), 0) {
                Some(at) => Err(dtos[at].entry()->Err_0),
                None => Ok(dtos.map_values(|dto: EntryDtoView| dto.entry()->Ok_0)),
            }
        },
    }
}

/// Adds a number to a set. Says whether it was new there.
pub(crate) fn insert_new(seen: &mut BTreeSet<u64>, id: u64) -> (new: bool)
    ensures
        final(seen)@ == old(seen)@.insert(id),
        new == !old(seen)@.contains(id),
{
    seen.insert(id)
}

fn decode_dtos(items: &Vec<Json>) -> (dtos: Option<Vec<QueueEntryDto>>)
    ensures
        match dtos {
            Some(dtos) => dtos_in(crate::model::seq(items@)) == Some(crate::model::seq(dtos@))
                && forall|i: int|
                0 <= i < dtos@.len() && (#[trigger] dtos@[i])@.media.steady()
                    ==> dtos@[i]@.media.valid(),
            None => dtos_in(crate::model::seq(items@)) is None,
        },
{
    let ghost values = crate::model::seq(items@);
    let mut dtos: Vec<QueueEntryDto> = Vec::new();
    let mut at: usize = 0;
    while at < items.len()
        invariant
            at <= items@.len(),
            values == crate::model::seq(items@),
            dtos@.len() == at,
            forall|i: int|
                0 <= i < at ==> EntryDtoView::read(#[trigger] values[i]) == Some(dtos@[i]@),
            forall|i: int|
                0 <= i < at && (#[trigger] dtos@[i])@.media.steady() ==> dtos@[i]@.media.valid(),
        decreases items@.len() - at,
    {
        assert(values[at as int] == items@[at as int]@);
        match QueueEntryDto::read(&items[at]) {
            Some(dto) => dtos.push(dto),
            None => {
                assert(EntryDtoView::read(values[at as int]) is None);
                return None;
            },
        }
        at += 1;
    }
    proof {
        assert(crate::model::seq(dtos@) =~= values.map_values(
            |item: JsonView| EntryDtoView::read(item).unwrap(),
        ));
    }
    Some(dtos)
}

fn distinct_dtos(dtos: &Vec<QueueEntryDto>) -> (distinct: bool)
    ensures
        distinct == distinct_ids(crate::model::seq(dtos@)),
{
    let ghost views = crate::model::seq(dtos@);
    let mut seen: BTreeSet<u64> = BTreeSet::new();
    let mut at: usize = 0;
    while at < dtos.len()
        invariant
            at <= dtos@.len(),
            views == crate::model::seq(dtos@),
            forall|id: u64| seen@.contains(id) ==> exists|i: int|
                0 <= i < at && (#[trigger] views[i]).id == id,
            forall|i: int| 0 <= i < at ==> seen@.contains((#[trigger] views[i]).id),
            forall|i: int, j: int|
                0 <= i < j < at ==> #[trigger] views[i].id != #[trigger] views[j].id,
        decreases dtos@.len() - at,
    {
        assert(views[at as int] == dtos@[at as int]@);
        if !insert_new(&mut seen, dtos[at].id) {
            proof {
                let i = choose|i: int|
                    0 <= i < at && (#[trigger] views[i]).id == views[at as int].id;
                assert(views[i].id == views[at as int].id);
            }
            return false;
        }
        at += 1;
    }
    true
}

pub fn decode_entries(items: &Vec<Json>) -> (entries: Result<Vec<QueueEntry>, QueueProblem>)
    ensures
        match entries {
            Ok(entries) => entries_of(crate::model::seq(items@)) == Ok::<
                Seq<EntryView>,
                QueueProblem,
            >(crate::model::seq(entries@)) && forall|i: int|
                0 <= i < entries@.len() && (#[trigger] entries@[i])@.source.steady() ==> sound(
                    entries@[i]@,
                ),
            Err(problem) => entries_of(crate::model::seq(items@)) == Err::<
                Seq<EntryView>,
                QueueProblem,
            >(problem),
        },
{
    let dtos = match decode_dtos(items) {
        Some(dtos) => dtos,
        None => return Err(QueueProblem::Malformed),
    };
    if !distinct_dtos(&dtos) {
        return Err(QueueProblem::DuplicateIds);
    }
    let ghost views = crate::model::seq(dtos@);
    let ghost all = dtos@;
    let mut entries: Vec<QueueEntry> = Vec::new();
    let ghost mut at: int = 0;
    for dto in it: dtos
        invariant
            it.seq() == all,
            at == it.index(),
            views == crate::model::seq(all),
            dtos_in(crate::model::seq(items@)) == Some(views),
            distinct_ids(views),
            entries@.len() == at,
            forall|i: int|
                0 <= i < all.len() && (#[trigger] all[i])@.media.steady() ==> all[i]@.media.valid(),
            forall|i: int|
                0 <= i < at ==> (#[trigger] views[i]).entry() == Ok::<EntryView, QueueProblem>(
                    entries@[i]@,
                ),
            forall|i: int|
                0 <= i < at && (#[trigger] entries@[i])@.source.steady() ==> sound(entries@[i]@),
            crate::model::position(views, is_broken(), 0) == crate::model::position(
                views,
                is_broken(),
                at,
            ),
    {
        assert(views[at] == dto@);
        assert(all[at] == dto);
        match entry_from_dto(dto) {
            Ok(entry) => entries.push(entry),
            Err(problem) => return Err(problem),
        }
        proof {
            at = at + 1;
        }
    }
    proof {
        assert(crate::model::seq(entries@) =~= views.map_values(
            |dto: EntryDtoView| dto.entry()->Ok_0,
        ));
    }
    Ok(entries)
}

/// Whether an entry is one that can be saved and read back as it is.
pub open spec fn sound(entry: EntryView) -> bool {
    entry.media.valid() && entry.source.valid() && entry.source.serves(entry.media)
}

} // verus!
