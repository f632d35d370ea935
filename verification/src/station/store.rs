//! The list of saved stations: what a file of them must hold, and what is read
//! and written of it. There is no cap: a station is never dropped to respect a
//! limit.

use crate::clock::WallTime;
use crate::media::{MediaId, MediaKey, NormalizedUrl, Url};
use crate::persistence::store::{LoadReason, ParseFault};
use crate::station::model::{validate_station_slug, IdentityView, Station, StationIdentity,
    StationView};
use crate::text::{push_decimal, push_text, same_text};
use vstd::prelude::*;

verus! {

broadcast use crate::model::group_model;

/// The only version that is written or accepted.
pub const SCHEMA_VERSION: u32 = 1;

/// One record of the file, before it is validated.
#[derive(Debug, PartialEq, Eq)]
pub struct StationRecord {
    pub slug: String,
    pub url: Url,
    /// The media in its text form.
    pub media: String,
    pub identity: Option<StationIdentity>,
    pub added_at: WallTime,
    pub probed_at: Option<WallTime>,
}

#[verifier::ext_equal]
pub struct RecordView {
    pub slug: Seq<char>,
    pub url: Seq<char>,
    pub media: Seq<char>,
    pub identity: Option<IdentityView>,
    pub added_at: WallTime,
    pub probed_at: Option<WallTime>,
}

impl View for StationRecord {
    type V = RecordView;

    open spec fn view(&self) -> RecordView {
        RecordView {
            slug: self.slug@,
            url: self.url@,
            media: self.media@,
            identity: crate::model::opt(self.identity),
            added_at: self.added_at,
            probed_at: self.probed_at,
        }
    }
}

/// The station list of a file.
#[derive(Debug, PartialEq, Eq)]
pub struct StationSnapshot {
    pub stations: Vec<Station>,
}

impl View for StationSnapshot {
    type V = Seq<StationView>;

    open spec fn view(&self) -> Seq<StationView> {
        crate::model::seq(self.stations@)
    }
}

#[derive(Debug, PartialEq, Eq)]
pub struct StationLoad {
    pub snapshot: StationSnapshot,
    pub writable: bool,
    pub reason: LoadReason,
}

/// Why a file of stations is not accepted. A reason never quotes the file.
#[derive(Debug, PartialEq, Eq)]
pub enum DecodeError {
    Malformed(String),
    UnsupportedVersion(u32),
}

#[verifier::ext_equal]
pub enum DecodeFault {
    Malformed(Seq<char>),
    UnsupportedVersion(u32),
}

impl View for DecodeError {
    type V = DecodeFault;

    open spec fn view(&self) -> DecodeFault {
        match *self {
            DecodeError::Malformed(reason) => DecodeFault::Malformed(reason@),
            DecodeError::UnsupportedVersion(found) => DecodeFault::UnsupportedVersion(found),
        }
    }
}

// ----------------------------------------------------------------- the model

/// The web address that a URL is read as.
pub open spec fn web_address(url: Seq<char>) -> Option<Seq<char>> {
    match crate::media::url_read(url) {
        Some(read) => if crate::media::is_web(read) {
            Some(read.text)
        } else {
            None
        },
        None => None,
    }
}

/// Whether one of the first `count` records has this slug.
pub open spec fn slug_used(records: Seq<RecordView>, count: int, slug: Seq<char>) -> bool {
    exists|i: int| 0 <= i < count && (#[trigger] records[i]).slug == slug
}

/// What is wrong with a record, given those before it: its slug, its address,
/// its media, or that the media is not the address.
pub open spec fn record_fault(records: Seq<RecordView>, at: int) -> Option<Seq<char>> {
    let record = records[at];
    if !crate::station::model::is_slug(record.slug) {
        Some("a slug is not valid"@)
    } else if slug_used(records, at, record.slug) {
        Some("a slug is used by more than one station"@)
    } else if web_address(record.url) is None {
        Some("a url is not http(s)"@)
    } else {
        match MediaKey::from_text(record.media) {
            None => Some("a media identifier is not valid"@),
            Some(media) => if media != MediaKey::RemoteUrl(web_address(record.url).unwrap()) {
                Some("a media identifier does not match its url"@)
            } else {
                None
            },
        }
    }
}

/// What is wrong with the first record that is not valid.
pub open spec fn records_fault(records: Seq<RecordView>, from: int) -> Option<Seq<char>>
    decreases records.len() - from,
{
    if from >= records.len() {
        None
    } else if record_fault(records, from) is Some {
        record_fault(records, from)
    } else {
        records_fault(records, from + 1)
    }
}

impl RecordView {
    /// The station that a valid record stands for.
    pub open spec fn station(self) -> StationView {
        StationView {
            slug: self.slug,
            url: self.url,
            media: MediaKey::RemoteUrl(web_address(self.url).unwrap()),
            identity: self.identity,
            added_at: self.added_at,
            probed_at: self.probed_at,
        }
    }
}

impl StationView {
    /// What is written of a station.
    pub open spec fn record(self) -> RecordView {
        RecordView {
            slug: self.slug,
            url: self.url,
            media: self.media.text(),
            identity: self.identity,
            added_at: self.added_at,
            probed_at: self.probed_at,
        }
    }

    /// Whether the station is one that was read: a slug, and the media that
    /// its address is.
    pub open spec fn valid(self) -> bool {
        &&& crate::station::model::is_slug(self.slug)
        &&& web_address(self.url) matches Some(address)
        &&& self.media == MediaKey::RemoteUrl(address)
        &&& crate::media::is_normalized(address)
    }
}

/// The stations of valid records.
pub open spec fn stations_of(records: Seq<RecordView>) -> Seq<StationView> {
    records.map_values(|record: RecordView| record.station())
}

/// What is written of stations.
pub open spec fn records_of(stations: Seq<StationView>) -> Seq<RecordView> {
    stations.map_values(|station: StationView| station.record())
}

/// What records come to: stations, or what is wrong.
pub open spec fn validated(records: Seq<RecordView>) -> Result<Seq<StationView>, DecodeFault> {
    match records_fault(records, 0) {
        Some(reason) => Err(DecodeFault::Malformed(reason)),
        None => Ok(stations_of(records)),
    }
}

/// The view of what was made of records.
pub open spec fn made(result: Result<Vec<Station>, DecodeError>) -> Result<
    Seq<StationView>,
    DecodeFault,
> {
    match result {
        Ok(stations) => Ok(crate::model::seq(stations@)),
        Err(error) => Err(error@),
    }
}

// ----------------------------------------------------------------- execution

/// The station that a record stands for, if nothing is wrong with it. `before`
/// are those of the records in front of it.
fn validate_record(before: &Vec<Station>, record: StationRecord) -> (station: Result<
    Station,
    DecodeError,
>)
    ensures
        ({
            let records = Seq::new(
                before@.len(),
                |i: int| RecordView { slug: before@[i].slug@, ..record@ },
            ).push(record@);
            match (station, record_fault(records, before@.len() as int)) {
                (Ok(station), None) => station@ == record@.station(),
                (Err(error), Some(reason)) => error@ == DecodeFault::Malformed(reason),
                _ => false,
            }
        }),
{
    let ghost records = Seq::new(
        before@.len(),
        |i: int| RecordView { slug: before@[i].slug@, ..record@ },
    ).push(record@);
    if !validate_station_slug(record.slug.as_str()) {
        return Err(DecodeError::Malformed("a slug is not valid".to_owned()));
    }
    let mut at: usize = 0;
    while at < before.len()
        invariant
            at <= before@.len(),
            records == Seq::new(
                before@.len(),
                |i: int| RecordView { slug: before@[i].slug@, ..record@ },
            ).push(record@),
            crate::station::model::is_slug(record@.slug),
            forall|i: int| 0 <= i < at ==> (#[trigger] records[i]).slug != record@.slug,
        decreases before@.len() - at,
    {
        assert(records[at as int].slug == before@[at as int].slug@);
        if same_text(before[at].slug.as_str(), record.slug.as_str()) {
            assert(slug_used(records, before@.len() as int, record@.slug));
            return Err(
                DecodeError::Malformed("a slug is used by more than one station".to_owned()),
            );
        }
        at += 1;
    }
    assert(!slug_used(records, before@.len() as int, record@.slug));
    let normalized = match NormalizedUrl::parse(record.url.as_str()) {
        Ok(normalized) => normalized,
        Err(_) => return Err(DecodeError::Malformed("a url is not http(s)".to_owned())),
    };
    let media = match MediaId::parse(record.media.as_str()) {
        Ok(media) => media,
        Err(_) => return Err(
            DecodeError::Malformed("a media identifier is not valid".to_owned()),
        ),
    };
    if !media.same(&MediaId::RemoteUrl(normalized)) {
        return Err(
            DecodeError::Malformed("a media identifier does not match its url".to_owned()),
        );
    }
    Ok(
        Station {
            slug: record.slug,
            url: record.url,
            media,
            identity: record.identity,
            added_at: record.added_at,
            probed_at: record.probed_at,
        },
    )
}

/// A fault depends on the slugs in front of a record and on the record.
proof fn same_slugs_same_fault(a: Seq<RecordView>, b: Seq<RecordView>, at: int)
    requires
        0 <= at < a.len(),
        at < b.len(),
        a[at] == b[at],
        forall|i: int| 0 <= i < at ==> #[trigger] a[i].slug == #[trigger] b[i].slug,
    ensures
        record_fault(a, at) == record_fault(b, at),
{
    let slug = a[at].slug;
    if slug_used(a, at, slug) {
        let i = choose|i: int| 0 <= i < at && (#[trigger] a[i]).slug == slug;
        assert(b[i].slug == slug);
    }
    if slug_used(b, at, slug) {
        let i = choose|i: int| 0 <= i < at && (#[trigger] b[i]).slug == slug;
        assert(a[i].slug == slug);
    }
}

/// Every slug is valid and used once, every address is a web address, and every
/// media is the address. One violation makes the whole file malformed.
pub fn validate_records(records: Vec<StationRecord>) -> (validated: Result<
    Vec<Station>,
    DecodeError,
>)
    ensures
        made(validated) == self::validated(crate::model::seq(records@)),
{
    let ghost all = crate::model::seq(records@);
    let ghost given = records@;
    let mut stations: Vec<Station> = Vec::new();
    for record in it: records
        invariant
            it.seq() == given,
            all == crate::model::seq(given),
            stations@.len() == it.index(),
            crate::model::seq(stations@) == stations_of(all).take(it.index() as int),
            records_fault(all, 0) == records_fault(all, it.index() as int),
            forall|i: int|
                0 <= i < it.index() ==> (#[trigger] stations@[i]).slug@ == all[i].slug,
    {
        let ghost at = it.index() as int;
        assert(all[at] == given[at]@);
        assert(record == given[at]);
        let ghost seen = Seq::new(
            stations@.len(),
            |i: int| RecordView { slug: stations@[i].slug@, ..record@ },
        ).push(record@);
        proof {
            assert forall|i: int| 0 <= i < at implies #[trigger] seen[i].slug
                == #[trigger] all[i].slug by {
                assert(stations@[i].slug@ == all[i].slug);
            }
            same_slugs_same_fault(seen, all, at);
        }
        match validate_record(&stations, record) {
            Ok(station) => {
                let ghost before = stations@;
                stations.push(station);
                proof {
                    assert(stations@[at].slug@ == all[at].slug);
                    assert(crate::model::seq(stations@) =~= stations_of(all).take(at + 1));
                }
            },
            Err(error) => return Err(error),
        }
    }
    proof {
        assert(stations_of(all).take(all.len() as int) =~= stations_of(all));
    }
    Ok(stations)
}

/// `stations file is malformed (data error at line 3, column 5)`.
pub open spec fn fault_text(source: ParseFault) -> Seq<char> {
    "stations file is malformed ("@ + source.category.text() + " error at line "@
        + crate::text::decimal(source.line as nat) + ", column "@ + crate::text::decimal(
        source.column as nat,
    ) + ")"@
}

/// The fault as an error: its category and place.
pub fn malformed(source: ParseFault) -> (error: DecodeError)
    ensures
        error@ == DecodeFault::Malformed(fault_text(source)),
{
    let mut reason = "stations file is malformed (".to_owned();
    push_text(&mut reason, source.category.name());
    push_text(&mut reason, " error at line ");
    push_decimal(&mut reason, source.line as u64);
    push_text(&mut reason, ", column ");
    push_decimal(&mut reason, source.column as u64);
    push_text(&mut reason, ")");
    DecodeError::Malformed(reason)
}

/// The stations of a file. The version is looked at first; `version` and
/// `records` are what a parser made of the bytes.
pub fn decode_stations(
    version: Result<u32, ParseFault>,
    records: Result<Vec<StationRecord>, ParseFault>,
) -> (decoded: Result<StationSnapshot, DecodeError>)
    ensures
        ({
            let found: Result<Seq<StationView>, DecodeFault> = match version {
                Err(fault) => Err(DecodeFault::Malformed(fault_text(fault))),
                Ok(version) => if version != SCHEMA_VERSION {
                    Err(DecodeFault::UnsupportedVersion(version))
                } else {
                    match records {
                        Err(fault) => Err(DecodeFault::Malformed(fault_text(fault))),
                        Ok(records) => self::validated(crate::model::seq(records@)),
                    }
                },
            };
            match decoded {
                Ok(snapshot) => found == Ok::<_, DecodeFault>(snapshot@),
                Err(error) => found == Err::<Seq<StationView>, _>(error@),
            }
        }),
{
    let version: u32 = match version {
        Ok(version) => version,
        Err(fault) => return Err(malformed(fault)),
    };
    if version != SCHEMA_VERSION {
        return Err(DecodeError::UnsupportedVersion(version));
    }
    let records = match records {
        Ok(records) => records,
        Err(fault) => return Err(malformed(fault)),
    };
    match validate_records(records) {
        Ok(stations) => Ok(StationSnapshot { stations }),
        Err(error) => Err(error),
    }
}

/// What is written of a station.
pub fn to_record(station: &Station) -> (record: StationRecord)
    ensures
        record@ == station@.record(),
{
    StationRecord {
        slug: station.slug.clone(),
        url: station.url.clone(),
        media: station.media.to_text(),
        identity: match &station.identity {
            Some(identity) => Some(identity.clone()),
            None => None,
        },
        added_at: station.added_at,
        probed_at: station.probed_at,
    }
}

fn to_records(stations: &Vec<Station>) -> (records: Vec<StationRecord>)
    ensures
        crate::model::seq(records@) == records_of(crate::model::seq(stations@)),
{
    let ghost all = records_of(crate::model::seq(stations@));
    let mut records: Vec<StationRecord> = Vec::new();
    let mut at: usize = 0;
    while at < stations.len()
        invariant
            at <= stations@.len(),
            all == records_of(crate::model::seq(stations@)),
            crate::model::seq(records@) == all.take(at as int),
        decreases stations@.len() - at,
    {
        assert(crate::model::seq(stations@)[at as int] == stations@[at as int]@);
        records.push(to_record(&stations[at]));
        at += 1;
        proof {
            assert(crate::model::seq(records@) =~= all.take(at as int));
        }
    }
    proof {
        assert(all.take(at as int) =~= all);
    }
    records
}

impl StationSnapshot {
    /// What is to be written of the list, which is held to exactly what a file
    /// that is read is held to.
    pub fn to_file(&self) -> (records: Result<Vec<StationRecord>, DecodeError>)
        ensures
            match records {
                Ok(records) => crate::model::seq(records@) == records_of(self@)
                    && self::validated(records_of(self@)) is Ok,
                Err(error) => self::validated(records_of(self@)) == Err::<Seq<StationView>, _>(
                    error@,
                ),
            },
    {
        match validate_records(to_records(&self.stations)) {
            Ok(_) => Ok(to_records(&self.stations)),
            Err(error) => Err(error),
        }
    }

    fn find(&self, media: &MediaId) -> (found: Option<usize>)
        ensures
            match found {
                Some(at) => at < self@.len() && self@[at as int].media == media@ && forall|i: int|
                    0 <= i < at ==> (#[trigger] self@[i]).media != media@,
                None => forall|i: int| 0 <= i < self@.len() ==> (#[trigger] self@[i]).media != media@,
            },
    {
        let mut at: usize = 0;
        while at < self.stations.len()
            invariant
                at <= self.stations@.len(),
                forall|i: int| 0 <= i < at ==> (#[trigger] self@[i]).media != media@,
            decreases self.stations@.len() - at,
        {
            assert(self@[at as int] == self.stations@[at as int]@);
            if self.stations[at].media.same(media) {
                return Some(at);
            }
            at += 1;
        }
        None
    }

    /// The logo of the first station for `media`, if it has one.
    pub fn logo_for(&self, media: &MediaId) -> (logo: Option<Url>)
        ensures
            crate::model::opt(logo) == logo_of(self@, media@),
    {
        let ghost wanted = media@;
        proof {
            crate::model::position_is_first(self@, station_is(wanted), 0);
            assert(forall|i: int|
                0 <= i < self@.len() ==> (#[trigger] station_is(wanted)(self@[i])) == (self@[i].media
                    == wanted));
        }
        match self.find(media) {
            Some(at) => {
                assert(self@[at as int] == self.stations@[at as int]@);
                assert(station_is(wanted)(self@[at as int]));
                match &self.stations[at].identity {
                    Some(identity) => match &identity.logo {
                        Some(logo) => Some(logo.clone()),
                        None => None,
                    },
                    None => None,
                }
            },
            None => None,
        }
    }

    /// Whether any station is for `media`, with a logo or without.
    pub fn is_station(&self, media: &MediaId) -> (saved: bool)
        ensures
            saved == claims(self@, media@),
    {
        self.find(media).is_some()
    }
}

/// Being a station for `media`.
pub open spec fn station_is(media: MediaKey) -> spec_fn(StationView) -> bool {
    |station: StationView| station.media == media
}

/// The logo of the first station for `media`.
pub open spec fn logo_of(stations: Seq<StationView>, media: MediaKey) -> Option<Seq<char>> {
    match crate::model::position(stations, station_is(media), 0) {
        Some(at) => match stations[at].identity {
            Some(identity) => identity.logo,
            None => None,
        },
        None => None,
    }
}

// ------------------------------------------------------------------- loading

/// What reading the file came to.
#[derive(Debug)]
pub enum StationsRead {
    Missing,
    /// Why the file that is there could not be read.
    Unreadable(String),
    Decoded(Result<StationSnapshot, DecodeError>),
}

/// What is to be done about what was read.
#[derive(Debug)]
pub enum StationStep {
    Done(StationLoad),
    /// The file is to be moved aside.
    Quarantine,
}

impl StationLoad {
    pub open spec fn is_fresh(self, writable: bool, reason: LoadReason) -> bool {
        self.snapshot@.len() == 0 && self.writable == writable && self.reason == reason
    }

    fn fresh(writable: bool, reason: LoadReason) -> (load: StationLoad)
        ensures
            load.is_fresh(writable, reason),
    {
        StationLoad { snapshot: StationSnapshot { stations: Vec::new() }, writable, reason }
    }
}

/// For a change to the list: garbage is moved aside, and a file that cannot be
/// read or is of another version is kept in place and not written over.
pub fn begin_load(read: StationsRead) -> (step: StationStep)
    ensures
        match read {
            StationsRead::Missing => step matches StationStep::Done(load) && load.is_fresh(
                true,
                LoadReason::Missing,
            ),
            StationsRead::Unreadable(_) => step matches StationStep::Done(load) && load.is_fresh(
                false,
                LoadReason::Unreadable,
            ),
            StationsRead::Decoded(Ok(snapshot)) => step matches StationStep::Done(load)
                && load.snapshot == snapshot && load.writable && load.reason == LoadReason::Loaded,
            StationsRead::Decoded(
                Err(DecodeError::UnsupportedVersion(found)),
            ) => step matches StationStep::Done(load) && load.is_fresh(
                false,
                LoadReason::UnsupportedVersion { found },
            ),
            StationsRead::Decoded(Err(DecodeError::Malformed(_))) => step is Quarantine,
        },
{
    match read {
        StationsRead::Missing => StationStep::Done(StationLoad::fresh(true, LoadReason::Missing)),
        StationsRead::Unreadable(_) => StationStep::Done(
            StationLoad::fresh(false, LoadReason::Unreadable),
        ),
        StationsRead::Decoded(Ok(snapshot)) => StationStep::Done(
            StationLoad { snapshot, writable: true, reason: LoadReason::Loaded },
        ),
        StationsRead::Decoded(Err(DecodeError::UnsupportedVersion(found))) => StationStep::Done(
            StationLoad::fresh(false, LoadReason::UnsupportedVersion { found }),
        ),
        StationsRead::Decoded(Err(DecodeError::Malformed(_))) => StationStep::Quarantine,
    }
}

/// After garbage an empty list is written only where the garbage was moved.
pub fn quarantined(moved_to: Option<String>) -> (load: StationLoad)
    ensures
        match moved_to {
            Some(moved_to) => load.is_fresh(true, LoadReason::Quarantined { moved_to }),
            None => load.is_fresh(false, LoadReason::QuarantineFailed),
        },
{
    match moved_to {
        Some(moved_to) => StationLoad::fresh(true, LoadReason::Quarantined { moved_to }),
        None => StationLoad::fresh(false, LoadReason::QuarantineFailed),
    }
}

/// `stations file is schema version 2, and this build supports 1`.
pub open spec fn version_text(found: u32) -> Seq<char> {
    "stations file is schema version "@ + crate::text::decimal(found as nat)
        + ", and this build supports "@ + crate::text::decimal(SCHEMA_VERSION as nat)
}

/// For a listing: nothing is saved where the file is missing, and anything else
/// that cannot be read is an error with its reason.
pub fn read_snapshot(read: StationsRead) -> (snapshot: Result<StationSnapshot, String>)
    ensures
        match read {
            StationsRead::Missing => snapshot matches Ok(list) && list@.len() == 0,
            StationsRead::Unreadable(error) => snapshot matches Err(reason) && reason@
                == "cannot read stations file: "@ + error@,
            StationsRead::Decoded(Ok(list)) => snapshot == Ok::<_, String>(list),
            StationsRead::Decoded(
                Err(DecodeError::Malformed(why)),
            ) => snapshot matches Err(reason) && reason@ == why@,
            StationsRead::Decoded(
                Err(DecodeError::UnsupportedVersion(found)),
            ) => snapshot matches Err(reason) && reason@ == version_text(found),
        },
{
    match read {
        StationsRead::Missing => Ok(StationSnapshot { stations: Vec::new() }),
        StationsRead::Unreadable(error) => {
            let mut reason = "cannot read stations file: ".to_owned();
            push_text(&mut reason, error.as_str());
            Err(reason)
        },
        StationsRead::Decoded(Ok(snapshot)) => Ok(snapshot),
        StationsRead::Decoded(Err(DecodeError::Malformed(reason))) => Err(reason),
        StationsRead::Decoded(Err(DecodeError::UnsupportedVersion(found))) => {
            let mut reason = "stations file is schema version ".to_owned();
            push_decimal(&mut reason, found as u64);
            push_text(&mut reason, ", and this build supports ");
            push_decimal(&mut reason, SCHEMA_VERSION as u64);
            Err(reason)
        },
    }
}

impl StationsRead {
    /// The list that was read: an empty one where there is no file, and none
    /// where the file cannot be read or is not accepted.
    pub open spec fn list(self) -> Option<Seq<StationView>> {
        match self {
            StationsRead::Missing => Some(Seq::empty()),
            StationsRead::Unreadable(_) => None,
            StationsRead::Decoded(Ok(snapshot)) => Some(snapshot@),
            StationsRead::Decoded(Err(_)) => None,
        }
    }
}

/// Whether one of the stations is for `media`, with a logo or without.
pub open spec fn claims(stations: Seq<StationView>, media: MediaKey) -> bool {
    exists|i: int| 0 <= i < stations.len() && (#[trigger] stations[i]).media == media
}

/// Whether a saved station is for `media`. Without a list that can be read,
/// none is.
pub fn is_station(read: &StationsRead, media: &MediaId) -> (saved: bool)
    ensures
        saved == (read.list() matches Some(stations) && claims(stations, media@)),
{
    match read {
        StationsRead::Decoded(Ok(snapshot)) => snapshot.is_station(media),
        _ => false,
    }
}

/// The logo of the first saved station for `media`, if it has one. Without a
/// list that can be read, there is none.
pub fn logo_for(read: &StationsRead, media: &MediaId) -> (logo: Option<Url>)
    ensures
        crate::model::opt(logo) == match read.list() {
            Some(stations) => logo_of(stations, media@),
            None => None,
        },
{
    match read {
        StationsRead::Decoded(Ok(snapshot)) => snapshot.logo_for(media),
        _ => None,
    }
}

// ---------------------------------------------------------------------- laws

/// What has a station's logo is a station; a station may be without one.
pub proof fn a_logo_means_a_station(stations: Seq<StationView>, media: MediaKey)
    ensures
        logo_of(stations, media) is Some ==> claims(stations, media),
{
    crate::model::position_is_first(stations, station_is(media), 0);
}

/// A file that is missing, unreadable, malformed or of another version saves
/// no station.
pub proof fn without_a_list_nothing_is_a_station(read: StationsRead, media: MediaKey)
    requires
        !(read matches StationsRead::Decoded(Ok(_))),
    ensures
        !(read.list() matches Some(stations) && claims(stations, media)),
{
}

/// What a list of stations writes is read back as the same list.
pub proof fn written_stations_read_back(stations: Seq<StationView>)
    requires
        forall|i: int| 0 <= i < stations.len() ==> (#[trigger] stations[i]).valid(),
        forall|i: int, j: int|
            0 <= i < j < stations.len() ==> #[trigger] stations[i].slug
                != #[trigger] stations[j].slug,
    ensures
        validated(records_of(stations)) == Ok::<_, DecodeFault>(stations),
{
    let records = records_of(stations);
    no_fault_from(stations, 0);
    assert forall|i: int| 0 <= i < stations.len() implies #[trigger] stations_of(records)[i]
        == stations[i] by {
        assert(stations[i].valid());
        assert(records[i] == stations[i].record());
    }
    assert(stations_of(records) =~= stations);
}

proof fn no_fault_from(stations: Seq<StationView>, from: int)
    requires
        0 <= from <= stations.len(),
        forall|i: int| 0 <= i < stations.len() ==> (#[trigger] stations[i]).valid(),
        forall|i: int, j: int|
            0 <= i < j < stations.len() ==> #[trigger] stations[i].slug
                != #[trigger] stations[j].slug,
    ensures
        records_fault(records_of(stations), from) is None,
    decreases stations.len() - from,
{
    let records = records_of(stations);
    if from < stations.len() {
        no_fault_from(stations, from + 1);
        let station = stations[from];
        assert(station.valid());
        assert(records[from] == station.record());
        assert(station.media.valid());
        crate::media::media_text_reads_back(station.media);
        assert forall|i: int| 0 <= i < from implies (#[trigger] records[i]).slug
            != station.slug by {
            assert(records[i].slug == stations[i].slug);
        }
        assert(!slug_used(records, from, station.slug));
    }
}

/// Every station that is read has a slug, and an address that is its media.
pub proof fn read_stations_are_valid(records: Seq<RecordView>, i: int)
    requires
        validated(records) is Ok,
        0 <= i < records.len(),
    ensures
        ({
            let stations = validated(records)->Ok_0;
            &&& crate::station::model::is_slug(stations[i].slug)
            &&& web_address(stations[i].url) matches Some(address)
            &&& stations[i].media == MediaKey::RemoteUrl(address)
        }),
{
    fault_is_found(records, 0, i);
}

/// No slug is used twice in a list that is read.
pub proof fn read_slugs_differ(records: Seq<RecordView>, i: int, j: int)
    requires
        validated(records) is Ok,
        0 <= i < j < records.len(),
    ensures
        validated(records)->Ok_0[i].slug != validated(records)->Ok_0[j].slug,
{
    fault_is_found(records, 0, j);
    if records[i].slug == records[j].slug {
        assert(slug_used(records, j, records[j].slug));
    }
}

proof fn fault_is_found(records: Seq<RecordView>, from: int, at: int)
    requires
        0 <= from <= at < records.len(),
        records_fault(records, from) is None,
    ensures
        record_fault(records, at) is None,
    decreases at - from,
{
    if from < at {
        fault_is_found(records, from + 1, at);
    }
}

/// A list is read exactly where every record is sound: its slug is one to sixty-four
/// lower-case letters, digits and inner hyphens and no other record's, its address is
/// a web address, and its media is that address.
pub proof fn sound_records_are_read(records: Seq<RecordView>)
    ensures
        validated(records) is Ok <==> forall|i: int|
            0 <= i < records.len() ==> is_sound(records, i),
        validated(records) matches Ok(stations) ==> stations.len() == records.len() && forall|
            i: int,
        |
            #![trigger stations[i]]
            0 <= i < records.len() ==> stations[i].slug == records[i].slug && stations[i].url
                == records[i].url && stations[i].identity == records[i].identity
                && stations[i].added_at == records[i].added_at && stations[i].probed_at
                == records[i].probed_at,
{
    if validated(records) is Ok {
        assert forall|i: int| 0 <= i < records.len() implies is_sound(records, i) by {
            fault_is_found(records, 0, i);
            assert forall|j: int| 0 <= j < i implies (#[trigger] records[j]).slug
                != records[i].slug by {
                if records[j].slug == records[i].slug {
                    assert(slug_used(records, i, records[i].slug));
                }
            }
        }
    } else {
        let at = first_fault(records, 0);
        assert(!is_sound(records, at));
    }
}

/// Whether the record at `at` is sound among those before it.
pub open spec fn is_sound(records: Seq<RecordView>, at: int) -> bool {
    let record = records[at];
    &&& 1 <= record.slug.len() <= 64
    &&& record.slug[0] != '-' && record.slug.last() != '-'
    &&& forall|i: int|
        0 <= i < record.slug.len() ==> ('a' <= #[trigger] record.slug[i] <= 'z') || ('0'
            <= record.slug[i] <= '9') || record.slug[i] == '-'
    &&& forall|j: int| 0 <= j < at ==> (#[trigger] records[j]).slug != record.slug
    &&& crate::media::url_read(record.url) matches Some(read)
    &&& crate::media::is_web(read)
    &&& MediaKey::from_text(record.media) == Some(MediaKey::RemoteUrl(read.text))
}

proof fn first_fault(records: Seq<RecordView>, from: int) -> (at: int)
    requires
        0 <= from,
        records_fault(records, from) is Some,
    ensures
        from <= at < records.len(),
        record_fault(records, at) is Some,
    decreases records.len() - from,
{
    if record_fault(records, from) is Some {
        from
    } else {
        first_fault(records, from + 1)
    }
}

/// The logo of a media is that of the first station for it.
pub proof fn logo_is_the_first_stations(stations: Seq<StationView>, media: MediaKey, k: int)
    requires
        0 <= k < stations.len(),
        stations[k].media == media,
        forall|i: int| 0 <= i < k ==> (#[trigger] stations[i]).media != media,
    ensures
        stations[k].identity is None ==> logo_of(stations, media) is None,
        stations[k].identity matches Some(identity) ==> logo_of(stations, media) == identity.logo,
{
    let wanted = station_is(media);
    crate::model::position_is_first(stations, wanted, 0);
    assert(wanted(stations[k]));
    let found = crate::model::position(stations, wanted, 0).unwrap();
    assert(wanted(stations[found]));
    assert(stations[found].media == media);
}

} // verus!
