//! What a browser asks of its worker, and what the worker answers.

use crate::library::{EpisodeCandidate, EpisodeView, FeedSummary, FeedView, StationRow,
    StationRowView};
use crate::media::{MediaId, MediaKey};
use crate::playlist::PlaylistId;
use crate::text::same_text;
use vstd::prelude::*;

verus! {

broadcast use crate::model::group_model;

#[derive(Clone, Copy, Debug, PartialEq, Eq, Structural)]
pub enum EntryKind {
    Directory,
    Audio,
    Other,
}

/// One entry of a directory. `media` is what an audio file would be queued as.
#[derive(Debug, PartialEq, Eq)]
pub struct DirEntry {
    pub name: String,
    pub path: String,
    pub kind: EntryKind,
    pub media: Option<MediaId>,
}

#[verifier::ext_equal]
pub struct DirView {
    pub name: Seq<char>,
    pub path: Seq<char>,
    pub kind: EntryKind,
    pub media: Option<MediaKey>,
}

impl View for DirEntry {
    type V = DirView;

    open spec fn view(&self) -> DirView {
        DirView {
            name: self.name@,
            path: self.path@,
            kind: self.kind,
            media: crate::model::opt(self.media),
        }
    }
}

#[allow(inconsistent_fields)]
#[derive(Debug, PartialEq, Eq)]
pub enum BrowseRequest {
    Directory(String),
    Feeds,
    Episodes { slug: String },
    Stations,
    Subscribe { url: String },
    /// One feed, or all of them.
    Refresh { slug: Option<String> },
    Unsubscribe { slug: String },
    AddStation { url: String },
    RemoveStation { slug: String },
    ReprobeStation { slug: String },
    CollectTree { roots: Vec<String>, dest: PlaylistId },
}

#[allow(inconsistent_fields)]
#[verifier::ext_equal]
pub enum RequestView {
    Directory(Seq<char>),
    Feeds,
    Episodes { slug: Seq<char> },
    Stations,
    Subscribe { url: Seq<char> },
    Refresh { slug: Option<Seq<char>> },
    Unsubscribe { slug: Seq<char> },
    AddStation { url: Seq<char> },
    RemoveStation { slug: Seq<char> },
    ReprobeStation { slug: Seq<char> },
    CollectTree { roots: Seq<Seq<char>>, dest: PlaylistId },
}

impl View for BrowseRequest {
    type V = RequestView;

    open spec fn view(&self) -> RequestView {
        match *self {
            BrowseRequest::Directory(path) => RequestView::Directory(path@),
            BrowseRequest::Feeds => RequestView::Feeds,
            BrowseRequest::Episodes { slug } => RequestView::Episodes { slug: slug@ },
            BrowseRequest::Stations => RequestView::Stations,
            BrowseRequest::Subscribe { url } => RequestView::Subscribe { url: url@ },
            BrowseRequest::Refresh { slug } => RequestView::Refresh {
                slug: crate::model::opt(slug),
            },
            BrowseRequest::Unsubscribe { slug } => RequestView::Unsubscribe { slug: slug@ },
            BrowseRequest::AddStation { url } => RequestView::AddStation { url: url@ },
            BrowseRequest::RemoveStation { slug } => RequestView::RemoveStation { slug: slug@ },
            BrowseRequest::ReprobeStation { slug } => RequestView::ReprobeStation { slug: slug@ },
            BrowseRequest::CollectTree { roots, dest } => RequestView::CollectTree {
                roots: crate::model::seq(roots@),
                dest,
            },
        }
    }
}

fn cloned_texts(texts: &Vec<String>) -> (copy: Vec<String>)
    ensures
        crate::model::seq(copy@) == crate::model::seq(texts@),
{
    let ghost all = crate::model::seq(texts@);
    let mut copy: Vec<String> = Vec::new();
    let mut at: usize = 0;
    while at < texts.len()
        invariant
            at <= texts@.len(),
            all == crate::model::seq(texts@),
            crate::model::seq(copy@) == all.take(at as int),
        decreases texts@.len() - at,
    {
        copy.push(texts[at].clone());
        at += 1;
        proof {
            assert(crate::model::seq(copy@) =~= all.take(at as int));
        }
    }
    proof {
        assert(all.take(at as int) =~= all);
    }
    copy
}

fn same_texts(a: &Vec<String>, b: &Vec<String>) -> (same: bool)
    ensures
        same == (crate::model::seq(a@) == crate::model::seq(b@)),
{
    let ghost left = crate::model::seq(a@);
    let ghost right = crate::model::seq(b@);
    if a.len() != b.len() {
        return false;
    }
    let mut at: usize = 0;
    while at < a.len()
        invariant
            at <= a@.len() == b@.len(),
            left == crate::model::seq(a@),
            right == crate::model::seq(b@),
            forall|i: int| 0 <= i < at ==> #[trigger] left[i] == right[i],
        decreases a@.len() - at,
    {
        assert(left[at as int] == a@[at as int]@);
        assert(right[at as int] == b@[at as int]@);
        if !same_text(a[at].as_str(), b[at].as_str()) {
            return false;
        }
        at += 1;
    }
    assert(left =~= right);
    true
}

impl BrowseRequest {
    pub fn same(&self, other: &Self) -> (same: bool)
        ensures
            same == (self@ == other@),
    {
        match (self, other) {
            (BrowseRequest::Directory(a), BrowseRequest::Directory(b)) => same_text(a, b),
            (BrowseRequest::Feeds, BrowseRequest::Feeds) => true,
            (
                BrowseRequest::Episodes { slug: a },
                BrowseRequest::Episodes { slug: b },
            ) => same_text(a, b),
            (BrowseRequest::Stations, BrowseRequest::Stations) => true,
            (
                BrowseRequest::Subscribe { url: a },
                BrowseRequest::Subscribe { url: b },
            ) => same_text(a, b),
            (BrowseRequest::Refresh { slug: a }, BrowseRequest::Refresh { slug: b }) => match (
                a,
                b,
            ) {
                (Some(a), Some(b)) => same_text(a, b),
                (None, None) => true,
                _ => false,
            },
            (
                BrowseRequest::Unsubscribe { slug: a },
                BrowseRequest::Unsubscribe { slug: b },
            ) => same_text(a, b),
            (
                BrowseRequest::AddStation { url: a },
                BrowseRequest::AddStation { url: b },
            ) => same_text(a, b),
            (
                BrowseRequest::RemoveStation { slug: a },
                BrowseRequest::RemoveStation { slug: b },
            ) => same_text(a, b),
            (
                BrowseRequest::ReprobeStation { slug: a },
                BrowseRequest::ReprobeStation { slug: b },
            ) => same_text(a, b),
            (
                BrowseRequest::CollectTree { roots: a, dest: to },
                BrowseRequest::CollectTree { roots: b, dest: other },
            ) => *to == *other && same_texts(a, b),
            _ => false,
        }
    }
}

impl Clone for BrowseRequest {
    fn clone(&self) -> (copy: Self)
        ensures
            copy@ == self@,
    {
        match self {
            BrowseRequest::Directory(path) => BrowseRequest::Directory(path.clone()),
            BrowseRequest::Feeds => BrowseRequest::Feeds,
            BrowseRequest::Episodes { slug } => BrowseRequest::Episodes { slug: slug.clone() },
            BrowseRequest::Stations => BrowseRequest::Stations,
            BrowseRequest::Subscribe { url } => BrowseRequest::Subscribe { url: url.clone() },
            BrowseRequest::Refresh { slug } => BrowseRequest::Refresh { slug: slug.clone() },
            BrowseRequest::Unsubscribe { slug } => BrowseRequest::Unsubscribe {
                slug: slug.clone(),
            },
            BrowseRequest::AddStation { url } => BrowseRequest::AddStation { url: url.clone() },
            BrowseRequest::RemoveStation { slug } => BrowseRequest::RemoveStation {
                slug: slug.clone(),
            },
            BrowseRequest::ReprobeStation { slug } => BrowseRequest::ReprobeStation {
                slug: slug.clone(),
            },
            BrowseRequest::CollectTree { roots, dest } => BrowseRequest::CollectTree {
                roots: cloned_texts(roots),
                dest: *dest,
            },
        }
    }
}

/// The files of a folder walk, and the playlist they are for.
#[derive(Debug, PartialEq, Eq)]
pub struct TreeCollected {
    pub dest: PlaylistId,
    pub items: Vec<String>,
}

#[derive(Debug, PartialEq, Eq)]
pub enum BrowseResult {
    Directory { path: String, entries: Result<Vec<DirEntry>, String> },
    Feeds(Result<Vec<FeedSummary>, String>),
    Episodes { slug: String, episodes: Result<Vec<EpisodeCandidate>, String> },
    Stations(Result<Vec<StationRow>, String>),
    Mutation { request: BrowseRequest, outcome: Result<String, String> },
    TreeCollected(TreeCollected),
}

/// The view of a list, or of why there is none.
pub open spec fn listing<T: View>(list: Result<Vec<T>, String>) -> Result<Seq<T::V>, Seq<char>> {
    match list {
        Ok(list) => Ok(crate::model::seq(list@)),
        Err(message) => Err(message@),
    }
}

#[verifier::ext_equal]
pub enum ResultView {
    Directory { path: Seq<char>, entries: Result<Seq<DirView>, Seq<char>> },
    Feeds(Result<Seq<FeedView>, Seq<char>>),
    Episodes { slug: Seq<char>, episodes: Result<Seq<EpisodeView>, Seq<char>> },
    Stations(Result<Seq<StationRowView>, Seq<char>>),
    Mutation { request: RequestView, outcome: Result<Seq<char>, Seq<char>> },
    TreeCollected { dest: PlaylistId, items: Seq<Seq<char>> },
}

impl View for BrowseResult {
    type V = ResultView;

    open spec fn view(&self) -> ResultView {
        match *self {
            BrowseResult::Directory { path, entries } => ResultView::Directory {
                path: path@,
                entries: listing(entries),
            },
            BrowseResult::Feeds(feeds) => ResultView::Feeds(listing(feeds)),
            BrowseResult::Episodes { slug, episodes } => ResultView::Episodes {
                slug: slug@,
                episodes: listing(episodes),
            },
            BrowseResult::Stations(stations) => ResultView::Stations(listing(stations)),
            BrowseResult::Mutation { request, outcome } => ResultView::Mutation {
                request: request@,
                outcome: match outcome {
                    Ok(text) => Ok(text@),
                    Err(text) => Err(text@),
                },
            },
            BrowseResult::TreeCollected(tree) => ResultView::TreeCollected {
                dest: tree.dest,
                items: crate::model::seq(tree.items@),
            },
        }
    }
}

} // verus!
