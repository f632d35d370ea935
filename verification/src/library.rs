//! What the browser lists of subscriptions and saved stations.

use crate::clock::Duration;
use crate::media::{MediaId, MediaKey, Url};
use crate::station::model::{IdentityView, StationIdentity};
use vstd::prelude::*;

verus! {

broadcast use crate::model::group_model;

/// One subscription.
#[derive(Debug, PartialEq, Eq)]
pub struct FeedSummary {
    pub slug: String,
    pub title: Option<String>,
    /// How many episodes are cached; none before the first refresh.
    pub episodes: Option<usize>,
}

#[verifier::ext_equal]
pub struct FeedView {
    pub slug: Seq<char>,
    pub title: Option<Seq<char>>,
    pub episodes: Option<usize>,
}

impl View for FeedSummary {
    type V = FeedView;

    open spec fn view(&self) -> FeedView {
        FeedView {
            slug: self.slug@,
            title: crate::model::opt(self.title),
            episodes: self.episodes,
        }
    }
}

/// One cached episode. `published` is when, in nanoseconds since the epoch; none
/// is known of an undated one.
#[derive(Debug, PartialEq, Eq)]
pub struct EpisodeCandidate {
    pub media: MediaId,
    pub title: Option<String>,
    pub enclosure: Option<Url>,
    pub declared_duration: Option<Duration>,
    pub published: Option<i128>,
}

#[verifier::ext_equal]
pub struct EpisodeView {
    pub media: MediaKey,
    pub title: Option<Seq<char>>,
    pub enclosure: Option<Seq<char>>,
    pub declared_duration: Option<Duration>,
    pub published: Option<i128>,
}

impl View for EpisodeCandidate {
    type V = EpisodeView;

    open spec fn view(&self) -> EpisodeView {
        EpisodeView {
            media: self.media@,
            title: crate::model::opt(self.title),
            enclosure: crate::model::opt(self.enclosure),
            declared_duration: self.declared_duration,
            published: self.published,
        }
    }
}

impl Clone for EpisodeCandidate {
    fn clone(&self) -> (copy: Self)
        ensures
            copy@ == self@,
    {
        EpisodeCandidate {
            media: self.media.clone(),
            title: self.title.clone(),
            enclosure: match &self.enclosure {
                Some(url) => Some(url.clone()),
                None => None,
            },
            declared_duration: self.declared_duration,
            published: self.published,
        }
    }
}

/// One saved station.
#[derive(Debug, PartialEq, Eq)]
pub struct StationRow {
    pub slug: String,
    pub url: Url,
    pub media: MediaId,
    pub identity: Option<StationIdentity>,
}

#[verifier::ext_equal]
pub struct StationRowView {
    pub slug: Seq<char>,
    pub url: Seq<char>,
    pub media: MediaKey,
    pub identity: Option<IdentityView>,
}

impl View for StationRow {
    type V = StationRowView;

    open spec fn view(&self) -> StationRowView {
        StationRowView {
            slug: self.slug@,
            url: self.url@,
            media: self.media@,
            identity: crate::model::opt(self.identity),
        }
    }
}

} // verus!
