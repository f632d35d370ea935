//! What a front end asks of the player.

use crate::application::browse::TreeCollected;
use crate::clock::Duration;
use crate::library::{EpisodeCandidate, EpisodeView};
use crate::media::begins_with;
use crate::playlist::PlaylistId;
use crate::queue::{Direction, QueueEntryId};
use crate::text::chars_of;
use vstd::prelude::*;

verus! {

broadcast use crate::model::group_model;

/// Something to queue.
#[derive(Debug, PartialEq, Eq)]
pub enum EnqueueItem {
    Path(String),
    Url(String),
    Episode(EpisodeCandidate),
    Station { url: String, title: String },
}

#[verifier::ext_equal]
pub enum ItemView {
    Path(Seq<char>),
    Url(Seq<char>),
    Episode(EpisodeView),
    Station { url: Seq<char>, title: Seq<char> },
}

impl View for EnqueueItem {
    type V = ItemView;

    open spec fn view(&self) -> ItemView {
        match *self {
            EnqueueItem::Path(path) => ItemView::Path(path@),
            EnqueueItem::Url(url) => ItemView::Url(url@),
            EnqueueItem::Episode(episode) => ItemView::Episode(episode@),
            EnqueueItem::Station { url, title } => ItemView::Station { url: url@, title: title@ },
        }
    }
}

/// Whether a text begins as a web address does.
pub open spec fn looks_like_url(text: Seq<char>) -> bool {
    "http://"@.is_prefix_of(text) || "https://"@.is_prefix_of(text)
}

impl ItemView {
    /// What a typed text names: an address, or else a file.
    pub open spec fn typed(text: Seq<char>) -> ItemView {
        if looks_like_url(text) {
            ItemView::Url(text)
        } else {
            ItemView::Path(text)
        }
    }
}

impl EnqueueItem {
    pub fn from_input(text: &str) -> (item: Self)
        ensures
            item@ == ItemView::typed(text@),
    {
        let chars = chars_of(text);
        if begins_with(&chars, "http://") || begins_with(&chars, "https://") {
            EnqueueItem::Url(text.to_owned())
        } else {
            EnqueueItem::Path(text.to_owned())
        }
    }
}

/// A place in a track, as a column of a bar that stands for all of it.
#[derive(Clone, Copy, Debug, PartialEq, Eq, Structural)]
pub struct SeekPoint {
    pub duration: Duration,
    pub column: u16,
    pub columns: u16,
}

/// One request to the player.
#[derive(Debug, PartialEq, Eq)]
pub enum AppCommand {
    PlayPause,
    Play,
    Stop,
    Restart,
    Previous,
    Next,
    PlayEntry(QueueEntryId),
    SeekBy(i64),
    SeekTo(SeekPoint),
    /// A number of volume steps, down or up.
    AdjustVolume(i8),
    Enqueue { dest: PlaylistId, items: Vec<EnqueueItem> },
    Remove(QueueEntryId),
    Move(QueueEntryId, Direction),
    View(PlaylistId),
    ViewNext,
    ViewPrevious,
    CreatePlaylist(String),
    RenamePlaylist(PlaylistId, String),
    DeletePlaylist(PlaylistId),
    ClearPlaylist(PlaylistId),
    ToggleShuffle(PlaylistId),
    /// What a folder walk found.
    AddTree(TreeCollected),
}

/// A request, its texts and items taken by what they hold.
#[allow(inconsistent_fields)]
#[verifier::ext_equal]
pub enum CommandView {
    PlayPause,
    Play,
    Stop,
    Restart,
    Previous,
    Next,
    PlayEntry(QueueEntryId),
    SeekBy(i64),
    SeekTo(SeekPoint),
    AdjustVolume(i8),
    Enqueue { dest: PlaylistId, items: Seq<ItemView> },
    Remove(QueueEntryId),
    Move(QueueEntryId, Direction),
    View(PlaylistId),
    ViewNext,
    ViewPrevious,
    CreatePlaylist(Seq<char>),
    RenamePlaylist(PlaylistId, Seq<char>),
    DeletePlaylist(PlaylistId),
    ClearPlaylist(PlaylistId),
    ToggleShuffle(PlaylistId),
    AddTree { dest: PlaylistId, items: Seq<Seq<char>> },
}

impl View for AppCommand {
    type V = CommandView;

    open spec fn view(&self) -> CommandView {
        match *self {
            AppCommand::PlayPause => CommandView::PlayPause,
            AppCommand::Play => CommandView::Play,
            AppCommand::Stop => CommandView::Stop,
            AppCommand::Restart => CommandView::Restart,
            AppCommand::Previous => CommandView::Previous,
            AppCommand::Next => CommandView::Next,
            AppCommand::PlayEntry(id) => CommandView::PlayEntry(id),
            AppCommand::SeekBy(by) => CommandView::SeekBy(by),
            AppCommand::SeekTo(point) => CommandView::SeekTo(point),
            AppCommand::AdjustVolume(steps) => CommandView::AdjustVolume(steps),
            AppCommand::Enqueue { dest, items } => CommandView::Enqueue {
                dest,
                items: crate::model::seq(items@),
            },
            AppCommand::Remove(id) => CommandView::Remove(id),
            AppCommand::Move(id, direction) => CommandView::Move(id, direction),
            AppCommand::View(id) => CommandView::View(id),
            AppCommand::ViewNext => CommandView::ViewNext,
            AppCommand::ViewPrevious => CommandView::ViewPrevious,
            AppCommand::CreatePlaylist(name) => CommandView::CreatePlaylist(name@),
            AppCommand::RenamePlaylist(id, name) => CommandView::RenamePlaylist(id, name@),
            AppCommand::DeletePlaylist(id) => CommandView::DeletePlaylist(id),
            AppCommand::ClearPlaylist(id) => CommandView::ClearPlaylist(id),
            AppCommand::ToggleShuffle(id) => CommandView::ToggleShuffle(id),
            AppCommand::AddTree(tree) => CommandView::AddTree {
                dest: tree.dest,
                items: crate::model::seq(tree.items@),
            },
        }
    }
}

} // verus!
