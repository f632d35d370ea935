//! A named playlist: a queue with an identity, a name and, where it is
//! shuffled, an order of its own.

use crate::queue::{Direction, Queue, QueueEntryId, QueueView};
use crate::text::{chars_of, push_decimal, push_text, text_of, trim_chars, trim_end_chars};
use vstd::prelude::*;

verus! {

broadcast use crate::model::group_model;

pub const MAX_PLAYLISTS: usize = 32;

pub const MAX_NAME_CHARS: usize = 40;

#[derive(Clone, Copy, Debug, PartialEq, Eq, Structural, PartialOrd, Ord, Hash)]
pub struct PlaylistId {
    pub raw: u64,
}

impl PlaylistId {
    pub fn get(self) -> (raw: u64)
        ensures
            raw == self.raw,
    {
        self.raw
    }

    pub fn from_raw(raw: u64) -> (id: Self)
        ensures
            id.raw == raw,
    {
        PlaylistId { raw }
    }

    pub fn from_raw_for_tests(raw: u64) -> (id: Self)
        ensures
            id.raw == raw,
    {
        PlaylistId { raw }
    }
}

/// Shuffle is on exactly while a playlist holds one of these.
#[derive(Clone, Copy, Debug, PartialEq, Eq, Structural)]
pub struct Shuffle {
    pub seed: u64,
    /// Comes before every other entry while it is still a member, so that the
    /// track playing when shuffle was switched on has the whole list ahead.
    pub first: Option<QueueEntryId>,
}

#[derive(Clone, Copy, Debug, PartialEq, Eq, Structural)]
pub enum PlaylistError {
    TooMany,
    LastPlaylist,
    Unknown(PlaylistId),
    InvalidName,
    IdExhausted,
}

impl PlaylistError {
    /// What is said of it.
    pub open spec fn text(self) -> Seq<char> {
        match self {
            PlaylistError::TooMany => "at most "@ + crate::text::decimal(MAX_PLAYLISTS as nat)
                + " playlists"@,
            PlaylistError::LastPlaylist => "the last playlist cannot be deleted"@,
            PlaylistError::Unknown(id) => "playlist "@ + crate::text::decimal(id.raw as nat)
                + " no longer exists"@,
            PlaylistError::InvalidName => "a playlist name is 1 to "@ + crate::text::decimal(
                MAX_NAME_CHARS as nat,
            ) + " characters"@,
            PlaylistError::IdExhausted => "playlist IDs are exhausted"@,
        }
    }

    pub fn describe(self) -> (text: String)
        ensures
            text@ == self.text(),
    {
        let (front, number, back): (&str, u64, &str) = match self {
            PlaylistError::TooMany => ("at most ", MAX_PLAYLISTS as u64, " playlists"),
            PlaylistError::Unknown(id) => ("playlist ", id.raw, " no longer exists"),
            PlaylistError::InvalidName => (
                "a playlist name is 1 to ",
                MAX_NAME_CHARS as u64,
                " characters",
            ),
            PlaylistError::LastPlaylist => return "the last playlist cannot be deleted".to_owned(),
            PlaylistError::IdExhausted => return "playlist IDs are exhausted".to_owned(),
        };
        let mut text = front.to_owned();
        push_decimal(&mut text, number);
        push_text(&mut text, back);
        text
    }
}

/// SplitMix64's output function over `x` plus the golden gamma.
pub open spec fn mixed(x: u64) -> u64 {
    let a = x.wrapping_add(0x9E37_79B9_7F4A_7C15u64);
    let b = (a ^ (a >> 30)).wrapping_mul(0xBF58_476D_1CE4_E5B9u64);
    let c = (b ^ (b >> 27)).wrapping_mul(0x94D0_49BB_1331_11EBu64);
    c ^ (c >> 31)
}

/// SplitMix64's output function. Written out because a shuffled order must
/// survive a restart, and the standard library's hasher is not stable across
/// releases.
pub fn splitmix64(x: u64) -> (out: u64)
    ensures
        out == mixed(x),
{
    let mut z: u64 = x.wrapping_add(0x9E37_79B9_7F4A_7C15u64);
    z = (z ^ (z >> 30)).wrapping_mul(0xBF58_476D_1CE4_E5B9u64);
    z = (z ^ (z >> 27)).wrapping_mul(0x94D0_49BB_1331_11EBu64);
    z ^ (z >> 31)
}

/// The first `MAX_NAME_CHARS` characters of a text, or all of it.
pub open spec fn cut(name: Seq<char>) -> Seq<char> {
    if name.len() <= MAX_NAME_CHARS {
        name
    } else {
        name.take(MAX_NAME_CHARS as int)
    }
}

/// A name without the space around it, cut to length; nothing where nothing
/// is left.
pub open spec fn cleaned(raw: Seq<char>) -> Option<Seq<char>> {
    let name = crate::text::trim_end(cut(crate::text::trim(raw)));
    if name.len() == 0 {
        None
    } else {
        Some(name)
    }
}

/// Whether a name is one that cleaning leaves alone.
pub open spec fn is_clean(name: Seq<char>) -> bool {
    cleaned(name) == Some(name)
}

/// Trimmed and cut to [`MAX_NAME_CHARS`] characters; `None` when nothing is
/// left.
pub fn clean_name(raw: &str) -> (name: Option<String>)
    ensures
        crate::model::opt(name) == cleaned(raw@),
        name matches Some(name) ==> is_clean(name@),
{
    let mut chars = trim_chars(&chars_of(raw));
    if chars.len() > MAX_NAME_CHARS {
        chars.truncate(MAX_NAME_CHARS);
    }
    proof {
        assert(chars@ =~= cut(crate::text::trim(raw@)));
    }
    let chars = trim_end_chars(chars);
    if chars.len() == 0 {
        None
    } else {
        proof {
            cleaning_is_stable(raw@);
        }
        Some(text_of(&chars))
    }
}

proof fn trim_start_first(s: Seq<char>)
    ensures
        crate::text::trim_start(s).len() > 0 ==> !crate::text::is_white_space(
            crate::text::trim_start(s)[0],
        ),
    decreases s.len(),
{
    if s.len() > 0 && crate::text::is_white_space(s[0]) {
        trim_start_first(s.skip(1));
    }
}

proof fn trim_end_is_prefix(s: Seq<char>)
    ensures
        crate::text::trim_end(s).len() <= s.len(),
        crate::text::trim_end(s) == s.take(crate::text::trim_end(s).len() as int),
        crate::text::trim_end(s).len() > 0 ==> !crate::text::is_white_space(
            crate::text::trim_end(s).last(),
        ),
    decreases s.len(),
{
    if s.len() > 0 && crate::text::is_white_space(s.last()) {
        trim_end_is_prefix(s.drop_last());
        let n = crate::text::trim_end(s).len() as int;
        assert(s.drop_last().take(n) =~= s.take(n));
    } else {
        assert(s.take(s.len() as int) =~= s);
    }
}

/// Cleaning a name a second time changes nothing, and a clean name has 1 to
/// [`MAX_NAME_CHARS`] characters.
pub proof fn cleaning_is_stable(raw: Seq<char>)
    ensures
        cleaned(raw) matches Some(name) ==> is_clean(name) && 1 <= name.len() <= MAX_NAME_CHARS,
{
    if let Some(name) = cleaned(raw) {
        let start = crate::text::trim_start(raw);
        let body = crate::text::trim_end(start);
        trim_start_first(raw);
        trim_end_is_prefix(start);
        trim_end_is_prefix(cut(body));
        assert(name[0] == cut(body)[0] == body[0] == start[0]);
        assert(crate::text::trim_start(name) == name);
        assert(crate::text::trim_end(name) == name);
        assert(cut(name) == name);
    }
}

/// Whether `a` is played before `b`, or is `b`: the pinned entry first, then
/// by mixed number, then by number.
pub open spec fn plays_before(shuffle: Shuffle, a: QueueEntryId, b: QueueEntryId) -> bool {
    let pin_a = shuffle.first == Some(a);
    let pin_b = shuffle.first == Some(b);
    let mix_a = mixed(shuffle.seed.wrapping_add(a.raw));
    let mix_b = mixed(shuffle.seed.wrapping_add(b.raw));
    if pin_a != pin_b {
        pin_a
    } else if mix_a != mix_b {
        mix_a < mix_b
    } else {
        a.raw <= b.raw
    }
}

pub open spec fn playing_order(shuffle: Shuffle) -> spec_fn(QueueEntryId, QueueEntryId) -> bool {
    |a: QueueEntryId, b: QueueEntryId| plays_before(shuffle, a, b)
}

pub proof fn playing_order_is_total(shuffle: Shuffle)
    ensures
        vstd::relations::total_ordering(playing_order(shuffle)),
{
}

fn before(shuffle: Shuffle, a: QueueEntryId, b: QueueEntryId) -> (is_before: bool)
    ensures
        is_before == plays_before(shuffle, a, b),
{
    let pin_a: bool = shuffle.first == Some(a);
    let pin_b: bool = shuffle.first == Some(b);
    if pin_a != pin_b {
        return pin_a;
    }
    let mix_a: u64 = splitmix64(shuffle.seed.wrapping_add(a.raw));
    let mix_b: u64 = splitmix64(shuffle.seed.wrapping_add(b.raw));
    if mix_a != mix_b {
        mix_a < mix_b
    } else {
        a.raw <= b.raw
    }
}

#[derive(Debug, PartialEq, Eq)]
pub struct Playlist {
    id: PlaylistId,
    name: String,
    shuffle: Option<Shuffle>,
    queue: Queue,
}

#[verifier::ext_equal]
pub struct PlaylistView {
    pub id: PlaylistId,
    pub name: Seq<char>,
    pub shuffle: Option<Shuffle>,
    pub queue: QueueView,
}

impl View for Playlist {
    type V = PlaylistView;

    closed spec fn view(&self) -> PlaylistView {
        PlaylistView {
            id: self.id,
            name: self.name@,
            shuffle: self.shuffle,
            queue: self.queue@,
        }
    }
}

impl Clone for Playlist {
    fn clone(&self) -> (copy: Self)
        ensures
            copy@ == self@,
    {
        Playlist {
            id: self.id,
            name: self.name.clone(),
            shuffle: self.shuffle,
            queue: self.queue.clone(),
        }
    }
}

/// Being the entry `id`.
pub open spec fn entry_is(id: QueueEntryId) -> spec_fn(QueueEntryId) -> bool {
    |other: QueueEntryId| other == id
}

impl PlaylistView {
    /// The order that traversal follows: list order, or the shuffled one.
    pub open spec fn order(self) -> Seq<QueueEntryId> {
        match self.shuffle {
            Some(shuffle) => self.queue.ids().sort_by(playing_order(shuffle)),
            None => self.queue.ids(),
        }
    }

    /// Where `id` stands in that order.
    pub open spec fn rank(self, id: QueueEntryId) -> Option<int> {
        crate::model::position(self.order(), entry_is(id), 0)
    }

    /// The entry played before or after `anchor`; nothing past either end.
    pub open spec fn neighbor(self, anchor: QueueEntryId, direction: Direction) -> Option<
        QueueEntryId,
    > {
        match self.rank(anchor) {
            Some(at) => match direction {
                Direction::Up => if at > 0 {
                    Some(self.order()[at - 1])
                } else {
                    None
                },
                Direction::Down => if at + 1 < self.order().len() {
                    Some(self.order()[at + 1])
                } else {
                    None
                },
            },
            None => None,
        }
    }

    pub open spec fn first_in_order(self) -> Option<QueueEntryId> {
        if self.order().len() > 0 {
            Some(self.order()[0])
        } else {
            None
        }
    }

    pub open spec fn wf(self) -> bool {
        self.queue.wf() && is_clean(self.name)
    }

    /// With another queue.
    pub open spec fn with_queue(self, queue: QueueView) -> PlaylistView {
        PlaylistView { queue, ..self }
    }

    /// With shuffle on from `seed`, the cursor's entry first, or off.
    pub open spec fn shuffled(self, seed: Option<u64>) -> PlaylistView {
        PlaylistView {
            shuffle: match seed {
                Some(seed) => Some(Shuffle { seed, first: self.queue.active }),
                None => None,
            },
            ..self
        }
    }
}

impl Playlist {
    pub fn new(id: PlaylistId, name: String) -> (playlist: Self)
        ensures
            playlist@ == (PlaylistView {
                id,
                name: name@,
                shuffle: None,
                queue: QueueView::empty(),
            }),
    {
        Self::from_parts(id, name, None, Queue::default())
    }

    pub fn from_parts(id: PlaylistId, name: String, shuffle: Option<Shuffle>, queue: Queue) -> (playlist: Self)
        ensures
            playlist@ == (PlaylistView { id, name: name@, shuffle, queue: queue@ }),
    {
        Playlist { id, name, shuffle, queue }
    }

    pub fn id(&self) -> (id: PlaylistId)
        ensures
            id == self@.id,
    {
        self.id
    }

    pub fn name(&self) -> (name: &str)
        ensures
            name@ == self@.name,
    {
        self.name.as_str()
    }

    pub fn shuffle(&self) -> (shuffle: Option<Shuffle>)
        ensures
            shuffle == self@.shuffle,
    {
        self.shuffle
    }

    pub fn queue(&self) -> (queue: &Queue)
        ensures
            queue@ == self@.queue,
    {
        &self.queue
    }

    pub fn queue_mut(&mut self) -> (queue: &mut Queue)
        ensures
            queue@ == old(self)@.queue,
            final(self)@ == old(self)@.with_queue(final(queue)@),
    {
        &mut self.queue
    }

    pub fn queue_mut_for_tests(&mut self) -> (queue: &mut Queue)
        ensures
            queue@ == old(self)@.queue,
            final(self)@ == old(self)@.with_queue(final(queue)@),
    {
        &mut self.queue
    }

    pub fn set_name(&mut self, name: String)
        ensures
            final(self)@ == (PlaylistView { name: name@, ..old(self)@ }),
    {
        self.name = name;
    }

    pub fn set_shuffle(&mut self, shuffle: Option<Shuffle>)
        ensures
            final(self)@ == (PlaylistView { shuffle, ..old(self)@ }),
    {
        self.shuffle = shuffle;
    }

    /// The order that traversal follows: list order, or with shuffle on the
    /// pinned entry and then ascending by mixed number.
    pub fn playback_order(&self) -> (order: Vec<QueueEntryId>)
        ensures
            order@ == self@.order(),
    {
        let ids = self.queue.ids();
        match self.shuffle {
            Some(shuffle) => sorted(&ids, shuffle),
            None => ids,
        }
    }

    /// One traversal for manual navigation and automatic advance. `None` at
    /// either end: no wrap.
    pub fn neighbor(&self, anchor: QueueEntryId, direction: Direction) -> (found: Option<
        QueueEntryId,
    >)
        ensures
            found == self@.neighbor(anchor, direction),
    {
        let order = self.playback_order();
        let ghost wanted = entry_is(anchor);
        let mut at: usize = 0;
        while at < order.len()
            invariant
                at <= order@.len(),
                order@ == self@.order(),
                wanted == entry_is(anchor),
                crate::model::position(order@, wanted, 0) == crate::model::position(
                    order@,
                    wanted,
                    at as int,
                ),
            decreases order@.len() - at,
        {
            if order[at] == anchor {
                return match direction {
                    Direction::Up => if at > 0 {
                        Some(order[at - 1])
                    } else {
                        None
                    },
                    Direction::Down => if at < order.len() - 1 {
                        Some(order[at + 1])
                    } else {
                        None
                    },
                };
            }
            at += 1;
        }
        None
    }

    pub fn first_in_order(&self) -> (found: Option<QueueEntryId>)
        ensures
            found == self@.first_in_order(),
    {
        let order = self.playback_order();
        if order.len() > 0 {
            Some(order[0])
        } else {
            None
        }
    }
}

/// `ids` in the order in which a shuffled playlist plays them.
fn sorted(ids: &Vec<QueueEntryId>, shuffle: Shuffle) -> (out: Vec<QueueEntryId>)
    ensures
        out@ == ids@.sort_by(playing_order(shuffle)),
{
    let ghost leq = playing_order(shuffle);
    let mut out: Vec<QueueEntryId> = Vec::new();
    let mut at: usize = 0;
    proof {
        playing_order_is_total(shuffle);
        assert(out@ =~= ids@.take(0));
    }
    while at < ids.len()
        invariant
            at <= ids@.len(),
            leq == playing_order(shuffle),
            vstd::relations::total_ordering(leq),
            vstd::relations::sorted_by(out@, leq),
            out@.to_multiset() == ids@.take(at as int).to_multiset(),
        decreases ids@.len() - at,
    {
        let id = ids[at];
        let mut slot: usize = out.len();
        while slot > 0 && !before(shuffle, out[slot - 1], id)
            invariant
                slot <= out@.len(),
                leq == playing_order(shuffle),
                vstd::relations::total_ordering(leq),
                vstd::relations::sorted_by(out@, leq),
                forall|i: int| slot <= i < out@.len() ==> leq(id, #[trigger] out@[i]),
            decreases slot,
        {
            slot -= 1;
        }
        proof {
            assert forall|i: int| 0 <= i < slot implies leq(#[trigger] out@[i], id) by {
                if i < slot - 1 {
                    assert(leq(out@[i], out@[slot - 1]));
                }
            }
            vstd::seq_lib::to_multiset_insert(out@, slot as int, id);
            assert(ids@.take(at + 1) =~= ids@.take(at as int).push(id));
            vstd::seq_lib::to_multiset_build(ids@.take(at as int), id);
        }
        out.insert(slot, id);
        at += 1;
    }
    proof {
        assert(ids@.take(ids@.len() as int) =~= ids@);
        ids@.lemma_sort_by_ensures(leq);
        vstd::seq_lib::lemma_sorted_unique(out@, ids@.sort_by(leq), leq);
    }
    out
}

/// Every entry is played once: the order holds the queue's entries, each once.
pub proof fn order_plays_every_entry_once(playlist: PlaylistView)
    requires
        playlist.queue.distinct(),
    ensures
        playlist.order().to_multiset() == playlist.queue.ids().to_multiset(),
        playlist.order().no_duplicates(),
        playlist.order().len() == playlist.queue.entries.len(),
        forall|id: QueueEntryId|
            #[trigger] playlist.order().contains(id) <==> playlist.queue.holds(id),
{
    let ids = playlist.queue.ids();
    assert(ids.no_duplicates());
    if let Some(shuffle) = playlist.shuffle {
        playing_order_is_total(shuffle);
        ids.lemma_sort_by_ensures(playing_order(shuffle));
    }
    let order = playlist.order();
    ids.lemma_multiset_has_no_duplicates();
    vstd::seq_lib::to_multiset_len(order);
    vstd::seq_lib::to_multiset_len(ids);
    order.lemma_multiset_has_no_duplicates_conv();
    assert forall|id: QueueEntryId| #[trigger] order.contains(id) <==> playlist.queue.holds(id) by {
        vstd::seq_lib::to_multiset_contains(order, id);
        vstd::seq_lib::to_multiset_contains(ids, id);
        crate::queue::found_is_queued(playlist.queue, id);
        if playlist.queue.holds(id) {
            assert(ids[playlist.queue.find(id).unwrap()] == id);
        }
        if ids.contains(id) {
            let i = ids.index_of(id);
            assert(ids[i] == playlist.queue.entries[i].id);
        }
    }
}

pub proof fn rank_is_place(playlist: PlaylistView, at: int)
    requires
        playlist.queue.distinct(),
        0 <= at < playlist.order().len(),
    ensures
        playlist.rank(playlist.order()[at]) == Some(at),
{
    order_plays_every_entry_once(playlist);
    let id = playlist.order()[at];
    crate::model::position_is_first(playlist.order(), entry_is(id), 0);
    assert(entry_is(id)(playlist.order()[at]));
}

/// Stepping down and up again, or up and down again, returns to where one was.
pub proof fn neighbours_are_mutual(playlist: PlaylistView, a: QueueEntryId, b: QueueEntryId)
    requires
        playlist.queue.distinct(),
    ensures
        playlist.neighbor(a, Direction::Down) == Some(b) <==> playlist.neighbor(b, Direction::Up)
            == Some(a),
{
    crate::model::position_is_first(playlist.order(), entry_is(a), 0);
    crate::model::position_is_first(playlist.order(), entry_is(b), 0);
    if playlist.neighbor(a, Direction::Down) == Some(b) {
        rank_is_place(playlist, playlist.rank(a).unwrap() + 1);
    }
    if playlist.neighbor(b, Direction::Up) == Some(a) {
        rank_is_place(playlist, playlist.rank(b).unwrap() - 1);
    }
}

/// Traversal does not wrap: nothing is before the first entry or after the
/// last, and nothing neighbours what is not queued.
pub proof fn traversal_ends(playlist: PlaylistView, id: QueueEntryId)
    requires
        playlist.queue.distinct(),
    ensures
        playlist.first_in_order() == Some(id) ==> playlist.neighbor(id, Direction::Up) is None,
        playlist.order().len() > 0 && playlist.order().last() == id ==> playlist.neighbor(
            id,
            Direction::Down,
        ) is None,
        !playlist.queue.holds(id) ==> playlist.neighbor(id, Direction::Up) is None
            && playlist.neighbor(id, Direction::Down) is None,
{
    order_plays_every_entry_once(playlist);
    crate::model::position_is_first(playlist.order(), entry_is(id), 0);
    if playlist.order().len() > 0 {
        rank_is_place(playlist, 0);
        rank_is_place(playlist, playlist.order().len() - 1);
    }
    if !playlist.queue.holds(id) {
        assert(!playlist.order().contains(id));
    }
}

/// While shuffle is on, the pinned entry is played first if it is still a
/// member.
pub proof fn pinned_entry_leads(playlist: PlaylistView, first: QueueEntryId)
    requires
        playlist.queue.distinct(),
        playlist.shuffle matches Some(shuffle) && shuffle.first == Some(first),
        playlist.queue.holds(first),
    ensures
        playlist.first_in_order() == Some(first),
{
    let shuffle = playlist.shuffle.unwrap();
    order_plays_every_entry_once(playlist);
    playing_order_is_total(shuffle);
    playlist.queue.ids().lemma_sort_by_ensures(playing_order(shuffle));
    let order = playlist.order();
    assert(order.contains(first));
    let at = order.index_of(first);
    if at > 0 {
        assert(playing_order(shuffle)(order[0], order[at]));
    }
}

/// With shuffle switched on, the entry under the cursor is played first and
/// every other entry is ahead of it.
pub proof fn shuffling_keeps_the_list_ahead(
    playlist: PlaylistView,
    seed: u64,
    cursor: QueueEntryId,
    other: QueueEntryId,
)
    requires
        playlist.queue.wf(),
        playlist.queue.active == Some(cursor),
        playlist.queue.holds(other),
        other != cursor,
    ensures
        playlist.shuffled(Some(seed)).rank(cursor) == Some(0int),
        playlist.shuffled(Some(seed)).rank(other) matches Some(at) && at > 0,
{
    let after = playlist.shuffled(Some(seed));
    pinned_entry_leads(after, cursor);
    order_plays_every_entry_once(after);
    rank_is_place(after, 0);
    assert(after.order().contains(other));
    let at = after.order().index_of(other);
    rank_is_place(after, at);
}

/// A name is what was typed without the space around it, the whole of it up to forty
/// characters and its beginning where there are more; only a blank one is refused.
pub proof fn name_is_what_was_typed(raw: Seq<char>)
    ensures
        ({
            let typed = crate::text::trim(raw);
            &&& typed.len() == 0 <==> cleaned(raw) is None
            &&& 0 < typed.len() <= 40 ==> cleaned(raw) == Some(typed)
            &&& typed.len() > 40 ==> (cleaned(raw) matches Some(name) && name.is_prefix_of(typed)
                && name.len() <= 40 && (!crate::text::is_white_space(typed[39]) ==> name.len()
                == 40))
        }),
{
    let typed = crate::text::trim(raw);
    let front = crate::text::trimming_takes_the_ends(raw);
    trim_end_is_prefix(cut(typed));
    if typed.len() > 0 {
        assert(!crate::text::is_white_space(typed[0]));
        assert(cut(typed)[0] == typed[0]);
        trim_end_keeps_a_start(cut(typed));
        if typed.len() > 40 {
            let name = crate::text::trim_end(cut(typed));
            assert(name =~= typed.take(name.len() as int));
            assert(cut(typed).last() == typed[39]);
        }
    }
}

proof fn trim_end_keeps_a_start(s: Seq<char>)
    requires
        s.len() > 0,
        !crate::text::is_white_space(s[0]),
    ensures
        crate::text::trim_end(s).len() > 0,
    decreases s.len(),
{
    if crate::text::is_white_space(s.last()) {
        assert(s.len() > 1);
        assert(s.drop_last()[0] == s[0]);
        trim_end_keeps_a_start(s.drop_last());
    }
}

} // verus!
