//! The room: its queue of requested songs and the song that is playing.
//!
//! The queue is kept with the next song to play at its end: a new request
//! goes to the front, a song moved to the top goes to the end, and playing
//! takes the song at the end.

use vstd::prelude::*;
use crate::error::{ErrorKind, VocasyncError};
use crate::ids::{is_random_uuid, new_random_uuid};
use crate::music::{clone_music_list, Music, PlayableMusic, SerializePlayList, SerializePlayableMusic};
use crate::time::{Span, Timestamp};
use crate::user::User;

verus! {

broadcast use vstd::seq_lib::group_to_multiset_ensures;

/// The room.
pub struct Room {
    pub userlist: Vec<User>,
    pub musiclist: Vec<Music>,
    pub last_time: Timestamp,
    pub last_person: String,
    pub current_play: Option<PlayableMusic>,
}

/// What the player does after one step.
#[derive(Debug)]
pub enum PlayStep {
    /// A song started: its play id, and how long to wait before the next
    /// step (the song's length and one second), or `None` where that sum
    /// does not fit a span, which the player cannot wait for.
    Playing { play_id: Option<u128>, wait: Option<Span> },
    /// The queue was empty; nothing plays any more.
    Stopped,
}

/// `music` as queued by `requester` under the play id `play_id`.
pub open spec fn requested(music: Music, requester: u128, play_id: u128) -> Music {
    Music { play_id: Some(play_id), requester: Some(requester), ..music }
}

/// The queue after a request: the requested song goes to the front.
pub open spec fn after_add(list: Seq<Music>, music: Music, requester: u128, play_id: u128) -> Seq<
    Music,
> {
    seq![requested(music, requester, play_id)] + list
}

/// The song that plays next: the one at the end of the queue.
pub open spec fn next_to_play(list: Seq<Music>) -> Option<Music> {
    if list.len() == 0 {
        None
    } else {
        Some(list.last())
    }
}

/// The queue once the next song has been taken from it.
pub open spec fn after_play(list: Seq<Music>) -> Seq<Music> {
    if list.len() == 0 {
        list
    } else {
        list.drop_last()
    }
}

/// `p` is the first position of `list` whose song has the play id `play_id`.
pub open spec fn first_with_play_id(list: Seq<Music>, play_id: Option<u128>, p: int) -> bool {
    &&& 0 <= p < list.len()
    &&& list[p].play_id == play_id
    &&& forall|j: int| 0 <= j < p ==> #[trigger] list[j].play_id != play_id
}

/// Some song of `list` has the play id `play_id`.
pub open spec fn has_play_id(list: Seq<Music>, play_id: Option<u128>) -> bool {
    exists|i: int| 0 <= i < list.len() && #[trigger] list[i].play_id == play_id
}

/// The queue with the song at `p` moved to the end, where it plays next.
pub open spec fn moved_to_top(list: Seq<Music>, p: int) -> Seq<Music> {
    list.remove(p).push(list[p])
}

/// After a song with the play id `play_id` started, the player goes on to
/// the next song unless another song has been made current meanwhile.
pub open spec fn keeps_playing_spec(current: Option<PlayableMusic>, play_id: Option<u128>) -> bool {
    match current {
        Some(before) => before.music.play_id == play_id,
        None => true,
    }
}

/// The order in which the songs of `list` come out of the queue when the
/// player takes them one after another.
pub open spec fn play_order(list: Seq<Music>) -> Seq<Music>
    decreases list.len(),
{
    if list.len() == 0 {
        Seq::empty()
    } else {
        seq![list.last()] + play_order(list.drop_last())
    }
}

/// The player takes the songs in the order of `play_order`: first the song
/// `next_to_play` names, then those of the queue `after_play` leaves.
pub proof fn lemma_play_order_steps(list: Seq<Music>)
    ensures
        list.len() == 0 ==> play_order(list).len() == 0 && next_to_play(list) is None,
        list.len() > 0 ==> next_to_play(list) == Some(play_order(list)[0]) && play_order(
            after_play(list),
        ) == play_order(list).drop_first(),
{
    if list.len() > 0 {
        assert(play_order(list).drop_first() =~= play_order(list.drop_last()));
    }
}

/// The songs come out of the queue in the order they were requested: a new
/// request plays after every song already queued, and the songs queued
/// before keep their order.
pub proof fn lemma_requests_play_in_order(
    list: Seq<Music>,
    music: Music,
    requester: u128,
    play_id: u128,
)
    ensures
        play_order(after_add(list, music, requester, play_id)) == play_order(list).push(
            requested(music, requester, play_id),
        ),
    decreases list.len(),
{
    let m = requested(music, requester, play_id);
    let added = after_add(list, music, requester, play_id);
    if list.len() == 0 {
        assert(added.drop_last() =~= Seq::<Music>::empty());
        assert(play_order(added.drop_last()) =~= Seq::<Music>::empty());
        assert(added.last() == m);
        assert(play_order(added) =~= seq![m]);
        assert(play_order(list).push(m) =~= seq![m]);
    } else {
        lemma_requests_play_in_order(list.drop_last(), music, requester, play_id);
        assert(added.drop_last() =~= after_add(list.drop_last(), music, requester, play_id));
        assert(added.last() == list.last());
        assert(play_order(added) =~= seq![list.last()] + play_order(list.drop_last()).push(m));
        assert(play_order(list).push(m) =~= seq![list.last()] + play_order(list.drop_last()).push(
            m,
        ));
    }
}

/// A request keeps the song as it was given, field by field (its URL,
/// title, source, length and the rest), and only marks it with the play id
/// and the requester; the queue before it stays behind it unchanged.
pub proof fn lemma_request_keeps_song(
    list: Seq<Music>,
    music: Music,
    requester: u128,
    play_id: u128,
)
    ensures
        after_add(list, music, requester, play_id).len() == list.len() + 1,
        after_add(list, music, requester, play_id).drop_first() == list,
        ({
            let q = after_add(list, music, requester, play_id)[0];
            &&& q.uuid == music.uuid
            &&& q.source == music.source
            &&& q.url == music.url
            &&& q.url_timeout == music.url_timeout
            &&& q.cover == music.cover
            &&& q.title == music.title
            &&& q.album == music.album
            &&& q.artist == music.artist
            &&& q.year == music.year
            &&& q.duration == music.duration
            &&& q.play_id == Some(play_id)
            &&& q.requester == Some(requester)
        }),
{
    assert(after_add(list, music, requester, play_id).drop_first() =~= list);
}

/// A request does not change which song plays next, unless the queue was
/// empty, in which case the requested song plays next.
pub proof fn lemma_request_keeps_next(
    list: Seq<Music>,
    music: Music,
    requester: u128,
    play_id: u128,
)
    ensures
        next_to_play(after_add(list, music, requester, play_id)) == if list.len() == 0 {
            Some(requested(music, requester, play_id))
        } else {
            next_to_play(list)
        },
{
}

/// Moving a song to the top makes it the next to play, keeps the other
/// songs in their order behind it, and neither adds nor drops a song.
pub proof fn lemma_move_top_plays_next(list: Seq<Music>, play_id: Option<u128>, p: int)
    requires
        first_with_play_id(list, play_id, p),
    ensures
        next_to_play(moved_to_top(list, p)) == Some(list[p]),
        list[p].play_id == play_id,
        play_order(moved_to_top(list, p)) == seq![list[p]] + play_order(list.remove(p)),
        moved_to_top(list, p).to_multiset() == list.to_multiset(),
        moved_to_top(list, p).len() == list.len(),
{
    let moved = moved_to_top(list, p);
    assert(moved.drop_last() =~= list.remove(p));
    assert(list.remove(p).push(list[p]).to_multiset() =~= list.remove(p).to_multiset().insert(
        list[p],
    ));
    assert(list.remove(p).to_multiset() =~= list.to_multiset().remove(list[p]));
    assert(list.to_multiset().count(list[p]) > 0) by {
        assert(list.contains(list[p]));
    }
    assert(moved.to_multiset() =~= list.to_multiset());
}

/// Once a song has started, the player goes on to the next one after its
/// wait, as long as no other song has been made current.
pub proof fn lemma_started_song_keeps_playing(music: Music, start: Timestamp)
    ensures
        keeps_playing_spec(Some(PlayableMusic { music, start_time: start }), music.play_id),
{
}

/// Playing skips: when a player starts the next song of a non-empty queue
/// while an earlier player waits on the song with the play id `play_id`,
/// and the new song has another play id, the earlier player stops after its
/// wait.
pub proof fn lemma_skip_stops_waiting_player(
    list: Seq<Music>,
    play_id: Option<u128>,
    now: Timestamp,
)
    requires
        list.len() > 0,
        list.last().play_id != play_id,
    ensures
        next_to_play(list) == Some(list.last()),
        !keeps_playing_spec(Some(PlayableMusic { music: list.last(), start_time: now }), play_id),
{
}

/// Every song of `list` has a play id, and no two share one.
pub open spec fn distinct_play_ids(list: Seq<Music>) -> bool {
    &&& forall|i: int| 0 <= i < list.len() ==> (#[trigger] list[i]).play_id is Some
    &&& forall|i: int, j: int|
        0 <= i < j < list.len() ==> #[trigger] list[i].play_id != #[trigger] list[j].play_id
}

/// The song that starts leaves the queue: where the queued songs' play ids
/// are distinct, no song left in the queue has the play id of the song
/// taken to play, and the play ids left stay distinct.
pub proof fn lemma_playing_song_leaves_queue(list: Seq<Music>)
    requires
        list.len() > 0,
        distinct_play_ids(list),
    ensures
        forall|i: int|
            0 <= i < after_play(list).len() ==> #[trigger] after_play(list)[i].play_id
                != next_to_play(list)->0.play_id,
        distinct_play_ids(after_play(list)),
{
    let rest = after_play(list);
    assert forall|i: int| 0 <= i < rest.len() implies #[trigger] rest[i].play_id != next_to_play(
        list,
    )->0.play_id by {
        assert(rest[i] == list[i]);
        assert(list[i].play_id != list[list.len() - 1].play_id);
    }
    assert forall|i: int, j: int| 0 <= i < j < rest.len() implies #[trigger] rest[i].play_id
        != #[trigger] rest[j].play_id by {
        assert(rest[i] == list[i]);
        assert(rest[j] == list[j]);
    }
    assert forall|i: int| 0 <= i < rest.len() implies (#[trigger] rest[i]).play_id is Some by {
        assert(rest[i] == list[i]);
    }
}

/// A request under a play id that no queued song has keeps the play ids of
/// the queue distinct.
pub proof fn lemma_fresh_request_keeps_ids_distinct(
    list: Seq<Music>,
    music: Music,
    requester: u128,
    play_id: u128,
)
    requires
        distinct_play_ids(list),
        !has_play_id(list, Some(play_id)),
    ensures
        distinct_play_ids(after_add(list, music, requester, play_id)),
{
    let added = after_add(list, music, requester, play_id);
    assert forall|i: int, j: int| 0 <= i < j < added.len() implies #[trigger] added[i].play_id
        != #[trigger] added[j].play_id by {
        assert(added[j] == list[j - 1]);
        if i > 0 {
            assert(added[i] == list[i - 1]);
        } else {
            if added[j].play_id == Some(play_id) {
                assert(list[j - 1].play_id == Some(play_id));
            }
        }
    }
    assert forall|i: int| 0 <= i < added.len() implies (#[trigger] added[i]).play_id is Some by {
        if i > 0 {
            assert(added[i] == list[i - 1]);
        }
    }
}

/// The player stops after its wait exactly when a song with another play id
/// has been made current.
pub proof fn lemma_player_stops_on_switch(current: Option<PlayableMusic>, play_id: Option<u128>)
    ensures
        !keeps_playing_spec(current, play_id) <==> (current matches Some(pm) && pm.music.play_id
            != play_id),
{
}

impl Room {
    /// The song that plays, if any, started at a valid point in time.
    pub open spec fn wf(self) -> bool {
        self.current_play matches Some(pm) ==> pm.start_time.wf()
    }

    /// An empty room: no users, no queue, nothing playing; `now` is the time
    /// of its last change, and its last person is the default name.
    pub fn new(now: Timestamp) -> (res: Room)
        ensures
            res.userlist@.len() == 0,
            res.musiclist@.len() == 0,
            res.last_time == now,
            res.last_person@ == "最後の初音ミク"@,
            res.current_play is None,
            res.wf(),
    {
        Room {
            userlist: Vec::new(),
            musiclist: Vec::new(),
            last_time: now,
            last_person: String::from_str("最後の初音ミク"),
            current_play: None,
        }
    }

    /// The queue and the song that plays, with the number of queued songs.
    pub fn get_play_list_serialize(&self) -> (res: Result<SerializePlayList, VocasyncError>)
        ensures
            res matches Ok(r) && r.total == self.musiclist@.len() && r.music_list@
                == self.musiclist@ && r.play_now == self.current_play,
    {
        let music_list = clone_music_list(&self.musiclist);
        let play_now = match &self.current_play {
            Some(pm) => Some(pm.clone()),
            None => None,
        };
        let total = music_list.len() as u64;
        Ok(SerializePlayList { total, music_list, play_now })
    }

    /// The song that plays and how many whole seconds of it have passed at
    /// `now`; fails where the song started after `now`.
    pub fn get_current_play_serialize(&self, now: Timestamp) -> (res: Result<
        SerializePlayableMusic,
        VocasyncError,
    >)
        requires
            self.wf(),
            now.wf(),
        ensures
            match self.current_play {
                None => res matches Ok(r) && r.music is None && r.position is None && !r.is_play,
                Some(pm) => if pm.start_time.total_nanos() <= now.total_nanos() {
                    res matches Ok(r) && r.music == Some(pm.music) && r.is_play && r.position
                        == Some(
                        ((now.total_nanos() - pm.start_time.total_nanos()) / 1_000_000_000) as u64,
                    )
                } else {
                    res matches Err(e) && e.0@ == ErrorKind::StartInFuture.spec_message()
                },
            },
    {
        match &self.current_play {
            Some(pm) => match now.duration_since(pm.start_time) {
                Some(d) => {
                    let music = pm.music.clone();
                    Ok(SerializePlayableMusic { music: Some(music), position: Some(d.secs), is_play: true })
                },
                None => Err(VocasyncError::from_kind(ErrorKind::StartInFuture)),
            },
            None => Ok(SerializePlayableMusic { music: None, position: None, is_play: false }),
        }
    }

    /// Queues `music`, asked for by `requester`, under the play id
    /// `play_id`, at the front of the queue.
    pub fn add_music_with_play_id(&mut self, music: Music, requester: u128, play_id: u128)
        ensures
            final(self).musiclist@ == after_add(old(self).musiclist@, music, requester, play_id),
            final(self).musiclist@.len() == old(self).musiclist@.len() + 1,
            final(self).musiclist@.drop_first() == old(self).musiclist@,
            final(self).musiclist@[0] == (Music {
                play_id: Some(play_id),
                requester: Some(requester),
                ..music
            }),
            final(self).current_play == old(self).current_play,
            final(self).userlist == old(self).userlist,
            final(self).last_time == old(self).last_time,
            final(self).last_person == old(self).last_person,
    {
        let mut m = music;
        m.play_id = Some(play_id);
        m.requester = Some(requester);
        assert(m == requested(music, requester, play_id));
        self.musiclist.insert(0, m);
        assert(self.musiclist@ =~= after_add(old(self).musiclist@, music, requester, play_id));
    }

    /// Queues `music`, asked for by `requester`, at the front of the queue,
    /// under a new random play id.
    pub fn add_music(&mut self, music: Music, requester: u128)
        ensures
            exists|p: u128|
                is_random_uuid(p) && final(self).musiclist@ == after_add(
                    old(self).musiclist@,
                    music,
                    requester,
                    p,
                ),
            final(self).musiclist@.len() == old(self).musiclist@.len() + 1,
            final(self).musiclist@.drop_first() == old(self).musiclist@,
            final(self).musiclist@[0].play_id matches Some(p) && is_random_uuid(p),
            final(self).musiclist@[0] == (Music {
                play_id: final(self).musiclist@[0].play_id,
                requester: Some(requester),
                ..music
            }),
            final(self).current_play == old(self).current_play,
            final(self).userlist == old(self).userlist,
            final(self).last_time == old(self).last_time,
            final(self).last_person == old(self).last_person,
    {
        let play_id = new_random_uuid();
        self.add_music_with_play_id(music, requester, play_id);
    }

    /// Moves the first queued song with the play id of `music` to the top of
    /// the queue, where it plays next; fails, changing nothing, where no
    /// queued song has that play id.
    pub fn move_top(&mut self, music: Music) -> (res: Result<(), VocasyncError>)
        ensures
            res is Ok <==> has_play_id(old(self).musiclist@, music.play_id),
            res is Ok ==> exists|p: int|
                first_with_play_id(old(self).musiclist@, music.play_id, p) && final(self).musiclist@
                    == moved_to_top(old(self).musiclist@, p),
            res matches Err(e) ==> final(self).musiclist@ == old(self).musiclist@ && e.0@
                == ErrorKind::MusicNotFound.spec_message(),
            final(self).current_play == old(self).current_play,
            final(self).userlist == old(self).userlist,
            final(self).last_time == old(self).last_time,
            final(self).last_person == old(self).last_person,
    {
        let mut i: usize = 0;
        while i < self.musiclist.len()
            invariant
                0 <= i <= self.musiclist@.len(),
                self.musiclist@ == old(self).musiclist@,
                self.current_play == old(self).current_play,
                self.userlist == old(self).userlist,
                self.last_time == old(self).last_time,
                self.last_person == old(self).last_person,
                forall|j: int| 0 <= j < i ==> #[trigger] self.musiclist@[j].play_id != music.play_id,
            decreases self.musiclist@.len() - i,
        {
            if self.musiclist[i].play_id == music.play_id {
                let ghost before = self.musiclist@;
                let removed = self.musiclist.remove(i);
                self.musiclist.push(removed);
                assert(first_with_play_id(before, music.play_id, i as int));
                assert(self.musiclist@ =~= moved_to_top(before, i as int));
                return Ok(());
            }
            i = i + 1;
        }
        Err(VocasyncError::from_kind(ErrorKind::MusicNotFound))
    }

    /// One step of the player: takes the song at the end of the queue and
    /// makes it the song that plays, started at `now`, and says how long to
    /// wait (its length and one second, where that fits); where the queue is
    /// empty, nothing plays any more.
    pub fn play_next(&mut self, now: Timestamp) -> (res: PlayStep)
        requires
            now.wf(),
        ensures
            final(self).musiclist@ == after_play(old(self).musiclist@),
            match next_to_play(old(self).musiclist@) {
                Some(m) => {
                    &&& final(self).current_play == Some(PlayableMusic { music: m, start_time: now })
                    &&& res == PlayStep::Playing {
                        play_id: m.play_id,
                        wait: if m.duration.secs < u64::MAX {
                            Some(Span { secs: (m.duration.secs + 1) as u64, nanos: m.duration.nanos })
                        } else {
                            None
                        },
                    }
                },
                None => final(self).current_play is None && res == PlayStep::Stopped,
            },
            final(self).wf(),
            final(self).userlist == old(self).userlist,
            final(self).last_time == old(self).last_time,
            final(self).last_person == old(self).last_person,
    {
        match self.musiclist.pop() {
            Some(next_play) => {
                let play_id = next_play.play_id;
                let wait = if next_play.duration.secs < u64::MAX {
                    Some(next_play.duration.plus_one_second())
                } else {
                    None
                };
                self.current_play = Some(PlayableMusic { music: next_play, start_time: now });
                PlayStep::Playing { play_id, wait }
            },
            None => {
                self.current_play = None;
                PlayStep::Stopped
            },
        }
    }

    /// After the wait for the song with the play id `play_id`: whether the
    /// player goes on to the next song, which it does unless another song
    /// has been made current meanwhile.
    pub fn keeps_playing(&self, play_id: Option<u128>) -> (res: bool)
        ensures
            res == keeps_playing_spec(self.current_play, play_id),
    {
        match &self.current_play {
            Some(before) => before.music.play_id == play_id,
            None => true,
        }
    }

    /// Nothing plays: a new request should start the player.
    pub fn is_idle(&self) -> (res: bool)
        ensures
            res == (self.current_play is None),
    {
        self.current_play.is_none()
    }
}

} // verus!
