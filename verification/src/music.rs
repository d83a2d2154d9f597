//! Songs, the song that is playing, and what the room reports of them.

use vstd::prelude::*;
use crate::ids::{is_random_uuid, new_random_uuid};
use crate::source::{clone_opt_source, clone_opt_string, Source};
use crate::time::{Span, Timestamp};
use rand::Rng;

verus! {

/// A song of the room.  `play_id` tells one request of it from another;
/// `requester` is the user who asked for it.
#[derive(Debug)]
pub struct Music {
    pub uuid: u128,
    pub source: Option<Source>,
    pub url: Option<String>,
    pub url_timeout: Option<Timestamp>,
    pub cover: Option<String>,
    pub title: String,
    pub album: Option<String>,
    pub artist: Option<String>,
    pub year: Option<String>,
    pub play_id: Option<u128>,
    pub requester: Option<u128>,
    pub duration: Span,
}

impl Clone for Music {
    fn clone(&self) -> (res: Self)
        ensures
            res == *self,
    {
        Music {
            uuid: self.uuid,
            source: clone_opt_source(&self.source),
            url: clone_opt_string(&self.url),
            url_timeout: self.url_timeout,
            cover: clone_opt_string(&self.cover),
            title: self.title.clone(),
            album: clone_opt_string(&self.album),
            artist: clone_opt_string(&self.artist),
            year: clone_opt_string(&self.year),
            play_id: self.play_id,
            requester: self.requester,
            duration: self.duration,
        }
    }
}

/// The song that is playing, and when it started.
#[derive(Debug)]
pub struct PlayableMusic {
    pub music: Music,
    pub start_time: Timestamp,
}

impl Clone for PlayableMusic {
    fn clone(&self) -> (res: Self)
        ensures
            res == *self,
    {
        PlayableMusic { music: self.music.clone(), start_time: self.start_time }
    }
}

/// What the room reports of the song that is playing: the song and how many
/// whole seconds of it have been played, or that nothing plays.
#[derive(Debug)]
pub struct SerializePlayableMusic {
    pub music: Option<Music>,
    pub position: Option<u64>,
    pub is_play: bool,
}

/// What the room reports of its queue: the number of queued songs, the
/// queue, and the song that is playing.
#[derive(Debug)]
pub struct SerializePlayList {
    pub total: u64,
    pub music_list: Vec<Music>,
    pub play_now: Option<PlayableMusic>,
}

/// A copy of a list of songs.
pub fn clone_music_list(list: &Vec<Music>) -> (res: Vec<Music>)
    ensures
        res@ == list@,
{
    let mut res: Vec<Music> = Vec::new();
    let mut i: usize = 0;
    while i < list.len()
        invariant
            0 <= i <= list.len(),
            res@ == list@.take(i as int),
        decreases list.len() - i,
    {
        res.push(list[i].clone());
        assert(res@ =~= list@.take(i + 1));
        i = i + 1;
    }
    assert(list@.take(i as int) =~= list@);
    res
}

/// Calls `rand::thread_rng().gen_range(0..10)` for a `u64`: a random
/// number of seconds in `0..10`, each equally likely.
#[verifier::external_body]
fn random_secs_below_ten() -> (res: u64)
    ensures
        res < 10,
{
    rand::thread_rng().gen_range(0..10)
}

/// The song the room's test route queues: a sample with a local URL, a new
/// random UUID and play id, and a random length of 0 to 9 whole seconds.
pub fn test_music() -> (res: Music)
    ensures
        is_random_uuid(res.uuid),
        res.source is None,
        res.url matches Some(u) && u@ == "http://localhost:11451"@,
        res.url_timeout is None,
        res.cover is None,
        res.title@ == "初音ミクの消失"@,
        res.album is None,
        res.artist is None,
        res.year is None,
        res.play_id matches Some(p) && is_random_uuid(p),
        res.requester is None,
        res.duration.secs < 10,
        res.duration.nanos == 0,
{
    let uuid = new_random_uuid();
    let url = String::from_str("http://localhost:11451");
    let title = String::from_str("初音ミクの消失");
    let play_id = new_random_uuid();
    let secs = random_secs_below_ten();
    Music {
        uuid,
        source: None,
        url: Some(url),
        url_timeout: None,
        cover: None,
        title,
        album: None,
        artist: None,
        year: None,
        play_id: Some(play_id),
        requester: None,
        duration: Span::from_secs(secs),
    }
}

} // verus!
