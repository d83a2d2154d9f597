use vocasync::music::{test_music, Music};
use vocasync::room::{PlayStep, Room};
use vocasync::time::{Span, Timestamp};

fn song(title: &str, secs: u64) -> Music {
    Music {
        uuid: 1,
        source: None,
        url: None,
        url_timeout: None,
        cover: None,
        title: title.to_string(),
        album: None,
        artist: None,
        year: None,
        play_id: None,
        requester: None,
        duration: Span::from_secs(secs),
    }
}

fn at(secs: u64) -> Timestamp {
    Timestamp { secs, nanos: 0 }
}

fn titles(room: &Room) -> Vec<String> {
    room.musiclist.iter().map(|m| m.title.clone()).collect()
}

#[test]
fn new_room_is_empty() {
    let room = Room::new(at(100));
    assert!(room.userlist.is_empty());
    assert!(room.musiclist.is_empty());
    assert_eq!(room.last_time, at(100));
    assert_eq!(room.last_person, "最後の初音ミク");
    assert!(room.current_play.is_none());
    assert!(room.is_idle());
}

#[test]
fn requests_go_to_the_front_with_play_id_and_requester() {
    let mut room = Room::new(at(0));
    room.add_music_with_play_id(song("a", 1), 7, 11);
    room.add_music_with_play_id(song("b", 1), 8, 12);
    assert_eq!(titles(&room), vec!["b", "a"]);
    assert_eq!(room.musiclist[0].play_id, Some(12));
    assert_eq!(room.musiclist[0].requester, Some(8));
    assert_eq!(room.musiclist[1].play_id, Some(11));
    assert_eq!(room.musiclist[1].requester, Some(7));
}

#[test]
fn add_music_gives_fresh_play_ids() {
    let mut room = Room::new(at(0));
    room.add_music(song("a", 1), 7);
    room.add_music(song("a", 1), 7);
    let p0 = room.musiclist[0].play_id.unwrap();
    let p1 = room.musiclist[1].play_id.unwrap();
    assert_ne!(p0, p1);
    assert_eq!((p0 >> 76) & 0xf, 4);
    assert_eq!(room.musiclist[0].requester, Some(7));
}

#[test]
fn songs_play_in_request_order() {
    let mut room = Room::new(at(0));
    room.add_music_with_play_id(song("a", 3), 1, 10);
    room.add_music_with_play_id(song("b", 4), 1, 20);
    room.add_music_with_play_id(song("c", 5), 1, 30);
    let mut order = Vec::new();
    let mut t = 0;
    loop {
        match room.play_next(at(t)) {
            PlayStep::Playing { play_id, wait } => {
                let cur = room.current_play.as_ref().unwrap();
                assert_eq!(cur.music.play_id, play_id);
                assert_eq!(cur.start_time, at(t));
                let wait = wait.unwrap();
                assert_eq!(wait, Span { secs: cur.music.duration.secs + 1, nanos: 0 });
                assert!(room.keeps_playing(play_id));
                order.push(cur.music.title.clone());
                t += wait.secs;
            }
            PlayStep::Stopped => break,
        }
    }
    assert_eq!(order, vec!["a", "b", "c"]);
    assert!(room.current_play.is_none());
    assert!(room.is_idle());
}

#[test]
fn move_top_makes_a_song_play_next() {
    let mut room = Room::new(at(0));
    room.add_music_with_play_id(song("a", 1), 1, 10);
    room.add_music_with_play_id(song("b", 1), 1, 20);
    room.add_music_with_play_id(song("c", 1), 1, 30);
    assert_eq!(titles(&room), vec!["c", "b", "a"]);
    let mut wanted = song("whatever", 0);
    wanted.play_id = Some(30);
    assert!(room.move_top(wanted).is_ok());
    assert_eq!(titles(&room), vec!["b", "a", "c"]);
    match room.play_next(at(0)) {
        PlayStep::Playing { play_id, .. } => assert_eq!(play_id, Some(30)),
        PlayStep::Stopped => panic!("expected a song"),
    }
    assert_eq!(titles(&room), vec!["b", "a"]);
}

#[test]
fn move_top_of_unknown_song_fails() {
    let mut room = Room::new(at(0));
    room.add_music_with_play_id(song("a", 1), 1, 10);
    let mut wanted = song("x", 0);
    wanted.play_id = Some(99);
    let err = room.move_top(wanted).unwrap_err();
    assert_eq!(err.0, "Can not find music");
    assert_eq!(titles(&room), vec!["a"]);
    let mut none = song("y", 0);
    none.play_id = None;
    assert!(room.move_top(none).is_err());
}

#[test]
fn move_top_takes_the_first_match() {
    let mut room = Room::new(at(0));
    room.musiclist.push(song("x", 1));
    room.musiclist.push(song("y", 1));
    room.musiclist.push(song("z", 1));
    // none of them has a play id: the first one without one is moved
    assert!(room.move_top(song("q", 0)).is_ok());
    assert_eq!(titles(&room), vec!["y", "z", "x"]);
}

#[test]
fn player_stops_when_another_song_is_current() {
    let mut room = Room::new(at(0));
    room.add_music_with_play_id(song("a", 1), 1, 10);
    room.add_music_with_play_id(song("b", 1), 1, 20);
    let first = match room.play_next(at(0)) {
        PlayStep::Playing { play_id, .. } => play_id,
        PlayStep::Stopped => panic!("expected a song"),
    };
    // a second player takes the next song meanwhile
    let _ = room.play_next(at(1));
    assert!(!room.keeps_playing(first));
    room.current_play = None;
    assert!(room.keeps_playing(first));
}

#[test]
fn empty_queue_stops_the_player() {
    let mut room = Room::new(at(0));
    room.add_music_with_play_id(song("a", 1), 1, 10);
    let _ = room.play_next(at(0));
    assert!(!room.is_idle());
    match room.play_next(at(5)) {
        PlayStep::Stopped => {}
        PlayStep::Playing { .. } => panic!("queue was empty"),
    }
    assert!(room.current_play.is_none());
}

#[test]
fn current_play_reports_position() {
    let mut room = Room::new(at(0));
    let nothing = room.get_current_play_serialize(at(3)).unwrap();
    assert!(!nothing.is_play);
    assert!(nothing.music.is_none());
    assert!(nothing.position.is_none());

    room.add_music_with_play_id(song("a", 200), 1, 10);
    let _ = room.play_next(Timestamp { secs: 100, nanos: 500_000_000 });
    let r = room.get_current_play_serialize(Timestamp { secs: 161, nanos: 400_000_000 }).unwrap();
    assert!(r.is_play);
    assert_eq!(r.position, Some(60));
    assert_eq!(r.music.unwrap().title, "a");
    let r = room.get_current_play_serialize(Timestamp { secs: 161, nanos: 500_000_000 }).unwrap();
    assert_eq!(r.position, Some(61));
    let err = room.get_current_play_serialize(at(99)).unwrap_err();
    assert_eq!(err.0, "second time provided was later than self");
}

#[test]
fn play_list_reports_queue_and_current() {
    let mut room = Room::new(at(0));
    room.add_music_with_play_id(song("a", 1), 1, 10);
    room.add_music_with_play_id(song("b", 1), 1, 20);
    room.add_music_with_play_id(song("c", 1), 1, 30);
    let _ = room.play_next(at(0));
    let list = room.get_play_list_serialize().unwrap();
    assert_eq!(list.total, 2);
    let names: Vec<String> = list.music_list.iter().map(|m| m.title.clone()).collect();
    assert_eq!(names, vec!["c", "b"]);
    assert_eq!(list.play_now.unwrap().music.title, "a");
}

#[test]
fn test_song_is_short_local_sample() {
    for _ in 0..20 {
        let m = test_music();
        assert_eq!(m.title, "初音ミクの消失");
        assert_eq!(m.url.as_deref(), Some("http://localhost:11451"));
        assert!(m.duration.secs < 10);
        assert_eq!(m.duration.nanos, 0);
        assert!(m.play_id.is_some());
        assert_ne!(Some(m.uuid), m.play_id);
        assert!(m.requester.is_none());
        assert_eq!((m.uuid >> 76) & 0xf, 4);
    }
}

#[test]
fn longest_song_starts_but_has_no_wait() {
    let mut room = Room::new(at(0));
    let mut m = song("endless", 0);
    m.duration = Span { secs: u64::MAX, nanos: 5 };
    room.add_music_with_play_id(m, 1, 10);
    match room.play_next(at(3)) {
        PlayStep::Playing { play_id, wait } => {
            assert_eq!(play_id, Some(10));
            assert!(wait.is_none());
        }
        PlayStep::Stopped => panic!("expected a song"),
    }
    assert_eq!(room.current_play.as_ref().unwrap().music.title, "endless");
    assert!(room.musiclist.is_empty());
}

#[test]
fn skip_stops_the_waiting_player_and_playing_song_leaves_queue() {
    let mut room = Room::new(at(0));
    room.add_music_with_play_id(song("a", 100), 1, 10);
    room.add_music_with_play_id(song("b", 100), 1, 20);
    let first = match room.play_next(at(0)) {
        PlayStep::Playing { play_id, .. } => play_id,
        PlayStep::Stopped => panic!("expected a song"),
    };
    assert!(room.musiclist.iter().all(|m| m.play_id != first));
    // a second player skips to the next song
    let second = match room.play_next(at(5)) {
        PlayStep::Playing { play_id, .. } => play_id,
        PlayStep::Stopped => panic!("expected a song"),
    };
    assert_eq!(second, Some(20));
    assert_eq!(room.current_play.as_ref().unwrap().music.play_id, Some(20));
    assert!(!room.keeps_playing(first));
    assert!(room.keeps_playing(second));
    assert!(room.musiclist.is_empty());
}
