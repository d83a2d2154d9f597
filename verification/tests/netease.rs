use vocasync::api::netease::{LoginAction, MusicParse, NeteaseApi, ParseAction};
use vocasync::json::{Json, JsonEntry, JsonKind};
use vocasync::source::SourceKind;

fn conv(v: &serde_json::Value) -> Json {
    let kind = match v {
        serde_json::Value::Null => JsonKind::Null,
        serde_json::Value::Bool(b) => JsonKind::Bool(*b),
        serde_json::Value::Number(n) => JsonKind::Number(n.as_u64()),
        serde_json::Value::String(s) => JsonKind::Str(s.clone()),
        serde_json::Value::Array(a) => JsonKind::Array(a.iter().map(conv).collect()),
        serde_json::Value::Object(m) => JsonKind::Object(
            m.iter().map(|(k, x)| JsonEntry { key: k.clone(), value: conv(x) }).collect(),
        ),
    };
    Json { kind, text: v.to_string() }
}

fn parse(s: &str) -> Json {
    conv(&serde_json::from_str::<serde_json::Value>(s).unwrap())
}

fn api() -> NeteaseApi {
    let mut a = NeteaseApi::init("http://n".to_string(), "138".to_string(), "pw".to_string()).unwrap();
    a.cookie = "CK".to_string();
    a
}

#[test]
fn init_starts_logged_out() {
    let a = NeteaseApi::init("u".to_string(), "p".to_string(), "w".to_string()).unwrap();
    assert_eq!(a.url, "u");
    assert_eq!(a.phone_num, "p");
    assert_eq!(a.password, "w");
    assert_eq!(a.cookie, "");
}

#[test]
fn request_urls() {
    let a = api();
    assert_eq!(a.song_detail_url(&"1308258153".to_string()), "http://n/song/detail?ids=1308258153&cookie=CK");
    assert_eq!(
        a.search_user_url(&"miku".to_string()),
        "http://n/search?realIP=183.232.239.22&type=1002&keywords=miku&cookie=CK"
    );
    assert_eq!(
        a.user_playlist_url(&"9".to_string()),
        "http://n/user/playlist?realIP=183.232.239.22&uid=9&cookie=CK"
    );
    assert_eq!(
        a.playlist_tracks_url(&"5".to_string(), 20),
        "http://n/playlist/track/all?realIP=183.232.239.22&id=5&limit=10&offset=20&cookie=CK"
    );
    assert_eq!(a.phone_login_url(), "http://n/login/cellphone?realIP=183.232.239.22&phone=138&password=pw");
    assert_eq!(
        a.check_cookie_url(&Some("X".to_string()), 1700000000).unwrap(),
        "http://n/user/account?realIP=183.232.239.22&timestamp=1700000000&cookie=X"
    );
    assert_eq!(
        a.check_cookie_url(&None, 1).unwrap_err().0,
        "Please check your cookie.txt"
    );
}

#[test]
fn cookie_check_reads_profile() {
    assert!(NeteaseApi::check_cookie(&parse(r#"{"profile":{"userId":1}}"#)).is_ok());
    assert!(NeteaseApi::check_cookie(&parse(r#"{"profile":null}"#)).is_err());
    let e = NeteaseApi::check_cookie(&parse(r#"{"code":200}"#)).unwrap_err();
    assert_eq!(e.0, "Please check your cookie.txt");
    assert!(NeteaseApi::check_cookie(&parse(r#"[1,2]"#)).is_err());
}

const SONG: &str = r#"{"id":1308258153,"name":"Tell Your World","dt":253000,
    "al":{"name":"Album","picUrl":"http://p/c.jpg"},"ar":[{"name":"livetune"},{"name":"x"}]}"#;

#[test]
fn song_becomes_music() {
    let m = NeteaseApi::music_from_song(&parse(SONG), 42).unwrap();
    assert_eq!(m.uuid, 42);
    let src = m.source.clone().unwrap();
    assert_eq!(src.id, "1308258153");
    assert_eq!(src.kind, SourceKind::Netease);
    assert_eq!(m.title, "Tell Your World");
    assert_eq!(m.cover.as_deref(), Some("http://p/c.jpg"));
    assert_eq!(m.album.as_deref(), Some("Album"));
    assert_eq!(m.artist.as_deref(), Some("livetune"));
    assert_eq!(m.duration.secs, 253);
    assert_eq!(m.duration.nanos, 0);
    assert!(m.url.is_none());
    assert!(m.play_id.is_none());
}

#[test]
fn song_with_optional_parts_missing() {
    let m = NeteaseApi::music_from_song(&parse(r#"{"id":1,"name":"n","dt":1500,"ar":[]}"#), 0).unwrap();
    assert!(m.cover.is_none());
    assert!(m.album.is_none());
    assert!(m.artist.is_none());
    assert_eq!(m.duration.secs, 1);
    assert_eq!(m.duration.nanos, 500_000_000);
}

#[test]
fn song_errors_in_order() {
    let e = NeteaseApi::music_from_song(&parse(r#"{"name":"n"}"#), 0).unwrap_err();
    assert_eq!(e.0, "Missing song id");
    let e = NeteaseApi::music_from_song(&parse(r#"{"id":"1","name":"n","dt":1}"#), 0).unwrap_err();
    assert_eq!(e.0, "Missing song id");
    let e = NeteaseApi::music_from_song(&parse(r#"{"id":1,"dt":1}"#), 0).unwrap_err();
    assert_eq!(e.0, "Missing song name");
    let e = NeteaseApi::music_from_song(&parse(r#"{"id":1,"name":"n","dt":-1}"#), 0).unwrap_err();
    assert_eq!(e.0, "Missing song duration");
}

#[test]
fn song_url_reply() {
    let m = NeteaseApi::music_from_song(&parse(SONG), 1).unwrap();
    let a = api();
    assert_eq!(
        a.parse_music_url_request(&m),
        "http://n/song/url?realIP=183.232.239.22&id=1308258153&cookie=CK"
    );
    let ok = parse(r#"{"code":200,"data":[{"url":"http://u/1.mp3"}]}"#);
    assert!(NeteaseApi::song_url_reply_ok(&ok));
    let m2 = NeteaseApi::parse_music_url(m.clone(), &ok).unwrap();
    assert_eq!(m2.url.as_deref(), Some("http://u/1.mp3"));
    assert_eq!(m2.title, m.title);

    let refused = parse(r#"{"code":404}"#);
    assert!(NeteaseApi::song_url_reply_ok(&refused));
    assert_eq!(NeteaseApi::parse_music_url(m.clone(), &refused).unwrap_err().0, "Get song failed!");

    let no_url = parse(r#"{"code":200,"data":[{"id":1}]}"#);
    assert!(NeteaseApi::song_url_reply_ok(&no_url));
    assert_eq!(NeteaseApi::parse_music_url(m.clone(), &no_url).unwrap_err().0, "Get song failed!");

    assert!(!NeteaseApi::song_url_reply_ok(&parse(r#"{"data":[]}"#)));
    assert!(!NeteaseApi::song_url_reply_ok(&parse(r#"{"code":200,"data":[]}"#)));
    assert!(!NeteaseApi::song_url_reply_ok(&parse(r#"{"code":200,"data":[{"url":null}]}"#)));
}

#[test]
fn song_list_is_read_in_order() {
    let a = api();
    let reply = parse(
        r#"{"code":200,"songs":[{"id":1,"name":"one","dt":1000},{"id":2,"name":"two","dt":2000}]}"#,
    );
    let mut p = MusicParse::start(reply).unwrap();
    let mut urls = Vec::new();
    loop {
        match p.next_action(&a) {
            ParseAction::FetchUrl(u) => {
                urls.push(u.clone());
                let n = urls.len();
                let r = parse(&format!(r#"{{"code":200,"data":[{{"url":"http://u/{}.mp3"}}]}}"#, n));
                p.on_url_reply(&r).unwrap();
            }
            ParseAction::Finished => break,
            ParseAction::Failed(e) => panic!("{}", e.0),
        }
    }
    assert_eq!(
        urls,
        vec![
            "http://n/song/url?realIP=183.232.239.22&id=1&cookie=CK",
            "http://n/song/url?realIP=183.232.239.22&id=2&cookie=CK"
        ]
    );
    let list = p.into_musics();
    assert_eq!(list.len(), 2);
    assert_eq!(list[0].title, "one");
    assert_eq!(list[0].url.as_deref(), Some("http://u/1.mp3"));
    assert_eq!(list[1].title, "two");
    assert_eq!(list[1].url.as_deref(), Some("http://u/2.mp3"));
    assert_ne!(list[0].uuid, list[1].uuid);
}

#[test]
fn song_list_failures() {
    assert_eq!(MusicParse::start(parse(r#"{"code":200}"#)).err().unwrap().0, "Invalid response format");
    assert_eq!(MusicParse::start(parse(r#"{"songs":{}}"#)).err().unwrap().0, "Invalid response format");
    let a = api();
    let mut p = MusicParse::start(parse(r#"{"songs":[{"id":1,"dt":1}]}"#)).unwrap();
    match p.next_action(&a) {
        ParseAction::Failed(e) => assert_eq!(e.0, "Missing song name"),
        _ => panic!("expected a failure"),
    }
    let mut p = MusicParse::start(parse(r#"{"songs":[]}"#)).unwrap();
    assert!(matches!(p.next_action(&a), ParseAction::Finished));
    assert!(p.into_musics().is_empty());
}

#[test]
fn song_detail_checks() {
    let ok = parse(r#"{"code":200,"songs":[{"id":1}]}"#);
    assert!(NeteaseApi::song_detail_reply_ok(&ok));
    assert!(NeteaseApi::check_song_detail(&ok).is_ok());
    let empty = parse(r#"{"code":200,"songs":[]}"#);
    assert_eq!(NeteaseApi::check_song_detail(&empty).unwrap_err().0, "Song not found");
    let refused = parse(r#"{"code":400}"#);
    assert!(NeteaseApi::song_detail_reply_ok(&refused));
    assert_eq!(NeteaseApi::check_song_detail(&refused).unwrap_err().0, "Song not found");
    assert!(!NeteaseApi::song_detail_reply_ok(&parse(r#"{"code":200}"#)));
    assert!(!NeteaseApi::song_detail_reply_ok(&parse(r#"{}"#)));
}

#[test]
fn music_list_check() {
    assert!(NeteaseApi::reply_has_code(&parse(r#"{"code":1}"#)));
    assert!(!NeteaseApi::reply_has_code(&parse(r#"{"code":"1"}"#)));
    assert!(NeteaseApi::check_music_list(&parse(r#"{"code":200}"#)).is_ok());
    assert_eq!(
        NeteaseApi::check_music_list(&parse(r#"{"code":301}"#)).unwrap_err().0,
        "Get music list failed!"
    );
}

#[test]
fn user_search_reply() {
    let r = parse(
        r#"{"code":200,"result":{"userprofiles":[
            {"avatarUrl":"http://a/1.png","userId":77,"nickname":"miku"},
            {"avatarUrl":"http://a/2.png","userId":78,"nickname":"rin"}]}}"#,
    );
    assert!(NeteaseApi::search_reply_ok(&r));
    let users = NeteaseApi::search_user(&r).unwrap();
    assert_eq!(users.len(), 2);
    assert_eq!(users[0].avatar.as_deref(), Some("\"http://a/1.png\""));
    assert_eq!(users[0].name, "\"miku\"");
    let src = users[0].source.clone().unwrap();
    assert_eq!(src.id, "77");
    assert_eq!(src.kind, SourceKind::Netease);
    assert_eq!(users[1].name, "\"rin\"");
    assert_ne!(users[0].id, users[1].id);

    let none = parse(r#"{"code":200,"result":{}}"#);
    assert!(NeteaseApi::search_user(&none).unwrap().is_empty());
    let refused = parse(r#"{"code":500}"#);
    assert_eq!(NeteaseApi::search_user(&refused).unwrap_err().0, "Search User failed!");
    assert!(!NeteaseApi::search_reply_ok(&parse(
        r#"{"code":200,"result":{"userprofiles":[{"userId":1,"nickname":"n"}]}}"#
    )));
    assert!(!NeteaseApi::search_reply_ok(&parse(r#"{}"#)));
}

#[test]
fn user_playlist_reply() {
    let r = parse(r#"{"code":200,"playlist":[{"id":5,"name":"fav"},{"id":6,"name":"mix"}]}"#);
    assert!(NeteaseApi::playlist_reply_ok(&r));
    let lists = NeteaseApi::get_user_playlist(&r).unwrap();
    assert_eq!(lists.len(), 2);
    assert_eq!(lists[0].source.id, "5");
    assert_eq!(lists[0].name, "\"fav\"");
    assert_eq!(lists[1].source.kind, SourceKind::Netease);
    let refused = parse(r#"{"code":404}"#);
    assert_eq!(NeteaseApi::get_user_playlist(&refused).unwrap_err().0, "Get user playlist failed!");
    assert!(!NeteaseApi::playlist_reply_ok(&parse(r#"{"code":200}"#)));
    assert!(!NeteaseApi::playlist_reply_ok(&parse(r#"{"code":200,"playlist":[{"id":1}]}"#)));
}

#[test]
fn login_with_stored_cookie() {
    let mut a = api();
    match a.login_plan(Some("MUSIC_U=1".to_string()), 5) {
        LoginAction::CheckCookie { cookie, url } => {
            assert_eq!(cookie, "MUSIC_U=1");
            assert_eq!(url, "http://n/user/account?realIP=183.232.239.22&timestamp=5&cookie=MUSIC_U=1");
            let good = parse(r#"{"profile":{"nickname":"m"}}"#);
            assert!(a.finish_cookie_login(cookie, Some(&good)).is_ok());
            assert_eq!(a.cookie, "MUSIC_U=1");
        }
        LoginAction::PhoneLogin { .. } => panic!("expected a cookie check"),
    }
    let mut b = api();
    let bad = parse(r#"{"profile":null}"#);
    assert_eq!(b.finish_cookie_login("x".to_string(), Some(&bad)).unwrap_err().0, "Login Failed!");
    assert_eq!(b.cookie, "CK");
    assert_eq!(b.finish_cookie_login("x".to_string(), None).unwrap_err().0, "Login Failed!");
}

#[test]
fn login_with_phone_number() {
    let mut a = api();
    match a.login_plan(None, 5) {
        LoginAction::PhoneLogin { url } => {
            assert_eq!(url, "http://n/login/cellphone?realIP=183.232.239.22&phone=138&password=pw");
        }
        LoginAction::CheckCookie { .. } => panic!("expected a phone login"),
    }
    let reply = parse(r#"{"code":200,"cookie":"MUSIC_U=abc"}"#);
    assert!(a.finish_phone_login(Some(&reply)).is_ok());
    assert_eq!(a.cookie, "\"MUSIC_U=abc\"");
    let mut b = api();
    assert_eq!(b.finish_phone_login(Some(&parse(r#"{"code":502}"#))).unwrap_err().0, "Login failed!");
    assert_eq!(b.finish_phone_login(None).unwrap_err().0, "Login failed!");
    let mut c = api();
    assert_eq!(c.phone_num_login(&parse(r#"{}"#)).unwrap_err().0, "Login failed");
    assert!(c.phone_num_login(&parse(r#"{"cookie":"k"}"#)).is_ok());
    assert_eq!(c.cookie, "\"k\"");
}

#[test]
fn one_song_reply_comes_back_with_its_url() {
    let a = api();
    let reply = parse(
        r#"{"songs":[{"id":1308258153,"name":"Miku","dt":240000,"al":{"name":"Alb","picUrl":"p.jpg"},"ar":[{"name":"Art"}]}]}"#,
    );
    let mut p = MusicParse::start(reply).unwrap();
    match p.next_action(&a) {
        ParseAction::FetchUrl(u) => {
            assert_eq!(u, "http://n/song/url?realIP=183.232.239.22&id=1308258153&cookie=CK");
            p.on_url_reply(&parse(r#"{"code":200,"data":[{"url":"m.mp3"}]}"#)).unwrap();
        }
        _ => panic!("expected a URL request"),
    }
    assert!(matches!(p.next_action(&a), ParseAction::Finished));
    let v = p.into_musics();
    assert_eq!(v.len(), 1);
    let m = &v[0];
    assert_eq!(m.duration.secs, 240);
    assert_eq!(m.duration.nanos, 0);
    let src = m.source.clone().unwrap();
    assert_eq!(src.id, "1308258153");
    assert_eq!(src.kind, SourceKind::Netease);
    assert_eq!(m.title, "Miku");
    assert_eq!(m.cover.as_deref(), Some("p.jpg"));
    assert_eq!(m.album.as_deref(), Some("Alb"));
    assert_eq!(m.artist.as_deref(), Some("Art"));
    assert_eq!(m.url.as_deref(), Some("m.mp3"));
    assert!(m.play_id.is_none());
    assert!(m.requester.is_none());
    assert_eq!((m.uuid >> 76) & 0xf, 4);
}
