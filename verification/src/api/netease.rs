//! The NetEase Cloud Music API server: the requests the room sends it and
//! what the room makes of its replies.  Sending a request and reading the
//! reply as JSON is left to the caller; every decision is made here.

use vstd::prelude::*;
use crate::error::{ErrorKind, VocasyncError};
use crate::ids::{is_random_uuid, new_random_uuid};
use crate::json::{opt_array, opt_field, opt_first, opt_str, opt_u64, Json};
use crate::music::Music;
use crate::source::{PlayList, Source, SourceKind};
use crate::text::{decimal, u64_to_decimal};
use crate::time::Span;
use crate::user::User;

verus! {

/// The account and the server the room talks to.  `cookie` is the login
/// cookie, empty until the room has logged in.
pub struct NeteaseApi {
    pub url: String,
    pub phone_num: String,
    pub password: String,
    pub cookie: String,
}

/// The text of an optional string.
pub open spec fn view_opt(o: Option<String>) -> Option<Seq<char>> {
    match o {
        Some(s) => Some(s@),
        None => None,
    }
}

/// The value an optional reference points to.
pub open spec fn opt_deref(o: Option<&Json>) -> Option<Json> {
    match o {
        Some(r) => Some(*r),
        None => None,
    }
}

/// The member `key` of the value in `o`, where it is an object.
fn opt_member<'a>(o: Option<&'a Json>, key: &str) -> (res: Option<&'a Json>)
    ensures
        opt_deref(res) == opt_field(opt_deref(o), key@),
{
    match o {
        Some(j) => j.member(key),
        None => None,
    }
}

/// A copy of the string in `o`.
fn opt_string(o: Option<&Json>) -> (res: Option<String>)
    ensures
        view_opt(res) == opt_str(opt_deref(o)),
{
    match o {
        Some(j) => match j.as_str() {
            Some(s) => Some(s.clone()),
            None => None,
        },
        None => None,
    }
}

/// The unsigned integer in `o`.
fn opt_number(o: Option<&Json>) -> (res: Option<u64>)
    ensures
        res == opt_u64(opt_deref(o)),
{
    match o {
        Some(j) => j.as_u64(),
        None => None,
    }
}

/// The first element of the array in `o`.
fn opt_first_element(o: Option<&Json>) -> (res: Option<&Json>)
    ensures
        opt_deref(res) == opt_first(opt_array(opt_deref(o))),
{
    match o {
        Some(j) => match j.as_array() {
            Some(v) => if v.len() > 0 {
                Some(&v[0])
            } else {
                None
            },
            None => None,
        },
        None => None,
    }
}

/// Whether `o` holds an array.
fn opt_array_present(o: Option<&Json>) -> (res: bool)
    ensures
        res == (opt_array(opt_deref(o)) is Some),
{
    match o {
        Some(j) => j.as_array().is_some(),
        None => false,
    }
}

/// The status code of a reply.
pub open spec fn reply_code(res: Json) -> Option<u64> {
    opt_u64(res.field("code"@))
}

/// The URL member of the first entry of the `data` array of a song URL
/// reply.
pub open spec fn song_url_member(res: Json) -> Option<Json> {
    opt_field(opt_first(opt_array(res.field("data"@))), "url"@)
}

/// A song URL reply can be read without a fault: it has a numeric code, and
/// where the code is 200, a non-empty `data` array whose first entry's
/// `url`, where present, is a string.
pub open spec fn song_url_reply_ok(res: Json) -> bool {
    &&& reply_code(res) is Some
    &&& reply_code(res) == Some(200u64) ==> {
        &&& opt_first(opt_array(res.field("data"@))) is Some
        &&& song_url_member(res) is Some ==> opt_str(song_url_member(res)) is Some
    }
}

/// The failure, if any, of turning `song` into a song of the room: the
/// first of its id, its name and its duration (in that order) that is
/// missing.
pub open spec fn song_failure(song: Json) -> Option<ErrorKind> {
    if opt_u64(song.field("id"@)) is None {
        Some(ErrorKind::MissingSongId)
    } else if opt_str(song.field("name"@)) is None {
        Some(ErrorKind::MissingSongName)
    } else if opt_u64(song.field("dt"@)) is None {
        Some(ErrorKind::MissingSongDuration)
    } else {
        None
    }
}

/// `m` is the song that `song` describes, but for its UUID and its URL: a
/// NetEase song whose id is the decimal text of the song's `id`, with the
/// cover `al.picUrl`, the title `name`, the album `al.name`, the artist
/// `ar[0].name`, the length `dt` in milliseconds, and no year, expiry, play
/// id or requester.
pub open spec fn is_song_of(m: Music, song: Json) -> bool {
    &&& song_failure(song) is None
    &&& m.source matches Some(src) && src.kind == SourceKind::Netease && src.id@ == decimal(
        opt_u64(song.field("id"@))->0 as nat,
    )
    &&& m.url_timeout is None
    &&& view_opt(m.cover) == opt_str(opt_field(song.field("al"@), "picUrl"@))
    &&& Some(m.title@) == opt_str(song.field("name"@))
    &&& view_opt(m.album) == opt_str(opt_field(song.field("al"@), "name"@))
    &&& view_opt(m.artist) == opt_str(opt_field(opt_first(opt_array(song.field("ar"@))), "name"@))
    &&& m.year is None
    &&& m.play_id is None
    &&& m.requester is None
    &&& m.duration.wf()
    &&& m.duration.total_nanos() == opt_u64(song.field("dt"@))->0 * 1_000_000
}

/// The first request of a login.
pub enum LoginAction {
    /// A cookie is stored: check it with the request at `url`.
    CheckCookie { cookie: String, url: String },
    /// No cookie is stored: log in with the phone number by the request at
    /// `url`.
    PhoneLogin { url: String },
}

/// The songs of a song list reply, where it lists songs.
pub open spec fn songs_of(res: Json) -> Option<Seq<Json>> {
    opt_array(res.field("songs"@))
}

/// The user profiles of a user search reply: the `userprofiles` array of
/// its `result` object, or none.
pub open spec fn profiles_of(res: Json) -> Seq<Json> {
    match opt_array(opt_field(res.field("result"@), "userprofiles"@)) {
        Some(a) => a,
        None => Seq::empty(),
    }
}

/// A user profile has an avatar URL, a user id and a nickname.
pub open spec fn profile_ok(p: Json) -> bool {
    &&& p.field("avatarUrl"@) is Some
    &&& p.field("userId"@) is Some
    &&& p.field("nickname"@) is Some
}

/// A user search reply can be read without a fault: it has a numeric code,
/// and where the code is 200, every listed profile is complete.
pub open spec fn search_reply_ok(res: Json) -> bool {
    &&& reply_code(res) is Some
    &&& reply_code(res) == Some(200u64) ==> forall|i: int|
        0 <= i < profiles_of(res).len() ==> profile_ok(#[trigger] profiles_of(res)[i])
}

/// `u` is the user that the profile `p` describes: a NetEase account whose
/// id, name and avatar are the JSON text of `userId`, `nickname` and
/// `avatarUrl`.
pub open spec fn is_user_of(u: User, p: Json) -> bool {
    &&& u.avatar matches Some(a) && a@ == p.field("avatarUrl"@)->0.text@
    &&& u.source matches Some(src) && src.kind == SourceKind::Netease && src.id@ == p.field(
        "userId"@,
    )->0.text@
    &&& u.name@ == p.field("nickname"@)->0.text@
}

/// A playlist entry has an id and a name.
pub open spec fn playlist_entry_ok(p: Json) -> bool {
    &&& p.field("id"@) is Some
    &&& p.field("name"@) is Some
}

/// A user playlist reply can be read without a fault: it has a numeric
/// code, and where the code is 200, a `playlist` array of complete entries.
pub open spec fn playlist_reply_ok(res: Json) -> bool {
    &&& reply_code(res) is Some
    &&& reply_code(res) == Some(200u64) ==> {
        &&& opt_array(res.field("playlist"@)) is Some
        &&& forall|i: int|
            0 <= i < opt_array(res.field("playlist"@))->0.len() ==> playlist_entry_ok(
                #[trigger] opt_array(res.field("playlist"@))->0[i],
            )
    }
}

/// `l` is the playlist that the entry `p` describes: a NetEase playlist
/// whose id and name are the JSON text of `id` and `name`.
pub open spec fn is_playlist_of(l: PlayList, p: Json) -> bool {
    &&& l.source.kind == SourceKind::Netease
    &&& l.source.id@ == p.field("id"@)->0.text@
    &&& l.name@ == p.field("name"@)->0.text@
}

/// A song detail reply can be checked without a fault: it has a numeric
/// code, and where the code is 200, a `songs` array.
pub open spec fn song_detail_reply_ok(res: Json) -> bool {
    &&& reply_code(res) is Some
    &&& reply_code(res) == Some(200u64) ==> songs_of(res) is Some
}

/// A song read from a song entry is what the entry says, member by
/// member: its NetEase id is the decimal text of `id`, its title `name`,
/// its album `al.name`, its cover `al.picUrl`, its artist `ar[0].name`, its
/// length `dt` milliseconds; it has no year, expiry, play id or requester,
/// whatever the album or other members are.
pub proof fn lemma_song_read_from_entry(m: Music, song: Json)
    requires
        is_song_of(m, song),
    ensures
        m.year is None,
        m.url_timeout is None,
        m.play_id is None,
        m.requester is None,
        song.field("id"@) matches Some(id) && id.u64_value() matches Some(n) && m.source matches Some(
            src,
        ) && src.kind == SourceKind::Netease && src.id@ == decimal(n as nat),
        song.field("name"@) matches Some(nm) && nm.str_value() == Some(m.title@),
        view_opt(m.album) == opt_str(opt_field(song.field("al"@), "name"@)),
        view_opt(m.cover) == opt_str(opt_field(song.field("al"@), "picUrl"@)),
        song.field("dt"@) matches Some(dt) && dt.u64_value() matches Some(ms)
            && m.duration.secs * 1_000_000_000 + m.duration.nanos == ms * 1_000_000,
        m.duration.nanos < 1_000_000_000,
{
}

/// A user read from a search profile carries the profile's own members:
/// its name is the JSON text of `nickname`, its avatar that of `avatarUrl`,
/// and its NetEase account id that of `userId`.
pub proof fn lemma_user_read_from_profile(u: User, p: Json)
    requires
        is_user_of(u, p),
    ensures
        p.field("nickname"@) matches Some(n) ==> u.name@ == n.text@,
        p.field("avatarUrl"@) matches Some(a) ==> (u.avatar matches Some(av) && av@ == a.text@),
        p.field("userId"@) matches Some(id) ==> (u.source matches Some(src) && src.id@ == id.text@
            && src.kind == SourceKind::Netease),
{
}

/// The profiles a search reply lists are exactly the elements of its
/// `result.userprofiles` array, however many there are; a reply without
/// that array lists none.
pub proof fn lemma_profiles_are_the_whole_array(res: Json)
    ensures
        opt_array(opt_field(res.field("result"@), "userprofiles"@)) matches Some(a) ==> profiles_of(res)
            == a && profiles_of(res).len() == a.len(),
        opt_array(opt_field(res.field("result"@), "userprofiles"@)) is None ==> profiles_of(res).len()
            == 0,
{
}

/// A search reply with a numeric code is readable exactly when, where the
/// code is 200, every element of its `result.userprofiles` array, to the
/// last, has an avatar URL, a user id and a nickname.
pub proof fn lemma_search_reply_readable(res: Json)
    ensures
        search_reply_ok(res) <==> (opt_u64(res.field("code"@)) is Some && (opt_u64(res.field("code"@))
            == Some(200u64) ==> (opt_array(opt_field(res.field("result"@), "userprofiles"@)) matches Some(a)
            ==> forall|i: int|
            0 <= i < a.len() ==> (#[trigger] a[i]).field("avatarUrl"@) is Some && a[i].field(
                "userId"@,
            ) is Some && a[i].field("nickname"@) is Some))),
{
    lemma_profiles_are_the_whole_array(res);
}

/// A playlist read from an entry of a user playlist reply has the entry's
/// own `id` as its NetEase id and the entry's `name` as its name, whatever
/// other members (such as the creator's `userId`) the entry has.
pub proof fn lemma_playlist_read_from_entry(l: PlayList, p: Json)
    requires
        is_playlist_of(l, p),
    ensures
        p.field("id"@) matches Some(id) ==> l.source.id@ == id.text@,
        p.field("name"@) matches Some(n) ==> l.name@ == n.text@,
        l.source.kind == SourceKind::Netease,
{
}

/// A song detail reply with code 200 and a `songs` array is readable,
/// whatever the array's length; when the array is empty, the check of the
/// reply then answers that the song was not found.
pub proof fn lemma_song_detail_readable_whatever_its_length(res: Json)
    requires
        opt_u64(res.field("code"@)) == Some(200u64),
        opt_array(res.field("songs"@)) is Some,
    ensures
        song_detail_reply_ok(res),
        opt_array(res.field("songs"@))->0.len() == 0 ==> !(reply_code(res) == Some(200u64)
            && songs_of(res)->0.len() > 0),
{
}

/// The failure of reading a song entry names the first missing member, in
/// the order id, name, duration, and there is none exactly when the entry
/// has a numeric `id`, a string `name` and a numeric `dt`.
pub proof fn lemma_song_failure_order(song: Json)
    ensures
        song_failure(song) is None <==> (opt_u64(song.field("id"@)) is Some && opt_str(
            song.field("name"@),
        ) is Some && opt_u64(song.field("dt"@)) is Some),
        opt_u64(song.field("id"@)) is None ==> song_failure(song) == Some(ErrorKind::MissingSongId),
        opt_u64(song.field("id"@)) is Some && opt_str(song.field("name"@)) is None ==> song_failure(
            song,
        ) == Some(ErrorKind::MissingSongName),
        opt_u64(song.field("id"@)) is Some && opt_str(song.field("name"@)) is Some && opt_u64(
            song.field("dt"@),
        ) is None ==> song_failure(song) == Some(ErrorKind::MissingSongDuration),
{
}

/// The URL a song URL reply gives is the `url` member of the first element
/// of its `data` array, and there is none where that array is missing or
/// empty.
pub proof fn lemma_song_url_is_first_entrys(res: Json)
    ensures
        opt_array(res.field("data"@)) matches Some(a) ==> (a.len() > 0 ==> song_url_member(res)
            == a[0].field("url"@)),
        opt_array(res.field("data"@)) matches Some(a) ==> (a.len() == 0 ==> song_url_member(res) is None),
        opt_array(res.field("data"@)) is None ==> song_url_member(res) is None,
{
}

/// A user playlist reply with a numeric code is readable exactly when,
/// where the code is 200, it has a `playlist` array every element of which,
/// to the last, has an `id` and a `name`.
pub proof fn lemma_playlist_reply_readable(res: Json)
    ensures
        playlist_reply_ok(res) <==> (opt_u64(res.field("code"@)) is Some && (opt_u64(
            res.field("code"@),
        ) == Some(200u64) ==> (opt_array(res.field("playlist"@)) matches Some(a) && forall|i: int|
            0 <= i < a.len() ==> (#[trigger] a[i]).field("id"@) is Some && a[i].field("name"@) is Some))),
{
}

impl NeteaseApi {
    /// A client of the server at `url` for the account of `phone_num` and
    /// `password`, not logged in yet.
    pub fn init(url: String, phone_num: String, password: String) -> (res: Result<
        NeteaseApi,
        VocasyncError,
    >)
        ensures
            res matches Ok(api) && api.url == url && api.phone_num == phone_num && api.password
                == password && api.cookie@.len() == 0,
    {
        Ok(NeteaseApi { url, phone_num, password, cookie: String::new() })
    }

    /// The song of the room that `song` describes, with the UUID `uuid` and
    /// no URL yet; fails on the first of id, name and duration that is
    /// missing.
    pub fn music_from_song(song: &Json, uuid: u128) -> (res: Result<Music, VocasyncError>)
        ensures
            match song_failure(*song) {
                Some(k) => res matches Err(e) && e.0@ == k.spec_message(),
                None => res matches Ok(m) && is_song_of(m, *song) && m.uuid == uuid && m.url is None,
            },
            res matches Ok(m) ==> {
                &&& m.year is None
                &&& m.play_id is None
                &&& m.requester is None
                &&& m.url_timeout is None
                &&& Some(m.title@) == opt_str(song.field("name"@))
                &&& view_opt(m.album) == opt_str(opt_field(song.field("al"@), "name"@))
                &&& view_opt(m.cover) == opt_str(opt_field(song.field("al"@), "picUrl"@))
            },
    {
        let id = match opt_number(song.member("id")) {
            Some(id) => id,
            None => return Err(VocasyncError::from_kind(ErrorKind::MissingSongId)),
        };
        let al = song.member("al");
        let cover = opt_string(opt_member(al, "picUrl"));
        let title = match opt_string(song.member("name")) {
            Some(t) => t,
            None => return Err(VocasyncError::from_kind(ErrorKind::MissingSongName)),
        };
        let album = opt_string(opt_member(al, "name"));
        let artist = opt_string(opt_member(opt_first_element(song.member("ar")), "name"));
        let dt = match opt_number(song.member("dt")) {
            Some(dt) => dt,
            None => return Err(VocasyncError::from_kind(ErrorKind::MissingSongDuration)),
        };
        Ok(
            Music {
                uuid,
                source: Some(Source { id: u64_to_decimal(id), kind: SourceKind::Netease }),
                url: None,
                url_timeout: None,
                cover,
                title,
                album,
                artist,
                year: None,
                play_id: None,
                requester: None,
                duration: Span::from_millis(dt),
            },
        )
    }

    /// The request that checks the login cookie `cookie` at the account
    /// route, stamped with the time `timestamp` in seconds.
    fn cookie_check_request(&self, cookie: &String, timestamp: u64) -> (res: String)
        ensures
            res@ == self.url@ + "/user/account?realIP=183.232.239.22&timestamp="@ + decimal(
                timestamp as nat,
            ) + "&cookie="@ + cookie@,
    {
        let mut u = self.url.clone();
        u.append("/user/account?realIP=183.232.239.22&timestamp=");
        let ts = u64_to_decimal(timestamp);
        u.append(ts.as_str());
        u.append("&cookie=");
        u.append(cookie.as_str());
        u
    }

    /// The request that checks a stored login cookie at the account route,
    /// stamped with the time `timestamp` in seconds; fails where there is
    /// no cookie.
    pub fn check_cookie_url(&self, cookie: &Option<String>, timestamp: u64) -> (res: Result<
        String,
        VocasyncError,
    >)
        ensures
            match cookie {
                Some(c) => res matches Ok(u) && u@ == self.url@ + "/user/account?realIP=183.232.239.22&timestamp="@
                    + decimal(timestamp as nat) + "&cookie="@ + c@,
                None => res matches Err(e) && e.0@ == ErrorKind::CheckCookie.spec_message(),
            },
    {
        match cookie {
            Some(c) => Ok(self.cookie_check_request(c, timestamp)),
            None => Err(VocasyncError::from_kind(ErrorKind::CheckCookie)),
        }
    }

    /// Reads the reply to a cookie check: the cookie is good where the reply
    /// has a `profile` that is not null.
    pub fn check_cookie(res: &Json) -> (r: Result<(), VocasyncError>)
        ensures
            r is Ok <==> (res.field("profile"@) matches Some(p) && !p.is_null()),
            r matches Err(e) ==> e.0@ == ErrorKind::CheckCookie.spec_message(),
    {
        match res.member("profile") {
            Some(p) => if p.is_null_value() {
                Err(VocasyncError::from_kind(ErrorKind::CheckCookie))
            } else {
                Ok(())
            },
            None => Err(VocasyncError::from_kind(ErrorKind::CheckCookie)),
        }
    }

    /// The request for the URL of `music`, a song of the service.
    pub fn parse_music_url_request(&self, music: &Music) -> (res: String)
        requires
            music.source is Some,
        ensures
            res@ == self.url@ + "/song/url?realIP=183.232.239.22&id="@ + music.source->0.id@
                + "&cookie="@ + self.cookie@,
    {
        let mut u = self.url.clone();
        u.append("/song/url?realIP=183.232.239.22&id=");
        match &music.source {
            Some(src) => u.append(src.id.as_str()),
            None => {},
        }
        u.append("&cookie=");
        u.append(self.cookie.as_str());
        u
    }

    /// Whether a song URL reply can be read without a fault.
    pub fn song_url_reply_ok(res: &Json) -> (r: bool)
        ensures
            r == song_url_reply_ok(*res),
    {
        match opt_number(res.member("code")) {
            Some(code) => if code == 200 {
                let first = opt_first_element(res.member("data"));
                match first {
                    Some(_) => match opt_member(first, "url") {
                        Some(u) => u.as_str().is_some(),
                        None => true,
                    },
                    None => false,
                }
            } else {
                true
            },
            None => false,
        }
    }

    /// Reads a song URL reply into `music`: where the code is 200 and the
    /// first entry of `data` has a `url`, the song gets that URL; otherwise
    /// it fails.
    pub fn parse_music_url(music: Music, res: &Json) -> (r: Result<Music, VocasyncError>)
        requires
            song_url_reply_ok(*res),
        ensures
            reply_code(*res) == Some(200u64) && song_url_member(*res) is Some ==> (r matches Ok(
                m,
            ) && m == Music { url: m.url, ..music } && view_opt(m.url) == opt_str(
                song_url_member(*res),
            )),
            !(reply_code(*res) == Some(200u64) && song_url_member(*res) is Some) ==> (r matches Err(
                e,
            ) && e.0@ == ErrorKind::GetSongFailed.spec_message()),
    {
        let code = opt_number(res.member("code"));
        if code != Some(200u64) {
            return Err(VocasyncError::from_kind(ErrorKind::GetSongFailed));
        }
        match opt_member(opt_first_element(res.member("data")), "url") {
            Some(u) => {
                let url = opt_string(Some(u));
                let mut m = music;
                m.url = url;
                Ok(m)
            },
            None => Err(VocasyncError::from_kind(ErrorKind::GetSongFailed)),
        }
    }

    /// The request that logs in with the phone number and password.
    pub fn phone_login_url(&self) -> (res: String)
        ensures
            res@ == self.url@ + "/login/cellphone?realIP=183.232.239.22&phone="@ + self.phone_num@
                + "&password="@ + self.password@,
    {
        let mut u = self.url.clone();
        u.append("/login/cellphone?realIP=183.232.239.22&phone=");
        u.append(self.phone_num.as_str());
        u.append("&password=");
        u.append(self.password.as_str());
        u
    }

    /// Reads the reply to a phone number login: its `cookie` member, as JSON
    /// text, becomes the login cookie; without one the login fails.
    pub fn phone_num_login(&mut self, res: &Json) -> (r: Result<(), VocasyncError>)
        ensures
            match res.field("cookie"@) {
                Some(c) => r is Ok && final(self).cookie@ == c.text@,
                None => r matches Err(e) && e.0@ == ErrorKind::PhoneLoginFailed.spec_message()
                    && final(self).cookie == old(self).cookie,
            },
            final(self).url == old(self).url,
            final(self).phone_num == old(self).phone_num,
            final(self).password == old(self).password,
    {
        match res.member("cookie") {
            Some(c) => {
                self.cookie = c.to_text();
                Ok(())
            },
            None => Err(VocasyncError::from_kind(ErrorKind::PhoneLoginFailed)),
        }
    }

    /// The first request of a login: with a stored cookie, the check of
    /// that cookie stamped with `timestamp`; without one, the phone number
    /// login.
    pub fn login_plan(&self, stored_cookie: Option<String>, timestamp: u64) -> (res: LoginAction)
        ensures
            match stored_cookie {
                Some(c) => res matches LoginAction::CheckCookie { cookie, url } && cookie == c
                    && url@ == self.url@ + "/user/account?realIP=183.232.239.22&timestamp="@
                    + decimal(timestamp as nat) + "&cookie="@ + c@,
                None => res matches LoginAction::PhoneLogin { url } && url@ == self.url@
                    + "/login/cellphone?realIP=183.232.239.22&phone="@ + self.phone_num@
                    + "&password="@ + self.password@,
            },
    {
        match stored_cookie {
            Some(cookie) => {
                let url = self.cookie_check_request(&cookie, timestamp);
                LoginAction::CheckCookie { cookie, url }
            },
            None => LoginAction::PhoneLogin { url: self.phone_login_url() },
        }
    }

    /// Ends a login by stored cookie, given the reply to its check (`None`
    /// where no JSON reply came): a good cookie becomes the login cookie;
    /// anything else fails the login.
    pub fn finish_cookie_login(&mut self, cookie: String, reply: Option<&Json>) -> (r: Result<
        (),
        VocasyncError,
    >)
        ensures
            match reply {
                Some(res) if (res.field("profile"@) matches Some(p) && !p.is_null()) => r is Ok
                    && final(self).cookie == cookie,
                _ => r matches Err(e) && e.0@ == ErrorKind::CookieLoginFailed.spec_message()
                    && final(self).cookie == old(self).cookie,
            },
            final(self).url == old(self).url,
            final(self).phone_num == old(self).phone_num,
            final(self).password == old(self).password,
    {
        match reply {
            Some(res) => match NeteaseApi::check_cookie(res) {
                Ok(()) => {
                    self.cookie = cookie;
                    Ok(())
                },
                Err(_) => Err(VocasyncError::from_kind(ErrorKind::CookieLoginFailed)),
            },
            None => Err(VocasyncError::from_kind(ErrorKind::CookieLoginFailed)),
        }
    }

    /// Ends a login by phone number, given its reply (`None` where no JSON
    /// reply came): the reply's cookie becomes the login cookie; without one
    /// the login fails.
    pub fn finish_phone_login(&mut self, reply: Option<&Json>) -> (r: Result<(), VocasyncError>)
        ensures
            match reply {
                Some(res) if res.field("cookie"@) is Some => r is Ok && final(self).cookie@
                    == res.field("cookie"@)->0.text@,
                _ => r matches Err(e) && e.0@ == ErrorKind::LoginFailed.spec_message()
                    && final(self).cookie == old(self).cookie,
            },
            final(self).url == old(self).url,
            final(self).phone_num == old(self).phone_num,
            final(self).password == old(self).password,
    {
        match reply {
            Some(res) => match self.phone_num_login(res) {
                Ok(()) => Ok(()),
                Err(_) => Err(VocasyncError::from_kind(ErrorKind::LoginFailed)),
            },
            None => Err(VocasyncError::from_kind(ErrorKind::LoginFailed)),
        }
    }

    /// The request for the details of the song `id`.
    pub fn song_detail_url(&self, id: &String) -> (res: String)
        ensures
            res@ == self.url@ + "/song/detail?ids="@ + id@ + "&cookie="@ + self.cookie@,
    {
        let mut u = self.url.clone();
        u.append("/song/detail?ids=");
        u.append(id.as_str());
        u.append("&cookie=");
        u.append(self.cookie.as_str());
        u
    }

    /// Whether a song detail reply can be checked without a fault.
    pub fn song_detail_reply_ok(res: &Json) -> (r: bool)
        ensures
            r == song_detail_reply_ok(*res),
            r == (opt_u64(res.field("code"@)) is Some && (opt_u64(res.field("code"@)) == Some(200u64)
                ==> opt_array(res.field("songs"@)) is Some)),
    {
        match opt_number(res.member("code")) {
            Some(code) => code != 200 || opt_array_present(res.member("songs")),
            None => false,
        }
    }

    /// Checks a song detail reply: it fails unless the code is 200 and it
    /// lists at least one song.
    pub fn check_song_detail(res: &Json) -> (r: Result<(), VocasyncError>)
        requires
            song_detail_reply_ok(*res),
        ensures
            r is Ok <==> reply_code(*res) == Some(200u64) && songs_of(*res)->0.len() > 0,
            r is Ok <==> opt_u64(res.field("code"@)) == Some(200u64) && opt_array(
                res.field("songs"@),
            )->0.len() > 0,
            r matches Err(e) ==> e.0@ == ErrorKind::SongNotFound.spec_message(),
    {
        let code = opt_number(res.member("code"));
        if code != Some(200u64) {
            return Err(VocasyncError::from_kind(ErrorKind::SongNotFound));
        }
        match res.member("songs") {
            Some(s) => match s.as_array() {
                Some(v) => if v.len() == 0 {
                    Err(VocasyncError::from_kind(ErrorKind::SongNotFound))
                } else {
                    Ok(())
                },
                None => Err(VocasyncError::from_kind(ErrorKind::SongNotFound)),
            },
            None => Err(VocasyncError::from_kind(ErrorKind::SongNotFound)),
        }
    }

    /// The request that searches users by `name`.
    pub fn search_user_url(&self, name: &String) -> (res: String)
        ensures
            res@ == self.url@ + "/search?realIP=183.232.239.22&type=1002&keywords="@ + name@
                + "&cookie="@ + self.cookie@,
    {
        let mut u = self.url.clone();
        u.append("/search?realIP=183.232.239.22&type=1002&keywords=");
        u.append(name.as_str());
        u.append("&cookie=");
        u.append(self.cookie.as_str());
        u
    }

    /// Whether a user search reply can be read without a fault.
    pub fn search_reply_ok(res: &Json) -> (r: bool)
        ensures
            r == search_reply_ok(*res),
            r == (opt_u64(res.field("code"@)) is Some && (opt_u64(res.field("code"@)) == Some(200u64)
                ==> (opt_array(opt_field(res.field("result"@), "userprofiles"@)) matches Some(a)
                ==> forall|i: int|
                0 <= i < a.len() ==> (#[trigger] a[i]).field("avatarUrl"@) is Some && a[i].field(
                    "userId"@,
                ) is Some && a[i].field("nickname"@) is Some))),
    {
        match opt_number(res.member("code")) {
            Some(code) => if code != 200 {
                true
            } else {
                let profiles = opt_member(res.member("result"), "userprofiles");
                match profiles {
                    Some(pj) => match pj.as_array() {
                        Some(v) => {
                            let mut i: usize = 0;
                            while i < v.len()
                                invariant
                                    0 <= i <= v.len(),
                                    profiles_of(*res) == v@,
                                    reply_code(*res) == Some(200u64),
                                    forall|k: int| 0 <= k < i ==> profile_ok(#[trigger] v@[k]),
                                decreases v.len() - i,
                            {
                                let p = &v[i];
                                if p.member("avatarUrl").is_none() || p.member("userId").is_none()
                                    || p.member("nickname").is_none() {
                                    return false;
                                }
                                i = i + 1;
                            }
                            true
                        },
                        None => true,
                    },
                    None => true,
                }
            },
            None => false,
        }
    }

    /// The user that the profile `p` describes, with the id `id`.
    pub fn user_from_profile(p: &Json, id: u128) -> (res: User)
        requires
            profile_ok(*p),
        ensures
            is_user_of(res, *p),
            res.id == id,
    {
        let avatar = match p.member("avatarUrl") {
            Some(a) => Some(a.to_text()),
            None => None,
        };
        let sid = match p.member("userId") {
            Some(u) => u.to_text(),
            None => String::new(),
        };
        let name = match p.member("nickname") {
            Some(n) => n.to_text(),
            None => String::new(),
        };
        User { id, source: Some(Source { id: sid, kind: SourceKind::Netease }), name, avatar }
    }

    /// Reads a user search reply: fails unless the code is 200; otherwise
    /// one user per listed profile, in order, each with a new random id.
    pub fn search_user(res: &Json) -> (r: Result<Vec<User>, VocasyncError>)
        requires
            search_reply_ok(*res),
        ensures
            reply_code(*res) != Some(200u64) ==> (r matches Err(e) && e.0@
                == ErrorKind::SearchUserFailed.spec_message()),
            reply_code(*res) == Some(200u64) ==> (r matches Ok(users) && users@.len()
                == profiles_of(*res).len() && forall|i: int|
                0 <= i < users@.len() ==> is_user_of(#[trigger] users@[i], profiles_of(*res)[i])
                && is_random_uuid(users@[i].id)),
            opt_u64(res.field("code"@)) == Some(200u64) ==> (r matches Ok(users) && match opt_array(
                opt_field(res.field("result"@), "userprofiles"@),
            ) {
                Some(a) => users@.len() == a.len() && forall|i: int|
                    0 <= i < a.len() ==> (#[trigger] users@[i]).name@ == a[i].field("nickname"@)->0.text@
                        && (users@[i].avatar matches Some(av) && av@ == a[i].field(
                        "avatarUrl"@,
                    )->0.text@) && (users@[i].source matches Some(src) && src.kind
                        == SourceKind::Netease && src.id@ == a[i].field("userId"@)->0.text@),
                None => users@.len() == 0,
            }),
    {
        let code = opt_number(res.member("code"));
        if code != Some(200u64) {
            return Err(VocasyncError::from_kind(ErrorKind::SearchUserFailed));
        }
        let mut users: Vec<User> = Vec::new();
        match opt_member(res.member("result"), "userprofiles") {
            Some(pj) => match pj.as_array() {
                Some(v) => {
                    let mut i: usize = 0;
                    while i < v.len()
                        invariant
                            0 <= i <= v.len(),
                            profiles_of(*res) == v@,
                            search_reply_ok(*res),
                            reply_code(*res) == Some(200u64),
                            users@.len() == i,
                            forall|k: int|
                                0 <= k < i ==> is_user_of(#[trigger] users@[k], v@[k])
                                    && is_random_uuid(users@[k].id),
                        decreases v.len() - i,
                    {
                        assert(profile_ok(profiles_of(*res)[i as int]));
                        let id = new_random_uuid();
                        let u = NeteaseApi::user_from_profile(&v[i], id);
                        users.push(u);
                        i = i + 1;
                    }
                },
                None => {},
            },
            None => {},
        }
        Ok(users)
    }

    /// The request for the playlists of the user `id`.
    pub fn user_playlist_url(&self, id: &String) -> (res: String)
        ensures
            res@ == self.url@ + "/user/playlist?realIP=183.232.239.22&uid="@ + id@ + "&cookie="@
                + self.cookie@,
    {
        let mut u = self.url.clone();
        u.append("/user/playlist?realIP=183.232.239.22&uid=");
        u.append(id.as_str());
        u.append("&cookie=");
        u.append(self.cookie.as_str());
        u
    }

    /// Whether a user playlist reply can be read without a fault.
    pub fn playlist_reply_ok(res: &Json) -> (r: bool)
        ensures
            r == playlist_reply_ok(*res),
    {
        match opt_number(res.member("code")) {
            Some(code) => if code != 200 {
                true
            } else {
                match res.member("playlist") {
                    Some(pj) => match pj.as_array() {
                        Some(v) => {
                            let mut i: usize = 0;
                            while i < v.len()
                                invariant
                                    0 <= i <= v.len(),
                                    opt_array(res.field("playlist"@)) == Some(v@),
                                    reply_code(*res) == Some(200u64),
                                    forall|k: int|
                                        0 <= k < i ==> playlist_entry_ok(#[trigger] v@[k]),
                                decreases v.len() - i,
                            {
                                let p = &v[i];
                                if p.member("id").is_none() || p.member("name").is_none() {
                                    assert(!playlist_entry_ok(
                                        opt_array(res.field("playlist"@))->0[i as int],
                                    ));
                                    return false;
                                }
                                i = i + 1;
                            }
                            true
                        },
                        None => false,
                    },
                    None => false,
                }
            },
            None => false,
        }
    }

    /// Reads a user playlist reply: fails unless the code is 200; otherwise
    /// one playlist per entry of `playlist`, in order.
    pub fn get_user_playlist(res: &Json) -> (r: Result<Vec<PlayList>, VocasyncError>)
        requires
            playlist_reply_ok(*res),
        ensures
            reply_code(*res) != Some(200u64) ==> (r matches Err(e) && e.0@
                == ErrorKind::GetUserPlaylistFailed.spec_message()),
            reply_code(*res) == Some(200u64) ==> (r matches Ok(lists) && lists@.len() == opt_array(
                res.field("playlist"@),
            )->0.len() && forall|i: int|
                0 <= i < lists@.len() ==> is_playlist_of(
                    #[trigger] lists@[i],
                    opt_array(res.field("playlist"@))->0[i],
                )),
            r matches Ok(lists) ==> forall|i: int|
                0 <= i < lists@.len() ==> (#[trigger] lists@[i]).source.id@ == opt_array(
                    res.field("playlist"@),
                )->0[i].field("id"@)->0.text@ && lists@[i].name@ == opt_array(
                    res.field("playlist"@),
                )->0[i].field("name"@)->0.text@ && lists@[i].source.kind == SourceKind::Netease,
    {
        let code = opt_number(res.member("code"));
        if code != Some(200u64) {
            return Err(VocasyncError::from_kind(ErrorKind::GetUserPlaylistFailed));
        }
        let mut lists: Vec<PlayList> = Vec::new();
        match res.member("playlist") {
            Some(pj) => match pj.as_array() {
                Some(v) => {
                    let mut i: usize = 0;
                    while i < v.len()
                        invariant
                            0 <= i <= v.len(),
                            opt_array(res.field("playlist"@)) == Some(v@),
                            playlist_reply_ok(*res),
                            reply_code(*res) == Some(200u64),
                            lists@.len() == i,
                            forall|k: int| 0 <= k < i ==> is_playlist_of(#[trigger] lists@[k], v@[k]),
                        decreases v.len() - i,
                    {
                        assert(playlist_entry_ok(opt_array(res.field("playlist"@))->0[i as int]));
                        let p = &v[i];
                        let id = match p.member("id") {
                            Some(x) => x.to_text(),
                            None => String::new(),
                        };
                        let name = match p.member("name") {
                            Some(x) => x.to_text(),
                            None => String::new(),
                        };
                        lists.push(PlayList { source: Source { id, kind: SourceKind::Netease }, name });
                        i = i + 1;
                    }
                },
                None => {},
            },
            None => {},
        }
        Ok(lists)
    }

    /// The request for ten songs of the playlist `id`, from `offset` on.
    pub fn playlist_tracks_url(&self, id: &String, offset: u64) -> (res: String)
        ensures
            res@ == self.url@ + "/playlist/track/all?realIP=183.232.239.22&id="@ + id@
                + "&limit=10&offset="@ + decimal(offset as nat) + "&cookie="@ + self.cookie@,
    {
        let mut u = self.url.clone();
        u.append("/playlist/track/all?realIP=183.232.239.22&id=");
        u.append(id.as_str());
        u.append("&limit=10&offset=");
        let off = u64_to_decimal(offset);
        u.append(off.as_str());
        u.append("&cookie=");
        u.append(self.cookie.as_str());
        u
    }

    /// Whether a reply has a numeric code, which the checks of song list
    /// replies read.
    pub fn reply_has_code(res: &Json) -> (r: bool)
        ensures
            r == (reply_code(*res) is Some),
    {
        opt_number(res.member("code")).is_some()
    }

    /// Checks a playlist song reply: it fails unless the code is 200.
    pub fn check_music_list(res: &Json) -> (r: Result<(), VocasyncError>)
        requires
            reply_code(*res) is Some,
        ensures
            r is Ok <==> reply_code(*res) == Some(200u64),
            r matches Err(e) ==> e.0@ == ErrorKind::GetMusicListFailed.spec_message(),
    {
        if opt_number(res.member("code")) != Some(200u64) {
            Err(VocasyncError::from_kind(ErrorKind::GetMusicListFailed))
        } else {
            Ok(())
        }
    }
}

/// What the reading of a song list asks for next.
#[derive(Debug)]
pub enum ParseAction {
    /// Fetch the song URL reply at this request, and hand it to
    /// `on_url_reply`.
    FetchUrl(String),
    /// Every song has been read.
    Finished,
    /// A song could not be read; the reading stops.
    Failed(VocasyncError),
}

/// The reading of a song list reply: its songs, how many of them have been
/// taken (`next`), the songs read with their URLs (`done`), the song whose
/// URL is awaited (`pending`), and the song URL replies handed over for the
/// songs read (`url_replies`).
pub struct MusicParse {
    pub songs: Vec<Json>,
    pub next: usize,
    pub done: Vec<Music>,
    pub pending: Option<Music>,
    pub url_replies: Ghost<Seq<Json>>,
}

impl MusicParse {
    /// Each song read so far is the one its entry describes, with a random
    /// UUID and the URL that its song URL reply gave; the awaited one is the
    /// one of the last entry taken, with a random UUID.
    pub open spec fn wf(self) -> bool {
        &&& self.next <= self.songs@.len()
        &&& self.done@.len() + (if self.pending is Some {
            1int
        } else {
            0int
        }) == self.next
        &&& self.url_replies@.len() == self.done@.len()
        &&& forall|i: int|
            0 <= i < self.done@.len() ==> is_song_of(#[trigger] self.done@[i], self.songs@[i])
                && is_random_uuid(self.done@[i].uuid) && self.done@[i].url is Some && view_opt(
                self.done@[i].url,
            ) == opt_str(song_url_member(self.url_replies@[i]))
        &&& self.pending matches Some(m) ==> is_song_of(m, self.songs@[self.next - 1]) && m.url is None
            && is_random_uuid(m.uuid)
    }

    /// Every song has been read.
    pub open spec fn complete(self) -> bool {
        &&& self.wf()
        &&& self.pending is None
        &&& self.next == self.songs@.len()
    }

    /// Starts reading a song list reply; fails where the reply has no
    /// `songs` array.
    pub fn start(res: Json) -> (r: Result<MusicParse, VocasyncError>)
        ensures
            match songs_of(res) {
                Some(s) => r matches Ok(p) && p.songs@ == s && p.next == 0 && p.done@.len() == 0
                    && p.pending is None && p.wf(),
                None => r matches Err(e) && e.0@ == ErrorKind::InvalidResponseFormat.spec_message(),
            },
    {
        match res.into_member("songs") {
            Some(j) => match j.into_array() {
                Some(songs) => Ok(
                    MusicParse {
                        songs,
                        next: 0,
                        done: Vec::new(),
                        pending: None,
                        url_replies: Ghost(Seq::empty()),
                    },
                ),
                None => Err(VocasyncError::from_kind(ErrorKind::InvalidResponseFormat)),
            },
            None => Err(VocasyncError::from_kind(ErrorKind::InvalidResponseFormat)),
        }
    }

    /// The next step: done where every song has been read; otherwise reads
    /// the next song, with a new random UUID, and asks for its URL, or fails
    /// where the song cannot be read.
    pub fn next_action(&mut self, api: &NeteaseApi) -> (res: ParseAction)
        requires
            old(self).wf(),
            old(self).pending is None,
        ensures
            final(self).songs == old(self).songs,
            final(self).done == old(self).done,
            old(self).next == old(self).songs@.len() ==> res is Finished && *final(self) == *old(
                self,
            ),
            old(self).next < old(self).songs@.len() ==> match song_failure(
                old(self).songs@[old(self).next as int],
            ) {
                Some(k) => res matches ParseAction::Failed(e) && e.0@ == k.spec_message()
                    && *final(self) == *old(self),
                None => {
                    &&& final(self).next == old(self).next + 1
                    &&& final(self).pending matches Some(m) && is_random_uuid(m.uuid) && (
                    res matches ParseAction::FetchUrl(url) && url@ == api.url@
                        + "/song/url?realIP=183.232.239.22&id="@ + m.source->0.id@ + "&cookie="@
                        + api.cookie@)
                    &&& final(self).wf()
                },
            },
    {
        if self.next == self.songs.len() {
            return ParseAction::Finished;
        }
        let uuid = new_random_uuid();
        match NeteaseApi::music_from_song(&self.songs[self.next], uuid) {
            Ok(m) => {
                let url = api.parse_music_url_request(&m);
                self.pending = Some(m);
                self.next = self.next + 1;
                ParseAction::FetchUrl(url)
            },
            Err(e) => ParseAction::Failed(e),
        }
    }

    /// Hands over the song URL reply for the awaited song: the song, with
    /// the URL the reply gives, joins the songs read; where the reply gives
    /// none, the reading fails.
    pub fn on_url_reply(&mut self, res: &Json) -> (r: Result<(), VocasyncError>)
        requires
            old(self).wf(),
            old(self).pending is Some,
            song_url_reply_ok(*res),
        ensures
            final(self).songs == old(self).songs,
            final(self).next == old(self).next,
            final(self).pending is None,
            reply_code(*res) == Some(200u64) && song_url_member(*res) is Some ==> {
                &&& r is Ok
                &&& final(self).wf()
                &&& final(self).done@.len() == old(self).done@.len() + 1
                &&& final(self).done@.drop_last() == old(self).done@
                &&& final(self).done@.last() == Music { url: final(self).done@.last().url, ..old(self).pending->0 }
                &&& view_opt(final(self).done@.last().url) == opt_str(song_url_member(*res))
                &&& final(self).url_replies@ == old(self).url_replies@.push(*res)
            },
            !(reply_code(*res) == Some(200u64) && song_url_member(*res) is Some) ==> (r matches Err(e)
                && e.0@ == ErrorKind::GetSongFailed.spec_message() && final(self).done == old(
                self,
            ).done),
    {
        let pending = self.pending.take();
        match pending {
            Some(m) => match NeteaseApi::parse_music_url(m, res) {
                Ok(m2) => {
                    let ghost before = self.done@;
                    let ghost replies_before = self.url_replies@;
                    self.done.push(m2);
                    proof {
                        self.url_replies@ = self.url_replies@.push(*res);
                    }
                    assert(self.done@.drop_last() =~= before);
                    assert forall|i: int| 0 <= i < self.done@.len() implies is_song_of(
                        #[trigger] self.done@[i],
                        self.songs@[i],
                    ) && is_random_uuid(self.done@[i].uuid) && self.done@[i].url is Some
                        && view_opt(self.done@[i].url) == opt_str(
                        song_url_member(self.url_replies@[i]),
                    ) by {
                        if i < before.len() {
                            assert(self.done@[i] == before[i]);
                            assert(self.url_replies@[i] == replies_before[i]);
                        }
                    }
                    Ok(())
                },
                Err(e) => Err(e),
            },
            None => Err(VocasyncError::from_kind(ErrorKind::GetSongFailed)),
        }
    }

    /// The songs read, one per listed song, in the order of the list.
    pub fn into_musics(self) -> (res: Vec<Music>)
        requires
            self.complete(),
        ensures
            res@ == self.done@,
            res@.len() == self.songs@.len(),
            self.url_replies@.len() == self.songs@.len(),
            forall|i: int|
                0 <= i < res@.len() ==> is_song_of(#[trigger] res@[i], self.songs@[i])
                    && is_random_uuid(res@[i].uuid) && res@[i].url is Some && view_opt(res@[i].url)
                    == opt_str(song_url_member(self.url_replies@[i])),
    {
        self.done
    }
}

} // verus!
