//! Turning decoded service responses into domain values.
use vstd::prelude::*;
use crate::dto::{
    CloudSearchResp, LoginQrCheckResp, LoginQrKeyResp, LyricResp, PlaylistDetailResp,
    SongDetailResp, SongInfo, SongUrlResp, UserAccountResp, UserPlaylistResp, ArtistInfo,
};
use crate::lrc::{lrc_fits, lrc_text_fits, lrc_text_spec, parse_lrc_text, entry_views};
use crate::model::{Account, LoginStatus, LyricLine, Playlist, Song, SongUrl};
use crate::text::{join_seqs, string_from_chars, chars_of, extend_chars, trim, trim_chars};
use crate::dto::LyricBlock;

verus! {

/// serde_json's error type, carried by `ModelError::BadJson`.
#[verifier::external_type_specification]
#[verifier::external_body]
pub struct ExJsonError(serde_json::Error);

/// Why a response could not be turned into a domain value.
#[derive(Debug)]
pub enum ModelError {
    MissingField(&'static str),
    BadJson(serde_json::Error),
    Empty,
}

impl ModelError {
    /// The message this error shows: the missing field's name after
    /// `缺少字段: `, or `响应为空`; for a decoding error, serde_json's message
    /// after `响应解析失败: `.
    pub fn message(&self) -> (r: String)
        ensures
            self matches ModelError::MissingField(f) ==> r@ == "缺少字段: "@ + f@,
            self matches ModelError::Empty ==> r@ == "响应为空"@,
            self matches ModelError::BadJson(_) ==> exists|t: Seq<char>| r@ == "响应解析失败: "@ + t,
    {
        match self {
            ModelError::MissingField(f) => {
                let mut s = "缺少字段: ".to_owned();
                crate::text::push_str(&mut s, f);
                s
            },
            ModelError::BadJson(e) => {
                let t = json_error_message(e);
                let mut s = "响应解析失败: ".to_owned();
                crate::text::push_str(&mut s, t.as_str());
                assert(s@ == "响应解析失败: "@ + t@);
                s
            },
            ModelError::Empty => "响应为空".to_owned(),
        }
    }
}

/// The text of a JSON decoding error, through `serde_json::Error`'s
/// `Display`; nothing is claimed of it.
#[verifier::external_body]
fn json_error_message(e: &serde_json::Error) -> String {
    e.to_string()
}

/// Whether `r` is the error for the missing field `f`.
pub open spec fn is_missing(r: ModelError, f: Seq<char>) -> bool {
    r matches ModelError::MissingField(g) && g@ == f
}

/// The QR login key, taken from the top level or from `data`.
pub fn extract_unikey(resp: LoginQrKeyResp) -> (r: Result<String, ModelError>)
    ensures
        match resp.unikey {
            Some(u) => r == Ok::<String, ModelError>(u),
            None => match resp.data {
                Some(d) => r == Ok::<String, ModelError>(d.unikey),
                None => r matches Err(e) && is_missing(e, "unikey"@),
            },
        },
{
    if let Some(u) = resp.unikey {
        return Ok(u);
    }
    if let Some(d) = resp.data {
        return Ok(d.unikey);
    }
    Err(ModelError::MissingField("unikey"))
}

/// The QR login state; code 803 means the login went through.
pub fn to_login_status(resp: LoginQrCheckResp) -> (r: LoginStatus)
    ensures
        r.code == resp.code,
        r.logged_in == (resp.code == 803),
        r.message == resp.message,
{
    LoginStatus { code: resp.code, logged_in: resp.code == 803, message: resp.message }
}

/// The account, which needs both the account id and the profile.
pub fn to_account(resp: UserAccountResp) -> (r: Result<Account, ModelError>)
    ensures
        match (resp.account, resp.profile) {
            (Some(a), Some(p)) => r == Ok::<Account, ModelError>(
                Account { uid: a.id, nickname: p.nickname },
            ),
            (None, _) => r matches Err(e) && is_missing(e, "account"@),
            (Some(_), None) => r matches Err(e) && is_missing(e, "profile"@),
        },
{
    let uid = match resp.account {
        Some(a) => a.id,
        None => return Err(ModelError::MissingField("account")),
    };
    let nickname = match resp.profile {
        Some(p) => p.nickname,
        None => return Err(ModelError::MissingField("profile")),
    };
    Ok(Account { uid, nickname })
}

/// The user's playlists, in response order.
pub fn to_playlists(resp: UserPlaylistResp) -> (r: Vec<Playlist>)
    ensures
        r@.len() == resp.playlist@.len(),
        forall|i: int|
            0 <= i < r@.len() ==> #[trigger] r@[i] == (Playlist {
                id: resp.playlist@[i].id,
                name: resp.playlist@[i].name,
                track_count: resp.playlist@[i].track_count,
                special_type: resp.playlist@[i].special_type,
            }),
{
    let mut src = resp.playlist;
    let ghost orig = src@;
    let mut rev: Vec<Playlist> = Vec::new();
    while src.len() > 0
        invariant
            src@ == orig.take(src@.len() as int),
            src@.len() + rev@.len() == orig.len(),
            forall|i: int|
                0 <= i < rev@.len() ==> #[trigger] rev@[i] == (Playlist {
                    id: orig[orig.len() - 1 - i].id,
                    name: orig[orig.len() - 1 - i].name,
                    track_count: orig[orig.len() - 1 - i].track_count,
                    special_type: orig[orig.len() - 1 - i].special_type,
                }),
        decreases src.len(),
    {
        let p = src.pop().unwrap();
        assert(p == orig[src@.len() as int]);
        assert(src@ == orig.take(src@.len() as int));
        rev.push(Playlist {
            id: p.id,
            name: p.name,
            track_count: p.track_count,
            special_type: p.special_type,
        });
    }
    let mut out: Vec<Playlist> = Vec::new();
    let n = rev.len();
    while rev.len() > 0
        invariant
            n == orig.len(),
            rev@.len() + out@.len() == n,
            forall|i: int|
                0 <= i < rev@.len() ==> #[trigger] rev@[i] == (Playlist {
                    id: orig[n - 1 - i].id,
                    name: orig[n - 1 - i].name,
                    track_count: orig[n - 1 - i].track_count,
                    special_type: orig[n - 1 - i].special_type,
                }),
            forall|i: int|
                0 <= i < out@.len() ==> #[trigger] out@[i] == (Playlist {
                    id: orig[i].id,
                    name: orig[i].name,
                    track_count: orig[i].track_count,
                    special_type: orig[i].special_type,
                }),
        decreases rev.len(),
    {
        let p = rev.pop().unwrap();
        out.push(p);
    }
    out
}

/// The names of the artists, joined with `/`.
pub open spec fn artist_names(a: Seq<ArtistInfo>) -> Seq<Seq<char>> {
    a.map_values(|x: ArtistInfo| x.name@)
}

/// A song: the artists come from `ar`, or from `artists` when `ar` is empty.
pub open spec fn song_of(s: SongInfo) -> (i64, Seq<char>, Seq<char>) {
    let artists = if s.ar@.len() > 0 {
        s.ar@
    } else {
        s.artists@
    };
    (s.id, s.name@, join_seqs(artist_names(artists), "/"@))
}

/// A converted song keeps the id and the name; its artists are the names in
/// `ar` joined with `/` where `ar` has any, else the names in `artists`; a
/// single artist in `ar` is its name alone.
pub proof fn lemma_song_artists_prefer_ar(s: SongInfo)
    ensures
        song_of(s).0 == s.id,
        song_of(s).1 == s.name@,
        s.ar@.len() > 0 ==> song_of(s).2 == join_seqs(
            s.ar@.map_values(|x: ArtistInfo| x.name@),
            "/"@,
        ),
        s.ar@.len() == 0 ==> song_of(s).2 == join_seqs(
            s.artists@.map_values(|x: ArtistInfo| x.name@),
            "/"@,
        ),
        s.ar@.len() == 1 ==> song_of(s).2 == s.ar@[0].name@,
{
    if s.ar@.len() == 1 {
        assert(s.ar@.map_values(|x: ArtistInfo| x.name@).len() == 1);
    }
}

/// Where `ar` names artists, the `artists` list makes no difference: two
/// items with the same id, name and non-empty `ar` give the same song.
pub proof fn lemma_song_ignores_artists_when_ar_given(s1: SongInfo, s2: SongInfo)
    requires
        s1.id == s2.id,
        s1.name@ == s2.name@,
        s1.ar@ == s2.ar@,
        s1.ar@.len() > 0,
    ensures
        song_of(s1) == song_of(s2),
{
}

pub open spec fn song_view(s: Song) -> (i64, Seq<char>, Seq<char>) {
    (s.id, s.name@, s.artists@)
}

/// Joins artist names with `/`.
fn join_artist_names(a: &Vec<ArtistInfo>) -> (r: String)
    ensures
        r@ == join_seqs(artist_names(a@), "/"@),
{
    let sep = chars_of("/");
    let mut acc: Vec<char> = Vec::new();
    let mut i: usize = 0;
    while i < a.len()
        invariant
            i <= a@.len(),
            sep@ == "/"@,
            acc@ == join_seqs(artist_names(a@).take(i as int), "/"@),
        decreases a.len() - i,
    {
        let name = chars_of(a[i].name.as_str());
        let ghost names = artist_names(a@).take(i + 1);
        assert(names.drop_last() == artist_names(a@).take(i as int));
        assert(names.last() == a@[i as int].name@);
        if i > 0 {
            extend_chars(&mut acc, sep.as_slice());
        } else {
            assert(names.len() == 1);
        }
        extend_chars(&mut acc, name.as_slice());
        i += 1;
    }
    assert(artist_names(a@).take(a@.len() as int) == artist_names(a@));
    string_from_chars(acc.as_slice())
}

/// One song from a response item.
pub fn to_song(s: SongInfo) -> (r: Song)
    ensures
        song_view(r) == song_of(s),
{
    let artists = if s.ar.len() > 0 {
        join_artist_names(&s.ar)
    } else {
        join_artist_names(&s.artists)
    };
    Song { id: s.id, name: s.name, artists }
}

/// Songs from a list of response items, in order.
pub fn songs_from_infos(items: Vec<SongInfo>) -> (r: Vec<Song>)
    ensures
        r@.map_values(|s: Song| song_view(s)) == items@.map_values(|s: SongInfo| song_of(s)),
{
    let mut src = items;
    let ghost orig = src@;
    let mut rev: Vec<Song> = Vec::new();
    while src.len() > 0
        invariant
            src@ == orig.take(src@.len() as int),
            src@.len() + rev@.len() == orig.len(),
            forall|i: int|
                0 <= i < rev@.len() ==> song_view(#[trigger] rev@[i]) == song_of(
                    orig[orig.len() - 1 - i],
                ),
        decreases src.len(),
    {
        let s = src.pop().unwrap();
        assert(s == orig[src@.len() as int]);
        assert(src@ == orig.take(src@.len() as int));
        rev.push(to_song(s));
    }
    let mut out: Vec<Song> = Vec::new();
    let n = rev.len();
    while rev.len() > 0
        invariant
            n == orig.len(),
            rev@.len() + out@.len() == n,
            forall|i: int|
                0 <= i < rev@.len() ==> song_view(#[trigger] rev@[i]) == song_of(orig[n - 1 - i]),
            forall|i: int| 0 <= i < out@.len() ==> song_view(#[trigger] out@[i]) == song_of(orig[i]),
        decreases rev.len(),
    {
        let s = rev.pop().unwrap();
        out.push(s);
    }
    assert(out@.map_values(|s: Song| song_view(s)) =~= orig.map_values(|s: SongInfo| song_of(s)));
    out
}

/// Songs of a search response; none when the response has no result.
pub fn to_song_list_from_search(resp: CloudSearchResp) -> (r: Vec<Song>)
    ensures
        match resp.result {
            None => r@.len() == 0,
            Some(res) => r@.map_values(|s: Song| song_view(s)) == res.songs@.map_values(
                |s: SongInfo| song_of(s),
            ),
        },
{
    match resp.result {
        None => Vec::new(),
        Some(result) => songs_from_infos(result.songs),
    }
}

/// Songs of a song-detail response.
pub fn to_song_list_from_detail(resp: SongDetailResp) -> (r: Vec<Song>)
    ensures
        r@.map_values(|s: Song| song_view(s)) == resp.songs@.map_values(|s: SongInfo| song_of(s)),
{
    songs_from_infos(resp.songs)
}

/// Track ids of a playlist; none when the playlist is missing.
pub fn to_playlist_track_ids(resp: PlaylistDetailResp) -> (r: Vec<i64>)
    ensures
        match resp.playlist {
            None => r@.len() == 0,
            Some(p) => r@ == p.track_ids@.map_values(|t: crate::dto::TrackId| t.id),
        },
{
    match resp.playlist {
        None => Vec::new(),
        Some(p) => {
            let mut out: Vec<i64> = Vec::new();
            let mut i: usize = 0;
            while i < p.track_ids.len()
                invariant
                    i <= p.track_ids@.len(),
                    out@ == p.track_ids@.take(i as int).map_values(|t: crate::dto::TrackId| t.id),
                decreases p.track_ids.len() - i,
            {
                out.push(p.track_ids[i].id);
                i += 1;
                assert(out@ =~= p.track_ids@.take(i as int).map_values(
                    |t: crate::dto::TrackId| t.id,
                ));
            }
            assert(p.track_ids@.take(p.track_ids@.len() as int) == p.track_ids@);
            out
        },
    }
}

/// The address of the first item; an error when there is none or it has no
/// address.
pub fn to_song_url(resp: SongUrlResp) -> (r: Result<SongUrl, ModelError>)
    ensures
        resp.data@.len() == 0 ==> r matches Err(ModelError::Empty),
        resp.data@.len() > 0 ==> match resp.data@[0].url {
            Some(u) => r == Ok::<SongUrl, ModelError>(SongUrl { id: resp.data@[0].id, url: u }),
            None => r matches Err(e) && is_missing(e, "data[0].url"@),
        },
{
    let mut data = resp.data;
    if data.len() == 0 {
        return Err(ModelError::Empty);
    }
    let it = data.swap_remove(0);
    match it.url {
        Some(url) => Ok(SongUrl { id: it.id, url }),
        None => Err(ModelError::MissingField("data[0].url")),
    }
}

/// Lines of the original lyric: entries with non-blank text.
pub open spec fn original_lines(text: Seq<char>) -> Seq<(u64, Seq<char>)> {
    lrc_text_spec(text, false).filter(|e: (u64, Seq<char>)| trim(e.1).len() > 0)
}

/// The text of the first translation entry at time `t`.
pub open spec fn first_translation(trans: Seq<(u64, Seq<char>)>, t: u64) -> Option<Seq<char>>
    decreases trans.len(),
{
    if trans.len() == 0 {
        None
    } else if trans[0].0 == t {
        Some(trans[0].1)
    } else {
        first_translation(trans.drop_first(), t)
    }
}

/// Lyric lines of a response: the original lines, each with the first
/// translation line of the same time.
pub open spec fn lyrics_spec(resp: LyricResp) -> Seq<(u64, Seq<char>, Option<Seq<char>>)> {
    let orig = match resp.lrc {
        Some(b) => original_lines(b.lyric@),
        None => seq![],
    };
    let trans = match resp.tlyric {
        Some(b) => lrc_text_spec(b.lyric@, true),
        None => seq![],
    };
    orig.map_values(
        |e: (u64, Seq<char>)| (e.0, e.1, first_translation(trans, e.0)),
    )
}

/// Every time tag of the response's lyric texts fits in a `u64`.
pub open spec fn lyric_resp_fits(resp: LyricResp) -> bool {
    &&& (resp.lrc matches Some(b) ==> lrc_fits(b.lyric@))
    &&& (resp.tlyric matches Some(b) ==> lrc_fits(b.lyric@))
}

pub open spec fn lyric_views(v: Seq<LyricLine>) -> Seq<(u64, Seq<char>, Option<Seq<char>>)> {
    v.map_values(|l: LyricLine| l.view())
}

/// Whether `to_lyrics` can take this response (no time tag overflows).
pub fn lyrics_fit(resp: &LyricResp) -> (r: bool)
    ensures
        r == lyric_resp_fits(*resp),
{
    let a = match &resp.lrc {
        Some(b) => lrc_text_fits(b.lyric.as_str()),
        None => true,
    };
    let b = match &resp.tlyric {
        Some(b) => lrc_text_fits(b.lyric.as_str()),
        None => true,
    };
    a && b
}

/// Lines of the original lyric text with non-blank text.
pub fn parse_lrc_original(text: &str) -> (r: Vec<(u64, String)>)
    requires
        lrc_fits(text@),
    ensures
        entry_views(r@) == original_lines(text@),
{
    let all = parse_lrc_text(text, false);
    let ghost av = entry_views(all@);
    let ghost pred = |e: (u64, Seq<char>)| trim(e.1).len() > 0;
    let mut out: Vec<(u64, String)> = Vec::new();
    let mut i: usize = 0;
    while i < all.len()
        invariant
            i <= all@.len(),
            av == entry_views(all@),
            pred == (|e: (u64, Seq<char>)| trim(e.1).len() > 0),
            entry_views(out@) == av.take(i as int).filter(pred),
        decreases all.len() - i,
    {
        let cs = chars_of(all[i].1.as_str());
        let t = trim_chars(cs.as_slice());
        proof {
            assert(av.take(i + 1).drop_last() == av.take(i as int));
            assert(av.take(i + 1).last() == av[i as int]);
            reveal(Seq::filter);
        }
        if t.len() > 0 {
            let ghost old_out = out@;
            out.push((all[i].0, all[i].1.clone()));
            assert(entry_views(out@) =~= entry_views(old_out).push(av[i as int]));
        }
        i += 1;
    }
    assert(av.take(all@.len() as int) == av);
    out
}

/// The translation entry list (blank texts kept).
pub fn parse_lrc_translation(text: &str) -> (r: Vec<(u64, String)>)
    requires
        lrc_fits(text@),
    ensures
        entry_views(r@) == lrc_text_spec(text@, true),
{
    parse_lrc_text(text, true)
}

/// First translation text at time `t`.
fn find_translation(trans: &Vec<(u64, String)>, t: u64) -> (r: Option<String>)
    ensures
        match r {
            Some(s) => first_translation(entry_views(trans@), t) == Some(s@),
            None => first_translation(entry_views(trans@), t) is None,
        },
{
    let ghost tv = entry_views(trans@);
    let mut i: usize = 0;
    assert(tv.skip(0) == tv);
    while i < trans.len()
        invariant
            i <= trans@.len(),
            tv == entry_views(trans@),
            first_translation(tv, t) == first_translation(tv.skip(i as int), t),
        decreases trans.len() - i,
    {
        let ghost rest = tv.skip(i as int);
        assert(rest[0] == tv[i as int]);
        if trans[i].0 == t {
            return Some(trans[i].1.clone());
        }
        assert(rest.drop_first() == tv.skip(i + 1));
        i += 1;
    }
    None
}

/// Lyric lines of a response, original lines with their translations.
pub fn to_lyrics(resp: LyricResp) -> (r: Vec<LyricLine>)
    requires
        lyric_resp_fits(resp),
    ensures
        lyric_views(r@) == lyrics_spec(resp),
{
    let original = match &resp.lrc {
        Some(b) => parse_lrc_original(b.lyric.as_str()),
        None => Vec::new(),
    };
    let translation = match &resp.tlyric {
        Some(b) => parse_lrc_translation(b.lyric.as_str()),
        None => Vec::new(),
    };
    let ghost ov = entry_views(original@);
    let ghost tv = entry_views(translation@);
    let ghost f = |e: (u64, Seq<char>)| (e.0, e.1, first_translation(tv, e.0));
    assert(ov.len() == original@.len());
    let mut out: Vec<LyricLine> = Vec::new();
    let mut i: usize = 0;
    while i < original.len()
        invariant
            i <= original@.len(),
            ov == entry_views(original@),
            tv == entry_views(translation@),
            f == (|e: (u64, Seq<char>)| (e.0, e.1, first_translation(tv, e.0))),
            lyric_views(out@) == ov.take(i as int).map_values(f),
        decreases original.len() - i,
    {
        let t = original[i].0;
        let tr = find_translation(&translation, t);
        let ghost old_out = out@;
        let line = LyricLine { time_ms: t, text: original[i].1.clone(), translation: tr };
        out.push(line);
        proof {
            assert(ov.take(i + 1) == ov.take(i as int).push(ov[i as int]));
            assert(lyric_views(out@) =~= lyric_views(old_out).push(line.view()));
            assert(ov.take(i + 1).map_values(f) =~= ov.take(i as int).map_values(f).push(f(ov[i as int])));
        }
        i += 1;
    }
    assert(ov.take(original@.len() as int) == ov);
    out
}


/// The lyric lines of a response come in time order.
pub proof fn lemma_lyrics_in_time_order(resp: LyricResp)
    ensures
        forall|i: int, j: int|
            0 <= i <= j < lyrics_spec(resp).len() ==> lyrics_spec(resp)[i].0 <= lyrics_spec(
                resp,
            )[j].0,
{
    match resp.lrc {
        Some(b) => {
            crate::lrc::lemma_lrc_text_sorted(b.lyric@, false);
            crate::lrc::lemma_filter_sorted(
                lrc_text_spec(b.lyric@, false),
                |e: (u64, Seq<char>)| trim(e.1).len() > 0,
            );
            let orig = original_lines(b.lyric@);
            assert forall|i: int, j: int| 0 <= i <= j < lyrics_spec(resp).len() implies lyrics_spec(
                resp,
            )[i].0 <= lyrics_spec(resp)[j].0 by {
                assert(lyrics_spec(resp)[i].0 == orig[i].0);
                assert(lyrics_spec(resp)[j].0 == orig[j].0);
            }
        },
        None => {},
    }
}
} // verus!
