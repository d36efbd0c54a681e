//! The music-source hub: a source-neutral interface of commands and events,
//! routed to the service actor of the one source integrated so far.
use vstd::prelude::*;
use crate::model::{LyricLine, Song};
use crate::netease_actor::{NeteaseCommand, NeteaseEvent};
use crate::text::push_str;

verus! {

/// A source of music: the NetEase service, or another one by its name.
#[derive(Debug, Clone)]
pub enum SourceId {
    Netease,
    Other(String),
}

/// The name a source is shown by.
pub open spec fn source_name(s: SourceId) -> Seq<char> {
    match s {
        SourceId::Netease => "netease"@,
        SourceId::Other(n) => n@,
    }
}

impl SourceId {
    /// The name this source is shown by.
    pub fn name(&self) -> (r: String)
        ensures
            r@ == source_name(*self),
    {
        match self {
            SourceId::Netease => "netease".to_string(),
            SourceId::Other(n) => n.clone(),
        }
    }
}

/// A track's id within its source.
#[derive(Debug, Clone)]
pub enum TrackId {
    Netease(i64),
    Other(String),
}

impl TrackId {
    /// The NetEase song id this id is, if it is one.
    pub fn as_netease_song_id(&self) -> (r: Option<i64>)
        ensures
            r == (match *self {
                TrackId::Netease(id) => Some(id),
                TrackId::Other(_) => None::<i64>,
            }),
    {
        match self {
            TrackId::Netease(id) => Some(*id),
            TrackId::Other(_) => None,
        }
    }
}

/// A track: its source and its id there.
#[derive(Debug, Clone)]
pub struct TrackKey {
    pub source: SourceId,
    pub id: TrackId,
}

impl TrackKey {
    /// The NetEase song with this id.
    pub fn netease(id: i64) -> (r: Self)
        ensures
            r == (TrackKey { source: SourceId::Netease, id: TrackId::Netease(id) }),
    {
        TrackKey { source: SourceId::Netease, id: TrackId::Netease(id) }
    }
}

/// A wish about the quality of what plays.
#[derive(Debug, Clone, Copy)]
pub enum QualityHint {
    Bitrate(i64),
}

/// Something the player can play.
#[derive(Debug, Clone)]
pub enum Playable {
    RemoteUrl { url: String },
}

/// A track as a search lists it.
#[derive(Debug, Clone)]
pub struct TrackSummary {
    pub key: TrackKey,
    pub title: String,
    pub artists: String,
}

/// What the application asks of a source.
#[derive(Debug)]
pub enum SourceCommand {
    Init { req_id: u64, source: SourceId },
    SearchTracks { req_id: u64, source: SourceId, keywords: String, limit: i64, offset: i64 },
    ResolvePlayable { req_id: u64, track: TrackKey, quality: Option<QualityHint> },
    Lyric { req_id: u64, track: TrackKey },
}

/// What a source reports back.
#[allow(inconsistent_fields)]
#[derive(Debug)]
pub enum SourceEvent {
    Ready { req_id: u64 },
    SearchTracks { req_id: u64, tracks: Vec<TrackSummary> },
    PlayableResolved { req_id: u64, track: TrackKey, playable: Playable },
    Error { req_id: u64, track: Option<TrackKey>, message: String },
    Lyric { req_id: u64, track: TrackKey, lrc: Vec<LyricLine> },
}

/// Where a source command goes: to the service actor, or straight back as
/// an event.
#[derive(Debug)]
pub enum SourceRoute {
    Forward(NeteaseCommand),
    Reply(SourceEvent),
}

/// Whether `r` answers with an error about `track` with text `m`.
pub open spec fn is_source_error(r: SourceRoute, req_id: u64, track: Option<TrackKey>, m: Seq<char>) -> bool {
    r matches SourceRoute::Reply(SourceEvent::Error { req_id: q, track: t, message }) && q == req_id
        && t == track && message@ == m
}

fn not_supported(what: &str, source: &SourceId) -> (r: String)
    ensures
        r@ == what@ + " not supported for source="@ + source_name(*source),
{
    let mut m = what.to_string();
    push_str(&mut m, " not supported for source=");
    let n = source.name();
    push_str(&mut m, n.as_str());
    m
}

/// Routes a source command. For the NetEase source: start-up, a search (of
/// songs), the address of a track at the hinted bitrate (the highest without
/// a hint) and a track's lyrics go to the service actor; a track id that is
/// no NetEase song id is an error. Any other source is answered with an
/// error that names what it does not support.
pub fn route_source_command(cmd: SourceCommand) -> (r: SourceRoute)
    ensures
        match cmd {
            SourceCommand::Init { req_id, source } => match source {
                SourceId::Netease => r == SourceRoute::Forward(NeteaseCommand::Init { req_id }),
                SourceId::Other(_) => is_source_error(
                    r,
                    req_id,
                    None,
                    "Init"@ + " not supported for source="@ + source_name(source),
                ),
            },
            SourceCommand::SearchTracks { req_id, source, keywords, limit, offset } => match source {
                SourceId::Netease => r == SourceRoute::Forward(
                    NeteaseCommand::CloudSearchSongs { req_id, keywords, limit, offset },
                ),
                SourceId::Other(_) => is_source_error(
                    r,
                    req_id,
                    None,
                    "SearchTracks"@ + " not supported for source="@ + source_name(source),
                ),
            },
            SourceCommand::ResolvePlayable { req_id, track, quality } => match (track.source, track.id) {
                (SourceId::Netease, TrackId::Netease(id)) => r == SourceRoute::Forward(
                    NeteaseCommand::SongUrl {
                        req_id,
                        id,
                        br: match quality {
                            Some(QualityHint::Bitrate(v)) => v,
                            None => 999_000,
                        },
                    },
                ),
                (SourceId::Netease, TrackId::Other(_)) => is_source_error(
                    r,
                    req_id,
                    Some(track),
                    "invalid netease track id"@,
                ),
                (SourceId::Other(_), _) => is_source_error(
                    r,
                    req_id,
                    Some(track),
                    "ResolvePlayable not supported for this source"@,
                ),
            },
            SourceCommand::Lyric { req_id, track } => match (track.source, track.id) {
                (SourceId::Netease, TrackId::Netease(id)) => r == SourceRoute::Forward(
                    NeteaseCommand::Lyric { req_id, song_id: id },
                ),
                (SourceId::Netease, TrackId::Other(_)) => is_source_error(
                    r,
                    req_id,
                    Some(track),
                    "invalid netease track id"@,
                ),
                (SourceId::Other(_), _) => is_source_error(
                    r,
                    req_id,
                    Some(track),
                    "Lyric not supported for this source"@,
                ),
            },
        },
{
    match cmd {
        SourceCommand::Init { req_id, source } => match source {
            SourceId::Netease => SourceRoute::Forward(NeteaseCommand::Init { req_id }),
            SourceId::Other(_) => {
                let message = not_supported("Init", &source);
                SourceRoute::Reply(SourceEvent::Error { req_id, track: None, message })
            },
        },
        SourceCommand::SearchTracks { req_id, source, keywords, limit, offset } => match source {
            SourceId::Netease => SourceRoute::Forward(
                NeteaseCommand::CloudSearchSongs { req_id, keywords, limit, offset },
            ),
            SourceId::Other(_) => {
                let message = not_supported("SearchTracks", &source);
                SourceRoute::Reply(SourceEvent::Error { req_id, track: None, message })
            },
        },
        SourceCommand::ResolvePlayable { req_id, track, quality } => {
            if !matches!(track.source, SourceId::Netease) {
                return SourceRoute::Reply(
                    SourceEvent::Error {
                        req_id,
                        track: Some(track),
                        message: "ResolvePlayable not supported for this source".to_string(),
                    },
                );
            }
            match track.id.as_netease_song_id() {
                Some(id) => {
                    let br = match quality {
                        Some(QualityHint::Bitrate(v)) => v,
                        None => 999_000,
                    };
                    SourceRoute::Forward(NeteaseCommand::SongUrl { req_id, id, br })
                },
                None => SourceRoute::Reply(
                    SourceEvent::Error {
                        req_id,
                        track: Some(track),
                        message: "invalid netease track id".to_string(),
                    },
                ),
            }
        },
        SourceCommand::Lyric { req_id, track } => {
            if !matches!(track.source, SourceId::Netease) {
                return SourceRoute::Reply(
                    SourceEvent::Error {
                        req_id,
                        track: Some(track),
                        message: "Lyric not supported for this source".to_string(),
                    },
                );
            }
            match track.id.as_netease_song_id() {
                Some(id) => SourceRoute::Forward(NeteaseCommand::Lyric { req_id, song_id: id }),
                None => SourceRoute::Reply(
                    SourceEvent::Error {
                        req_id,
                        track: Some(track),
                        message: "invalid netease track id".to_string(),
                    },
                ),
            }
        },
    }
}

/// A song as a search lists it: its key, name and artists.
pub open spec fn summary_of(s: Song) -> TrackSummary {
    TrackSummary { key: TrackKey { source: SourceId::Netease, id: TrackId::Netease(s.id) }, title: s.name, artists: s.artists }
}

fn clone_lyrics(v: &Vec<LyricLine>) -> (r: Vec<LyricLine>)
    ensures
        r@ == v@,
{
    let mut out: Vec<LyricLine> = Vec::new();
    let mut i: usize = 0;
    while i < v.len()
        invariant
            i <= v@.len(),
            out@ == v@.take(i as int),
        decreases v.len() - i,
    {
        out.push(v[i].clone());
        i += 1;
        assert(v@.take(i as int) == v@.take(i - 1).push(v@[i - 1]));
    }
    assert(v@.take(v@.len() as int) == v@);
    out
}

/// The source event a service event is reported as: readiness; the songs
/// found as track summaries; a song's address as a playable URL; a song's
/// lyrics; a failure (about no track). Other events (the login and the
/// playlists) are not reported.
pub fn source_event_of(evt: &NeteaseEvent) -> (r: Option<SourceEvent>)
    ensures
        match *evt {
            NeteaseEvent::ClientReady { req_id, .. } => r == Some(SourceEvent::Ready { req_id }),
            NeteaseEvent::AnonymousReady { req_id } => r == Some(SourceEvent::Ready { req_id }),
            NeteaseEvent::SearchSongs { req_id, songs } => r matches Some(SourceEvent::SearchTracks { req_id: q, tracks })
                && q == req_id && tracks@ == songs@.map_values(|s: Song| summary_of(s)),
            NeteaseEvent::SongUrl { req_id, song_url } => r == Some(
                SourceEvent::PlayableResolved {
                    req_id,
                    track: TrackKey { source: SourceId::Netease, id: TrackId::Netease(song_url.id) },
                    playable: Playable::RemoteUrl { url: song_url.url },
                },
            ),
            NeteaseEvent::Lyric { req_id, song_id, lyrics } => r matches Some(SourceEvent::Lyric { req_id: q, track, lrc })
                && q == req_id && track == (TrackKey { source: SourceId::Netease, id: TrackId::Netease(song_id) })
                && lrc@ == lyrics@,
            NeteaseEvent::Error { req_id, message } => r matches Some(SourceEvent::Error { req_id: q, track: None, message: m })
                && q == req_id && m@ == message@,
            _ => r is None,
        },
{
    match evt {
        NeteaseEvent::ClientReady { req_id, .. } => Some(SourceEvent::Ready { req_id: *req_id }),
        NeteaseEvent::AnonymousReady { req_id } => Some(SourceEvent::Ready { req_id: *req_id }),
        NeteaseEvent::SearchSongs { req_id, songs } => {
            let mut tracks: Vec<TrackSummary> = Vec::new();
            let mut i: usize = 0;
            while i < songs.len()
                invariant
                    i <= songs@.len(),
                    tracks@ == songs@.take(i as int).map_values(|s: Song| summary_of(s)),
                decreases songs.len() - i,
            {
                let s = &songs[i];
                tracks.push(
                    TrackSummary { key: TrackKey::netease(s.id), title: s.name.clone(), artists: s.artists.clone() },
                );
                i += 1;
                assert(tracks@ =~= songs@.take(i as int).map_values(|s: Song| summary_of(s)));
            }
            assert(songs@.take(songs@.len() as int) == songs@);
            Some(SourceEvent::SearchTracks { req_id: *req_id, tracks })
        },
        NeteaseEvent::SongUrl { req_id, song_url } => Some(
            SourceEvent::PlayableResolved {
                req_id: *req_id,
                track: TrackKey::netease(song_url.id),
                playable: Playable::RemoteUrl { url: song_url.url.clone() },
            },
        ),
        NeteaseEvent::Lyric { req_id, song_id, lyrics } => Some(
            SourceEvent::Lyric { req_id: *req_id, track: TrackKey::netease(*song_id), lrc: clone_lyrics(lyrics) },
        ),
        NeteaseEvent::Error { req_id, message } => Some(
            SourceEvent::Error { req_id: *req_id, track: None, message: message.clone() },
        ),
        _ => None,
    }
}

} // verus!
