use netease_ratui::model::{LyricLine, Song, SongUrl};
use netease_ratui::netease_actor::{NeteaseCommand, NeteaseEvent};
use netease_ratui::source_hub::{
    route_source_command, source_event_of, Playable, QualityHint, SourceCommand, SourceEvent, SourceId,
    SourceRoute, TrackId, TrackKey,
};

#[test]
fn netease_commands_are_forwarded() {
    assert!(matches!(
        route_source_command(SourceCommand::Init { req_id: 1, source: SourceId::Netease }),
        SourceRoute::Forward(NeteaseCommand::Init { req_id: 1 })
    ));
    match route_source_command(SourceCommand::SearchTracks {
        req_id: 2,
        source: SourceId::Netease,
        keywords: "k".to_string(),
        limit: 10,
        offset: 5,
    }) {
        SourceRoute::Forward(NeteaseCommand::CloudSearchSongs { req_id, keywords, limit, offset }) => {
            assert_eq!((req_id, keywords.as_str(), limit, offset), (2, "k", 10, 5));
        }
        other => panic!("unexpected {:?}", other),
    }
    assert!(matches!(
        route_source_command(SourceCommand::ResolvePlayable { req_id: 3, track: TrackKey::netease(7), quality: None }),
        SourceRoute::Forward(NeteaseCommand::SongUrl { req_id: 3, id: 7, br: 999_000 })
    ));
    assert!(matches!(
        route_source_command(SourceCommand::ResolvePlayable {
            req_id: 3,
            track: TrackKey::netease(7),
            quality: Some(QualityHint::Bitrate(128_000))
        }),
        SourceRoute::Forward(NeteaseCommand::SongUrl { req_id: 3, id: 7, br: 128_000 })
    ));
    assert!(matches!(
        route_source_command(SourceCommand::Lyric { req_id: 4, track: TrackKey::netease(8) }),
        SourceRoute::Forward(NeteaseCommand::Lyric { req_id: 4, song_id: 8 })
    ));
}

#[test]
fn other_sources_and_bad_ids_are_errors() {
    match route_source_command(SourceCommand::Init { req_id: 1, source: SourceId::Other("local".to_string()) }) {
        SourceRoute::Reply(SourceEvent::Error { req_id: 1, track: None, message }) => {
            assert_eq!(message, "Init not supported for source=local")
        }
        other => panic!("unexpected {:?}", other),
    }
    let bad = TrackKey { source: SourceId::Netease, id: TrackId::Other("x".to_string()) };
    match route_source_command(SourceCommand::Lyric { req_id: 2, track: bad }) {
        SourceRoute::Reply(SourceEvent::Error { track: Some(_), message, .. }) => assert_eq!(message, "invalid netease track id"),
        other => panic!("unexpected {:?}", other),
    }
    let other = TrackKey { source: SourceId::Other("o".to_string()), id: TrackId::Netease(1) };
    match route_source_command(SourceCommand::ResolvePlayable { req_id: 2, track: other, quality: None }) {
        SourceRoute::Reply(SourceEvent::Error { message, .. }) => {
            assert_eq!(message, "ResolvePlayable not supported for this source")
        }
        other => panic!("unexpected {:?}", other),
    }
}

#[test]
fn service_events_as_source_events() {
    assert!(matches!(source_event_of(&NeteaseEvent::ClientReady { req_id: 5, logged_in: true }), Some(SourceEvent::Ready { req_id: 5 })));
    let songs = vec![Song { id: 3, name: "n".to_string(), artists: "a".to_string() }];
    match source_event_of(&NeteaseEvent::SearchSongs { req_id: 6, songs }) {
        Some(SourceEvent::SearchTracks { req_id: 6, tracks }) => {
            assert_eq!(tracks.len(), 1);
            assert_eq!(tracks[0].title, "n");
            assert!(matches!(tracks[0].key.id, TrackId::Netease(3)));
        }
        other => panic!("unexpected {:?}", other),
    }
    match source_event_of(&NeteaseEvent::SongUrl { req_id: 7, song_url: SongUrl { id: 9, url: "u".to_string() } }) {
        Some(SourceEvent::PlayableResolved { req_id: 7, track, playable: Playable::RemoteUrl { url } }) => {
            assert_eq!(url, "u");
            assert!(matches!(track.id, TrackId::Netease(9)));
        }
        other => panic!("unexpected {:?}", other),
    }
    let lyrics = vec![LyricLine { time_ms: 1, text: "t".to_string(), translation: None }];
    assert!(matches!(source_event_of(&NeteaseEvent::Lyric { req_id: 8, song_id: 2, lyrics }), Some(SourceEvent::Lyric { req_id: 8, .. })));
    assert!(source_event_of(&NeteaseEvent::Playlists { req_id: 1, playlists: vec![] }).is_none());
    assert!(matches!(source_event_of(&NeteaseEvent::Error { req_id: 2, message: "m".to_string() }), Some(SourceEvent::Error { req_id: 2, track: None, .. })));
}
