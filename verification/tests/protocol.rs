use syncho::client::{apply_event, ClientEvent, ClientPhase, ClientReaction, ClientSession, JoinError, PlayerCommand};
use syncho::host::{
    is_same_player, make_song, message_for_event, playback_status_song, HostAction, HostConnection,
    HostEvent, HostPhase, PlaybackState, PlayerEvent, Track,
};
use syncho::types::{frame, NetworkMessage, Song};

fn song(name: &str, position: u64) -> Song {
    Song {
        song_name: name.to_string(),
        artist_name: "Artist".to_string(),
        album_name: "Album".to_string(),
        position,
    }
}

fn track(album: Option<&str>) -> Track {
    Track {
        title: "Title".to_string(),
        artist: vec!["A".to_string(), "B".to_string()],
        album: album.map(|a| a.to_string()),
    }
}

#[test]
fn same_player_lowercases_the_reported_name_only() {
    assert!(is_same_player(&"spotify".to_string(), &"Spotify".to_string()));
    assert!(is_same_player(&"cider".to_string(), &"org.mpris.MediaPlayer2.Cider".to_string()));
    assert!(!is_same_player(&"Spotify".to_string(), &"spotify".to_string()));
    assert!(!is_same_player(&"cider".to_string(), &"spotify".to_string()));
}

#[test]
fn song_of_a_track_concatenates_artists() {
    let s = make_song(track(Some("Album X")));
    assert_eq!(s.song_name, "Title");
    assert_eq!(s.artist_name, "AB");
    assert_eq!(s.album_name, "Album X");
    assert_eq!(s.position, 0);
    assert_eq!(make_song(track(None)).album_name, "");
}

#[test]
fn playback_status_of_current_track() {
    assert_eq!(playback_status_song(None), None);
    assert_eq!(playback_status_song(Some(track(Some("Z")))).unwrap().album_name, "Z");
}

#[test]
fn playback_events_become_messages() {
    let name = "Spotify".to_string();
    let target = "spotify".to_string();
    assert!(matches!(
        message_for_event(PlayerEvent::TrackChanged { player_name: name.clone(), track: track(Some("Al")) }, &target),
        Some(NetworkMessage::Play(s)) if s.artist_name == "AB" && s.album_name == "Al"
    ));
    assert_eq!(
        message_for_event(PlayerEvent::StateChanged { player_name: name.clone(), state: PlaybackState::Stopped }, &target),
        Some(NetworkMessage::Message { msg: "Host has no media loaded. Standing by..".to_string() })
    );
    assert_eq!(
        message_for_event(PlayerEvent::StateChanged { player_name: name.clone(), state: PlaybackState::Paused }, &target),
        Some(NetworkMessage::PlayPause)
    );
    assert_eq!(
        message_for_event(PlayerEvent::StateChanged { player_name: "cider".to_string(), state: PlaybackState::Playing }, &target),
        None
    );
    assert_eq!(
        message_for_event(PlayerEvent::PositionChanged { player_name: name.clone(), secs: 83, nanos: 456_789_000 }, &target),
        Some(NetworkMessage::Seek { position: "83456".to_string() })
    );
    assert_eq!(message_for_event(PlayerEvent::Other, &target), None);
    let other = PlayerEvent::TrackChanged { player_name: "vlc".to_string(), track: track(Some("Al")) };
    assert_eq!(message_for_event(other, &target), None);
    let pos = PlayerEvent::PositionChanged { player_name: "firefox".to_string(), secs: 1, nanos: 0 };
    assert_eq!(message_for_event(pos, &target), None);
}

#[test]
fn host_accepts_the_right_code() {
    let mut c = HostConnection::new("1234".to_string());
    let a = c.step(HostEvent::Hello(Some(NetworkMessage::Auth { code: "1234".to_string() })));
    assert_eq!(a, vec![HostAction::Reply(NetworkMessage::AuthOk), HostAction::FetchStatus]);
    assert_eq!(c.phase, HostPhase::AwaitingStatus);
    let a = c.step(HostEvent::Status(Some(song("S", 5))));
    assert_eq!(a, vec![HostAction::Reply(NetworkMessage::CurrentState { song: Some(song("S", 5)) })]);
    assert_eq!(c.phase, HostPhase::Forwarding);
    let a = c.step(HostEvent::Broadcast(NetworkMessage::PlayPause));
    assert_eq!(a, vec![HostAction::Forward(NetworkMessage::PlayPause)]);
    assert_eq!(c.step(HostEvent::Lagged(3)), vec![]);
    assert_eq!(c.step(HostEvent::ForwardFailed), vec![HostAction::Close]);
    assert_eq!(c.phase, HostPhase::Closed);
    assert_eq!(c.step(HostEvent::Broadcast(NetworkMessage::PlayPause)), vec![]);
}

#[test]
fn host_refuses_a_wrong_code_or_another_message() {
    let mut c = HostConnection::new("1234".to_string());
    let a = c.step(HostEvent::Hello(Some(NetworkMessage::Auth { code: "4321".to_string() })));
    assert_eq!(a, vec![HostAction::Reply(NetworkMessage::AuthFail), HostAction::Close]);
    assert_eq!(c.phase, HostPhase::Closed);

    let mut c = HostConnection::new("1234".to_string());
    assert_eq!(
        c.step(HostEvent::Hello(Some(NetworkMessage::PlayPause))),
        vec![HostAction::Reply(NetworkMessage::AuthFail), HostAction::Close]
    );
    let mut c = HostConnection::new("1234".to_string());
    assert_eq!(
        c.step(HostEvent::Hello(None)),
        vec![HostAction::Reply(NetworkMessage::AuthFail), HostAction::Close]
    );
    let mut c = HostConnection::new("1234".to_string());
    assert_eq!(c.step(HostEvent::Disconnected), vec![HostAction::Close]);
    assert_eq!(c.phase, HostPhase::Closed);
}

#[test]
fn host_ignores_broadcasts_before_authentication() {
    let mut c = HostConnection::new("1234".to_string());
    assert_eq!(c.step(HostEvent::Broadcast(NetworkMessage::PlayPause)), vec![]);
    assert_eq!(c.phase, HostPhase::AwaitingAuth);
}

#[test]
fn host_closes_when_the_channel_closes() {
    let mut c = HostConnection::new("1".to_string());
    c.step(HostEvent::Hello(Some(NetworkMessage::Auth { code: "1".to_string() })));
    c.step(HostEvent::Status(None));
    assert_eq!(c.step(HostEvent::ChannelClosed), vec![HostAction::Close]);
}

#[test]
fn messages_become_player_commands() {
    assert_eq!(apply_event(NetworkMessage::Seek { position: "1500".to_string() }), vec![PlayerCommand::Seek(1500)]);
    assert_eq!(
        apply_event(NetworkMessage::CurrentState { song: Some(song("S", 42)) }),
        vec![PlayerCommand::Play(song("S", 42)), PlayerCommand::Seek(42)]
    );
    assert_eq!(apply_event(NetworkMessage::CurrentState { song: None }), vec![]);
    assert_eq!(apply_event(NetworkMessage::Play(song("P", 0))), vec![PlayerCommand::Play(song("P", 0))]);
    assert_eq!(apply_event(NetworkMessage::Next(song("N", 0))), vec![PlayerCommand::Play(song("N", 0))]);
    assert_eq!(apply_event(NetworkMessage::Previous(song("V", 0))), vec![PlayerCommand::Play(song("V", 0))]);
    assert_eq!(apply_event(NetworkMessage::PlayPause), vec![PlayerCommand::PlayPause]);
    assert_eq!(apply_event(NetworkMessage::PlayLater(song("L", 0))), vec![PlayerCommand::PlayLater(song("L", 0))]);
    assert_eq!(apply_event(NetworkMessage::PlayNext(song("X", 0))), vec![PlayerCommand::PlayNext(song("X", 0))]);
    assert_eq!(
        apply_event(NetworkMessage::Message { msg: "hi".to_string() }),
        vec![PlayerCommand::Show("hi".to_string())]
    );
    assert_eq!(apply_event(NetworkMessage::AuthOk), vec![]);
    assert_eq!(apply_event(NetworkMessage::AuthFail), vec![]);
    assert_eq!(apply_event(NetworkMessage::Auth { code: "1".to_string() }), vec![]);
}

#[test]
fn client_session_after_acceptance() {
    let mut s = ClientSession::new();
    assert_eq!(s.step(ClientEvent::Line(Some(NetworkMessage::AuthOk))), ClientReaction::Authenticated);
    assert_eq!(s.phase, ClientPhase::Syncing);
    assert_eq!(
        s.step(ClientEvent::Line(Some(NetworkMessage::PlayPause))),
        ClientReaction::Apply(vec![PlayerCommand::PlayPause])
    );
    assert_eq!(s.step(ClientEvent::Line(None)), ClientReaction::SkipMalformed);
    assert_eq!(s.step(ClientEvent::HostClosed), ClientReaction::Finish(Ok(())));
    assert_eq!(s.phase, ClientPhase::Done);
    assert_eq!(s.step(ClientEvent::Line(Some(NetworkMessage::PlayPause))), ClientReaction::Idle);
}

#[test]
fn client_session_refused() {
    let mut s = ClientSession::new();
    assert_eq!(
        s.step(ClientEvent::Line(Some(NetworkMessage::AuthFail))),
        ClientReaction::Finish(Err(JoinError::AuthenticationFailed))
    );
    let mut s = ClientSession::new();
    assert_eq!(
        s.step(ClientEvent::Line(Some(NetworkMessage::PlayPause))),
        ClientReaction::Finish(Err(JoinError::UnexpectedAuthResponse))
    );
    let mut s = ClientSession::new();
    assert_eq!(s.step(ClientEvent::Line(None)), ClientReaction::Finish(Err(JoinError::MalformedAuthResponse)));
    let mut s = ClientSession::new();
    assert_eq!(s.step(ClientEvent::HostClosed), ClientReaction::Finish(Err(JoinError::MalformedAuthResponse)));
    assert_eq!(s.phase, ClientPhase::Done);
}

#[test]
fn handshake_between_host_and_listener() {
    for (client_code, accepted) in [("5678", true), ("5679", false)] {
        let mut host = HostConnection::new("5678".to_string());
        let actions = host.step(HostEvent::Hello(Some(NetworkMessage::Auth { code: client_code.to_string() })));
        let reply = match &actions[0] {
            HostAction::Reply(m) => m.clone(),
            other => panic!("unexpected {:?}", other),
        };
        let mut client = ClientSession::new();
        let r = client.step(ClientEvent::Line(Some(reply)));
        if accepted {
            assert_eq!(r, ClientReaction::Authenticated);
        } else {
            assert_eq!(r, ClientReaction::Finish(Err(JoinError::AuthenticationFailed)));
        }
    }
}

#[test]
fn host_event_reaches_listener() {
    let ev = PlayerEvent::PositionChanged { player_name: "p".to_string(), secs: 12, nanos: 3_000_000 };
    let m = message_for_event(ev, &"p".to_string()).unwrap();
    assert_eq!(apply_event(m), vec![PlayerCommand::Seek(12003)]);
    let m = message_for_event(PlayerEvent::StateChanged { player_name: "p".to_string(), state: PlaybackState::Playing }, &"p".to_string()).unwrap();
    assert_eq!(apply_event(m), vec![PlayerCommand::PlayPause]);
}

#[test]
fn frames_end_with_a_newline() {
    assert_eq!(frame("{\"type\":\"auth_ok\"}"), "{\"type\":\"auth_ok\"}\n");
    assert_eq!(frame(""), "\n");
}

#[test]
fn accepted_listener_gets_every_broadcast_in_order() {
    let mut c = HostConnection::new("7".to_string());
    c.step(HostEvent::Hello(Some(NetworkMessage::Auth { code: "7".to_string() })));
    c.step(HostEvent::Status(None));
    let sent = vec![
        NetworkMessage::PlayPause,
        NetworkMessage::Seek { position: "10".to_string() },
        NetworkMessage::Play(song("A", 0)),
    ];
    let mut forwarded = Vec::new();
    for (i, m) in sent.iter().enumerate() {
        forwarded.extend(c.step(HostEvent::Broadcast(m.clone())));
        if i == 1 {
            forwarded.extend(c.step(HostEvent::Lagged(2)));
        }
    }
    assert_eq!(forwarded, sent.into_iter().map(HostAction::Forward).collect::<Vec<_>>());
}

#[test]
fn accepted_listener_follows_every_message() {
    let mut s = ClientSession::new();
    s.step(ClientEvent::Line(Some(NetworkMessage::AuthOk)));
    let ms = vec![NetworkMessage::PlayPause, NetworkMessage::Play(song("B", 0)), NetworkMessage::Seek { position: "+5".to_string() }];
    for m in ms {
        let expected = ClientReaction::Apply(apply_event(m.clone()));
        assert_eq!(s.step(ClientEvent::Line(Some(m))), expected);
        assert_eq!(s.phase, ClientPhase::Syncing);
    }
}

#[test]
fn refused_listener_ignores_everything_after() {
    let mut s = ClientSession::new();
    assert_eq!(
        s.step(ClientEvent::Line(Some(NetworkMessage::Message { msg: "x".to_string() }))),
        ClientReaction::Finish(Err(JoinError::UnexpectedAuthResponse))
    );
    assert_eq!(s.step(ClientEvent::Line(Some(NetworkMessage::AuthOk))), ClientReaction::Idle);
    assert_eq!(s.step(ClientEvent::Line(Some(NetworkMessage::PlayPause))), ClientReaction::Idle);
    assert_eq!(s.step(ClientEvent::HostClosed), ClientReaction::Idle);
}

#[test]
fn framed_line_reads_back() {
    let json = "{\"type\":\"seek\",\"position\":\"12\"}";
    assert_eq!(syncho::text::trim(&frame(json)), json);
    assert_eq!(syncho::text::trim(&frame("")), "");
}
