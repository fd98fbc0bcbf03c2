use syncho::attributes::SongAttributes;
use syncho::cider::{is_combining, normalize, search_path, CiderControl, SearchRetry};
use syncho::json::Json;
use syncho::media::{
    artist_text, is_player_interface, status_event, title_text, MediaEvent, MediaWatcher, PlayerSignal, SessionWatch,
};
use syncho::player::{get_song, song_from_fields, PlayState, Player};
use syncho::session::{config_from_answers, config_path, generate_numeric_code, player_choices, setup_prompts};
use syncho::spotify::{
    command_outcome, current_song_step, device_choice, is_expired_token_error, is_no_content,
    is_success, parse_song, play_body, search_outcome, search_query, seek_query, toggle_endpoint,
    toggle_step, track_uri, transfer_body, transfer_outcome, CommandOutcome, CurrentSongStep,
    DeviceChoice, RefreshError, SearchOutcome, SpotifyPlayer, ToggleStep,
};
use syncho::types::{Config, SongFields};

fn s(t: &str) -> Json {
    Json::Str(t.to_string())
}

fn obj(fields: Vec<(&str, Json)>) -> Json {
    Json::Object(fields.into_iter().map(|(k, v)| (k.to_string(), v)).collect())
}

fn spotify() -> SpotifyPlayer {
    SpotifyPlayer::new("rt".to_string(), "id".to_string(), "secret".to_string(), "at".to_string())
}

#[test]
fn normalizes_titles_for_search() {
    assert_eq!(normalize("  Héllo   Wörld! "), "hello world");
    assert_eq!(normalize("Café del Mar"), "cafe del mar");
    assert_eq!(normalize("Song (Remastered 2009)"), "song remastered 2009");
    assert_eq!(normalize("Track - Live"), "track live");
    assert_eq!(normalize("ÀÉÎ"), "aei");
    assert_eq!(normalize(""), "");
    assert!(is_combining('\u{0301}'));
    assert!(!is_combining('a'));
}

#[test]
fn search_path_of_a_song() {
    assert_eq!(search_path("Yesterday"), "/v1/catalog/in/search?types=songs&term=Yesterday");
}

#[test]
fn search_retry_waits_longer_and_gives_up() {
    let mut r = SearchRetry::new();
    let waits: Vec<Option<u64>> = (0..7).map(|_| r.on_failure()).collect();
    assert_eq!(
        waits,
        vec![
            Some(1_000_000_000),
            Some(1_500_000_000),
            Some(2_250_000_000),
            Some(3_375_000_000),
            Some(5_062_500_000),
            Some(7_593_750_000),
            None
        ]
    );
    assert_eq!(r.failures, 6);
}

#[test]
fn cider_control_keeps_its_token() {
    assert_eq!(CiderControl::new(&"tok".to_string()).token, "tok");
}

#[test]
fn play_state_from_config() {
    let c = PlayState::new(&Config::Cider { token: "t".to_string() });
    assert_eq!(c.player, Player::Cider(CiderControl { token: "t".to_string() }));
    assert_eq!(c.get_player_str(), "cider");
    assert_eq!(c.seek_position(1234), Some(1234));
    let sp = PlayState::new(&Config::Spotify {
        refresh_token: "rt".to_string(),
        client_id: "id".to_string(),
        client_secret: "secret".to_string(),
        access_token: "at".to_string(),
    });
    assert_eq!(sp.player, Player::Spotify(spotify()));
    assert_eq!(sp.get_player_str(), "spotify");
    assert_eq!(sp.seek_position(1234), None);
}

#[test]
fn song_from_reported_fields() {
    let f = |p: &str| SongFields {
        song_name: "a".to_string(),
        artist_name: "b".to_string(),
        album_name: "c".to_string(),
        position: p.to_string(),
    };
    assert_eq!(song_from_fields(f("61000")).position, 61000);
    assert_eq!(song_from_fields(f("12.5")).position, 0);
    assert_eq!(song_from_fields(f("-3")).position, 0);
    assert_eq!(song_from_fields(f("61000")).album_name, "c");
}

#[test]
fn song_asked_for_by_name() {
    let song = get_song("n".to_string(), "al".to_string(), "ar".to_string());
    assert_eq!((song.song_name.as_str(), song.album_name.as_str(), song.artist_name.as_str(), song.position), ("n", "al", "ar", 0));
}

#[test]
fn join_codes_have_four_digits() {
    for _ in 0..200 {
        let code = generate_numeric_code();
        assert_eq!(code.len(), 4);
        let v: u32 = code.parse().unwrap();
        assert!((1111..9999).contains(&v));
    }
}

#[test]
fn configuration_setup() {
    assert_eq!(config_path("/home/me"), "/home/me/.syncho");
    assert_eq!(player_choices(), vec!["Cider".to_string(), "Spotify".to_string()]);
    assert_eq!(setup_prompts(0), vec!["Enter your Cider token".to_string()]);
    assert_eq!(setup_prompts(1).len(), 4);
    assert_eq!(config_from_answers(0, vec!["tok".to_string()]), Config::Cider { token: "tok".to_string() });
    assert_eq!(
        config_from_answers(1, vec!["r".to_string(), "i".to_string(), "s".to_string(), "a".to_string()]),
        Config::Spotify {
            refresh_token: "r".to_string(),
            client_id: "i".to_string(),
            client_secret: "s".to_string(),
            access_token: "a".to_string()
        }
    );
}

#[test]
fn media_status_names() {
    assert_eq!(status_event("Playing"), Some(MediaEvent::Playing));
    assert_eq!(status_event("Paused"), Some(MediaEvent::Paused));
    assert_eq!(status_event("Stopped"), Some(MediaEvent::Stopped));
    assert_eq!(status_event("playing"), None);
    assert_eq!(status_event(""), None);
}

#[test]
fn media_track_reports_are_deduplicated() {
    let mut w = MediaWatcher::new();
    let e = w.track_reported("T".to_string(), "A".to_string());
    assert_eq!(e, Some(MediaEvent::TrackChanged { title: "T".to_string(), artist: "A".to_string() }));
    assert_eq!(w.track_reported("T".to_string(), "A".to_string()), None);
    assert!(w.track_reported("T".to_string(), "B".to_string()).is_some());
    assert_eq!(artist_text(Some(vec!["X".to_string(), "Y".to_string()])), "X, Y");
    assert_eq!(artist_text(None), "");
    assert_eq!(title_text(None), "");
    assert_eq!(title_text(Some("t".to_string())), "t");
}

#[test]
fn session_watch_subscribes_once_per_application() {
    let mut w = SessionWatch::new();
    assert!(w.session_changed(Some("app".to_string())));
    assert!(!w.session_changed(Some("app".to_string())));
    assert!(w.session_changed(Some("other".to_string())));
    assert!(w.session_changed(None));
    assert!(!w.session_changed(None));
    w.session_lost();
    assert_eq!(w.current_app, None);
}

#[test]
fn spotify_status_classes() {
    assert!(is_expired_token_error(401));
    assert!(!is_expired_token_error(403));
    assert!(is_success(200) && is_success(204) && !is_success(300) && !is_success(199));
    assert!(is_no_content(204));
    assert_eq!(command_outcome(401), CommandOutcome::RefreshAndRetry);
    assert_eq!(command_outcome(204), CommandOutcome::Completed);
    assert_eq!(command_outcome(200), CommandOutcome::Completed);
    assert_eq!(command_outcome(404), CommandOutcome::Failed);
    assert_eq!(transfer_outcome(401), CommandOutcome::RefreshAndRetry);
    assert_eq!(transfer_outcome(500), CommandOutcome::Completed);
}

#[test]
fn spotify_authorization_header() {
    let h = spotify().basic_authorization();
    assert_eq!(h, "Basic aWQ6c2VjcmV0");
    let form = spotify().refresh_form();
    assert_eq!(form, vec![
        ("grant_type".to_string(), "refresh_token".to_string()),
        ("refresh_token".to_string(), "rt".to_string())
    ]);
}

#[test]
fn spotify_token_refresh() {
    let mut p = spotify();
    assert_eq!(p.apply_token_refresh(400, &obj(vec![("access_token", s("x"))])), Err(RefreshError::Rejected(400)));
    assert_eq!(p, spotify());
    assert_eq!(p.apply_token_refresh(200, &obj(vec![])), Err(RefreshError::MissingAccessToken));
    assert_eq!(p, spotify());
    assert_eq!(p.apply_token_refresh(200, &obj(vec![("access_token", s("new"))])), Ok(()));
    assert_eq!(p.access_token, "new");
    assert_eq!(p.refresh_token, "rt");
    assert_eq!(
        p.apply_token_refresh(200, &obj(vec![("access_token", s("n2")), ("refresh_token", s("r2"))])),
        Ok(())
    );
    assert_eq!((p.access_token.as_str(), p.refresh_token.as_str()), ("n2", "r2"));
    let c = p.config();
    assert_eq!(c, Config::Spotify {
        refresh_token: "r2".to_string(),
        client_id: "id".to_string(),
        client_secret: "secret".to_string(),
        access_token: "n2".to_string()
    });
}

fn device(id: Option<&str>, kind: &str, active: bool) -> Json {
    let mut f = vec![("type", s(kind)), ("is_active", Json::Bool(active))];
    if let Some(i) = id {
        f.push(("id", s(i)));
    }
    obj(f)
}

#[test]
fn spotify_device_choice() {
    let body = |ds: Vec<Json>| obj(vec![("devices", Json::Array(ds))]);
    assert_eq!(device_choice(401, &obj(vec![])), DeviceChoice::RefreshAndRetry);
    assert_eq!(device_choice(500, &body(vec![device(Some("a"), "Computer", true)])), DeviceChoice::Found(None));
    assert_eq!(device_choice(200, &obj(vec![])), DeviceChoice::Found(None));
    assert_eq!(
        device_choice(200, &body(vec![device(Some("p"), "Smartphone", false), device(Some("a"), "Speaker", true)])),
        DeviceChoice::Found(Some("a".to_string()))
    );
    assert_eq!(
        device_choice(200, &body(vec![device(None, "Speaker", true)])),
        DeviceChoice::Found(None)
    );
    assert_eq!(
        device_choice(200, &body(vec![device(Some("p"), "Smartphone", false), device(Some("c"), "Computer", false)])),
        DeviceChoice::TransferTo("c".to_string())
    );
    assert_eq!(
        device_choice(200, &body(vec![device(Some("p"), "Smartphone", false), device(Some("q"), "Speaker", false)])),
        DeviceChoice::TransferTo("p".to_string())
    );
    assert_eq!(device_choice(200, &body(vec![])), DeviceChoice::Found(None));
}

fn playing_body(progress: Json) -> Json {
    obj(vec![
        ("is_playing", Json::Bool(true)),
        ("progress_ms", progress),
        (
            "item",
            obj(vec![
                ("name", s("Song")),
                ("artists", Json::Array(vec![obj(vec![("name", s("First"))]), obj(vec![("name", s("Second"))])])),
                ("album", obj(vec![("name", s("Album"))])),
            ]),
        ),
    ])
}

#[test]
fn spotify_parse_song() {
    let f = parse_song(&playing_body(Json::Int(61234))).unwrap();
    assert_eq!(
        f,
        SongFields {
            song_name: "Song".to_string(),
            artist_name: "First".to_string(),
            album_name: "Album".to_string(),
            position: "61234".to_string()
        }
    );
    assert_eq!(parse_song(&playing_body(Json::Int(-5))).unwrap().position, "-5");
    assert_eq!(parse_song(&playing_body(Json::OtherNumber("1.5".to_string()))), None);
    assert_eq!(parse_song(&obj(vec![("progress_ms", Json::Int(1))])), None);
}

#[test]
fn spotify_current_song_steps() {
    let b = playing_body(Json::Int(10));
    assert_eq!(current_song_step(204, Some(&b), false), CurrentSongStep::Done(None));
    assert_eq!(current_song_step(200, None, false), CurrentSongStep::Done(None));
    assert_eq!(current_song_step(401, Some(&b), false), CurrentSongStep::Refresh);
    assert_eq!(current_song_step(500, Some(&b), false), CurrentSongStep::Done(None));
    assert_eq!(current_song_step(200, Some(&b), false), CurrentSongStep::Done(parse_song(&b)));
    assert_eq!(current_song_step(401, Some(&b), true), CurrentSongStep::Done(parse_song(&b)));
}

#[test]
fn spotify_toggle_endpoint() {
    assert_eq!(toggle_endpoint(&obj(vec![("is_playing", Json::Bool(true))])), "https://api.spotify.com/v1/me/player/pause");
    assert_eq!(toggle_endpoint(&obj(vec![("is_playing", Json::Bool(false))])), "https://api.spotify.com/v1/me/player/play");
    assert_eq!(toggle_endpoint(&Json::Null), "https://api.spotify.com/v1/me/player/play");
}

#[test]
fn spotify_search() {
    assert_eq!(search_query("So", "Al", "Ar"), "track:So album:Al artist:Ar");
    let found = obj(vec![(
        "tracks",
        obj(vec![("items", Json::Array(vec![obj(vec![("id", s("T1")), ("album", obj(vec![("uri", s("spotify:album:A1"))]))])]))]),
    )]);
    assert_eq!(
        search_outcome(200, &found),
        SearchOutcome::Found { track_id: "T1".to_string(), album_uri: "spotify:album:A1".to_string() }
    );
    let bare = obj(vec![("tracks", obj(vec![("items", Json::Array(vec![obj(vec![])]))]))]);
    assert_eq!(search_outcome(200, &bare), SearchOutcome::Found { track_id: String::new(), album_uri: String::new() });
    let none = obj(vec![("tracks", obj(vec![("items", Json::Array(vec![]))]))]);
    assert_eq!(search_outcome(200, &none), SearchOutcome::NotFound);
    assert_eq!(search_outcome(401, &none), SearchOutcome::RefreshAndRetry);
    assert_eq!(search_outcome(400, &none), SearchOutcome::Failed);
}

#[test]
fn spotify_request_bodies() {
    assert_eq!(track_uri("abc"), "spotify:track:abc");
    assert_eq!(
        play_body("spotify:album:x".to_string(), "spotify:track:y".to_string()),
        obj(vec![("context_uri", s("spotify:album:x")), ("offset", obj(vec![("uri", s("spotify:track:y"))]))])
    );
    assert_eq!(
        transfer_body("dev"),
        obj(vec![("device_ids", Json::Array(vec![s("dev")])), ("play", Json::Bool(true))])
    );
    assert_eq!(seek_query(90210), "90210");
}

#[test]
fn spotify_progress_becomes_position() {
    let f = parse_song(&playing_body(Json::Int(61234))).unwrap();
    assert_eq!(song_from_fields(f).position, 61234);
    let f = parse_song(&playing_body(Json::Int(-1))).unwrap();
    assert_eq!(song_from_fields(f).position, 0);
}

#[test]
fn song_attributes_read_back() {
    let a = SongAttributes::of_song("n".to_string(), "ar".to_string(), "al".to_string(), "12.5".to_string());
    assert_eq!(
        a.song_fields(),
        SongFields { song_name: "n".to_string(), artist_name: "ar".to_string(), album_name: "al".to_string(), position: "12.5".to_string() }
    );
    assert_eq!(a.get("artist_name"), Some("ar".to_string()));
    assert_eq!(a.get("genre"), None);
    assert_eq!(song_from_fields(a.song_fields()).position, 0);
}

#[test]
fn spotify_toggle_steps() {
    let playing = obj(vec![("is_playing", Json::Bool(true))]);
    assert_eq!(toggle_step(204, Some(&playing)), ToggleStep::NothingPlaying);
    assert_eq!(toggle_step(204, None), ToggleStep::NothingPlaying);
    assert_eq!(toggle_step(200, None), ToggleStep::Unreadable);
    assert_eq!(toggle_step(401, Some(&playing)), ToggleStep::RefreshAndRetry);
    assert_eq!(
        toggle_step(200, Some(&playing)),
        ToggleStep::Toggle("https://api.spotify.com/v1/me/player/pause".to_string())
    );
    assert_eq!(
        toggle_step(500, Some(&Json::Null)),
        ToggleStep::Toggle("https://api.spotify.com/v1/me/player/play".to_string())
    );
}

#[test]
fn only_player_interface_changes_are_read() {
    assert!(is_player_interface("org.mpris.MediaPlayer2.Player"));
    assert!(!is_player_interface("org.mpris.MediaPlayer2"));
    assert!(!is_player_interface(""));
}

#[test]
fn search_keys_are_clean() {
    for title in ["  A  b\tC ", "x--y", "Über (Live) - 2020", "", "   "] {
        let k = normalize(title);
        assert!(!k.starts_with(' ') && !k.ends_with(' ') && !k.contains("  "), "{:?}", k);
        assert!(k.chars().all(|c| c == ' ' || (c.is_alphanumeric() && !c.is_whitespace())));
    }
}

#[test]
fn stream_of_track_reports_changes_each_time_it_differs() {
    let mut w = MediaWatcher::new();
    let reports = [("a", "x"), ("a", "x"), ("b", "x"), ("b", "x"), ("a", "x"), ("a", "y")];
    let changes: Vec<(String, String)> = reports
        .iter()
        .filter_map(|(t, a)| match w.track_reported(t.to_string(), a.to_string()) {
            Some(MediaEvent::TrackChanged { title, artist }) => Some((title, artist)),
            _ => None,
        })
        .collect();
    let expected: Vec<(String, String)> =
        [("a", "x"), ("b", "x"), ("a", "x"), ("a", "y")].iter().map(|(t, a)| (t.to_string(), a.to_string())).collect();
    assert_eq!(changes, expected);
    assert!(changes.windows(2).all(|p| p[0] != p[1]));
}

fn signal(interface: &str, status: Option<&str>, meta: Option<(Option<&str>, Option<Vec<&str>>)>) -> PlayerSignal {
    PlayerSignal {
        interface: interface.to_string(),
        status: status.map(|s| s.to_string()),
        metadata: meta.map(|(t, a)| (t.map(|t| t.to_string()), a.map(|v| v.into_iter().map(|x| x.to_string()).collect()))),
    }
}

#[test]
fn player_signals_make_events() {
    let player = "org.mpris.MediaPlayer2.Player";
    let mut w = MediaWatcher::new();
    assert_eq!(
        w.on_signal(signal(player, Some("Playing"), Some((Some("T"), Some(vec!["A", "B"]))))),
        vec![MediaEvent::Playing, MediaEvent::TrackChanged { title: "T".to_string(), artist: "A, B".to_string() }]
    );
    assert_eq!(w.on_signal(signal(player, Some("Paused"), Some((Some("T"), Some(vec!["A", "B"]))))), vec![MediaEvent::Paused]);
    assert_eq!(w.on_signal(signal(player, Some("Buffering"), None)), vec![]);
    assert_eq!(
        w.on_signal(signal(player, None, Some((None, None)))),
        vec![MediaEvent::TrackChanged { title: String::new(), artist: String::new() }]
    );
}

#[test]
fn other_interface_signals_change_nothing() {
    let mut w = MediaWatcher::new();
    w.on_signal(signal("org.mpris.MediaPlayer2.Player", None, Some((Some("T"), None))));
    let before = w.last_track.clone();
    assert_eq!(w.on_signal(signal("org.mpris.MediaPlayer2", Some("Playing"), Some((Some("U"), None)))), vec![]);
    assert_eq!(w.last_track, before);
}

#[test]
fn ascii_titles_keep_letters_digits_and_single_spaces() {
    assert_eq!(normalize("Hello, World!  x"), "hello world x");
    assert_eq!(normalize("  R.E.M.\tLosing_My Religion 2 "), "rem losingmy religion 2");
    assert_eq!(normalize("!!!"), "");
    for title in ["Don't Stop Me Now", "a\t\nb", "ABC 123 xyz", "(x) - y"] {
        let expected: Vec<String> = title
            .to_lowercase()
            .chars()
            .filter(|c| c.is_ascii_alphanumeric() || c.is_whitespace())
            .collect::<String>()
            .split_whitespace()
            .map(|w| w.to_string())
            .collect();
        assert_eq!(normalize(title), expected.join(" "));
    }
}
