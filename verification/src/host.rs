//! The host side: which protocol message each playback event of the host's
//! player becomes, and the conversation with one listener (authentication,
//! then forwarding).

use vstd::prelude::*;
use crate::text::{
    contains, contains_seq, decimal, join, join_seqs, push_seq, u128_to_string, views_of,
};
use crate::types::{NetworkMessage, Song};
use crate::unicode::{lowercase, to_lowercase};

verus! {

/// A track as the host's media source reports it.
#[derive(Debug, PartialEq, Eq, Clone)]
pub struct Track {
    pub title: String,
    pub artist: Vec<String>,
    pub album: Option<String>,
}

/// The playback state of the host's player.
#[derive(Debug, PartialEq, Eq, Clone, Copy)]
pub enum PlaybackState {
    Playing,
    Paused,
    Stopped,
}

/// A change on the host's player, as its media source reports it.
/// `PositionChanged` carries the new position as whole seconds and the
/// nanoseconds below them.
#[derive(Debug, PartialEq, Eq, Clone)]
pub enum PlayerEvent {
    TrackChanged { player_name: String, track: Track },
    StateChanged { player_name: String, state: PlaybackState },
    PositionChanged { player_name: String, secs: u64, nanos: u32 },
    Other,
}

/// Whether the player called `current_player` is the one called
/// `target_player`: the lowercased current name contains the target name.
pub fn is_same_player(target_player: &String, current_player: &String) -> (b: bool)
    ensures
        b == contains_seq(lowercase(current_player@), target_player@),
{
    let lower = to_lowercase(current_player.as_str());
    contains(lower.as_str(), target_player.as_str())
}

/// The album name of a track: its album, or the empty string.
pub open spec fn album_or_empty(album: Option<String>) -> Seq<char> {
    match album {
        Some(a) => a@,
        None => Seq::empty(),
    }
}

/// The song announced for a track: its title, its artists concatenated, its
/// album (empty when there is none), at position 0.
pub open spec fn song_of_track(track: Track) -> (Seq<char>, Seq<char>, Seq<char>, u64) {
    (track.title@, join_seqs(views_of(track.artist@), Seq::empty()), album_or_empty(track.album), 0)
}

/// The plain fields of a song.
pub open spec fn song_fields(song: Song) -> (Seq<char>, Seq<char>, Seq<char>, u64) {
    (song.song_name@, song.artist_name@, song.album_name@, song.position)
}

/// The song announced for a track.
pub fn make_song(track: Track) -> (song: Song)
    ensures
        song_fields(song) == song_of_track(track),
{
    proof {
        reveal_strlit("");
    }
    let artist_name = join(&track.artist, "");
    assert(""@ =~= Seq::<char>::empty());
    assert(artist_name@ == song_of_track(track).1);
    let album_name = match track.album {
        Some(name) => name,
        None => String::new(),
    };
    assert(album_name@ == song_of_track(track).2);
    Song { song_name: track.title, artist_name, album_name, position: 0 }
}

/// The song that a listener is told is playing on the host, from the current
/// track of the host's first player. The album must be known.
pub fn playback_status_song(current_track: Option<Track>) -> (song: Option<Song>)
    requires
        current_track matches Some(t) ==> t.album is Some,
    ensures
        match current_track {
            Some(t) => song matches Some(s) && song_fields(s) == song_of_track(t),
            None => song is None,
        },
{
    match current_track {
        Some(track) => Some(make_song(track)),
        None => None,
    }
}

/// The whole milliseconds of a duration of `secs` seconds and `nanos`
/// nanoseconds, as `Duration::as_millis` gives them.
pub open spec fn millis_of(secs: u64, nanos: u32) -> nat {
    (secs as nat) * 1000 + (nanos as nat) / 1_000_000
}

/// The text a listener is sent when the host's player stops.
pub open spec fn standing_by_text() -> Seq<char> {
    "Host has no media loaded. Standing by.."@
}

/// Whether `m` is what the host broadcasts for a playback event `ev` of its
/// player: a track change announces the track's song, a stop tells that the
/// host stands by, any other state change toggles play/pause, a position
/// change seeks to the position in milliseconds, and nothing else is sent.
pub open spec fn announces(ev: PlayerEvent, m: Option<NetworkMessage>) -> bool {
    match ev {
        PlayerEvent::TrackChanged { track, .. } => m matches Some(NetworkMessage::Play(s))
            && song_fields(s) == song_of_track(track),
        PlayerEvent::StateChanged { state, .. } => if state == PlaybackState::Stopped {
            m matches Some(NetworkMessage::Message { msg }) && msg@ == standing_by_text()
        } else {
            m == Some(NetworkMessage::PlayPause)
        },
        PlayerEvent::PositionChanged { secs, nanos, .. } => m matches Some(
            NetworkMessage::Seek { position },
        ) && position@ == decimal(millis_of(secs, nanos)),
        PlayerEvent::Other => m is None,
    }
}

/// The name of the player that reported an event, if the event names one.
pub open spec fn event_player(ev: PlayerEvent) -> Option<Seq<char>> {
    match ev {
        PlayerEvent::TrackChanged { player_name, .. } => Some(player_name@),
        PlayerEvent::StateChanged { player_name, .. } => Some(player_name@),
        PlayerEvent::PositionChanged { player_name, .. } => Some(player_name@),
        PlayerEvent::Other => None,
    }
}

/// Whether `m` is what the host broadcasts for an event `ev` when it follows
/// the player named `target`: an event of another player (one whose
/// lowercased name does not contain `target`) is ignored; an event of the
/// followed player is announced.
pub open spec fn broadcast_for(ev: PlayerEvent, target: Seq<char>, m: Option<NetworkMessage>) -> bool {
    match event_player(ev) {
        Some(name) => if contains_seq(lowercase(name), target) {
            announces(ev, m)
        } else {
            m is None
        },
        None => m is None,
    }
}

/// The message the host broadcasts for a playback event, when it follows
/// the player named `target_player`.
pub fn message_for_event(ev: PlayerEvent, target_player: &String) -> (m: Option<NetworkMessage>)
    ensures
        broadcast_for(ev, target_player@, m),
        event_player(ev) matches Some(name) && !contains_seq(lowercase(name), target_player@) ==> m is None,
{
    let followed = match &ev {
        PlayerEvent::TrackChanged { player_name, .. } => is_same_player(target_player, player_name),
        PlayerEvent::StateChanged { player_name, .. } => is_same_player(target_player, player_name),
        PlayerEvent::PositionChanged { player_name, .. } => is_same_player(target_player, player_name),
        PlayerEvent::Other => false,
    };
    if !followed {
        // Ignore if the change was reported by some other player.
        return None;
    }
    match ev {
        PlayerEvent::TrackChanged { track, .. } => Some(NetworkMessage::Play(make_song(track))),
        PlayerEvent::StateChanged { state, .. } => match state {
            PlaybackState::Stopped => {
                let mut msg = String::new();
                push_seq(&mut msg, "Host has no media loaded. Standing by..");
                Some(NetworkMessage::Message { msg })
            },
            _ => Some(NetworkMessage::PlayPause),
        },
        PlayerEvent::PositionChanged { secs, nanos, .. } => {
            let millis: u128 = (secs as u128) * 1000 + (nanos as u128) / 1_000_000;
            Some(NetworkMessage::Seek { position: u128_to_string(millis) })
        },
        PlayerEvent::Other => None,
    }
}

/// Where the host's conversation with one listener stands.
#[derive(Debug, PartialEq, Eq, Clone, Copy)]
pub enum HostPhase {
    /// Waiting for the listener's first line, which must carry the code.
    AwaitingAuth,
    /// The listener is in; the host's current song is being looked up.
    AwaitingStatus,
    /// Every broadcast message is passed on to the listener.
    Forwarding,
    /// The conversation is over.
    Closed,
}

/// What happens on the host's side of one listener's connection.
#[derive(Debug, PartialEq, Eq, Clone)]
pub enum HostEvent {
    /// The listener's first line arrived; `None` when it is no protocol message.
    Hello(Option<NetworkMessage>),
    /// The listener went away before sending anything.
    Disconnected,
    /// The host's current song, looked up after a successful authentication.
    Status(Option<Song>),
    /// A message broadcast by the host.
    Broadcast(NetworkMessage),
    /// The listener fell behind and this many broadcast messages were dropped.
    Lagged(u64),
    /// Passing a broadcast message on to the listener failed.
    ForwardFailed,
    /// The broadcast channel was closed.
    ChannelClosed,
}

/// What the host does for one listener.
#[derive(Debug, PartialEq, Eq, Clone)]
pub enum HostAction {
    /// Write the message to the listener; a failure to write is ignored.
    Reply(NetworkMessage),
    /// Look up the host's current song.
    FetchStatus,
    /// Write the broadcast message to the listener; report a failure.
    Forward(NetworkMessage),
    /// End the conversation.
    Close,
}

/// Whether a first line authenticates a listener for the session `code`.
pub open spec fn authenticates(code: Seq<char>, hello: Option<NetworkMessage>) -> bool {
    hello matches Some(NetworkMessage::Auth { code: c }) && c@ == code
}

/// The next phase and the actions of the host's conversation with one
/// listener in session `code`, when `ev` happens in phase `phase`.
pub open spec fn host_next(code: Seq<char>, phase: HostPhase, ev: HostEvent) -> (
    HostPhase,
    Seq<HostAction>,
) {
    match (phase, ev) {
        (HostPhase::AwaitingAuth, HostEvent::Hello(hello)) => if authenticates(code, hello) {
            (
                HostPhase::AwaitingStatus,
                seq![HostAction::Reply(NetworkMessage::AuthOk), HostAction::FetchStatus],
            )
        } else {
            (HostPhase::Closed, seq![HostAction::Reply(NetworkMessage::AuthFail), HostAction::Close])
        },
        (HostPhase::AwaitingAuth, HostEvent::Disconnected) => (
            HostPhase::Closed,
            seq![HostAction::Close],
        ),
        (HostPhase::AwaitingStatus, HostEvent::Status(song)) => (
            HostPhase::Forwarding,
            seq![HostAction::Reply(NetworkMessage::CurrentState { song })],
        ),
        (HostPhase::Forwarding, HostEvent::Broadcast(m)) => (
            HostPhase::Forwarding,
            seq![HostAction::Forward(m)],
        ),
        (HostPhase::Forwarding, HostEvent::ForwardFailed) => (
            HostPhase::Closed,
            seq![HostAction::Close],
        ),
        (HostPhase::Forwarding, HostEvent::ChannelClosed) => (
            HostPhase::Closed,
            seq![HostAction::Close],
        ),
        (p, _) => (p, Seq::empty()),
    }
}

/// The host's conversation with one listener.
pub struct HostConnection {
    pub session_code: String,
    pub phase: HostPhase,
}

impl HostConnection {
    /// A conversation that waits for the listener to authenticate with `session_code`.
    pub fn new(session_code: String) -> (c: HostConnection)
        ensures
            c.session_code == session_code,
            c.phase == HostPhase::AwaitingAuth,
    {
        HostConnection { session_code, phase: HostPhase::AwaitingAuth }
    }

    /// Takes one event and gives the actions it calls for.
    pub fn step(&mut self, ev: HostEvent) -> (actions: Vec<HostAction>)
        ensures
            final(self).session_code == old(self).session_code,
            (final(self).phase, actions@) == host_next(
                old(self).session_code@,
                old(self).phase,
                ev,
            ),
    {
        let ghost ev0 = ev;
        let mut actions: Vec<HostAction> = Vec::new();
        match self.phase {
            HostPhase::AwaitingAuth => match ev {
                HostEvent::Hello(hello) => {
                    let ok = match &hello {
                        Some(NetworkMessage::Auth { code }) => *code == self.session_code,
                        _ => false,
                    };
                    if ok {
                        actions.push(HostAction::Reply(NetworkMessage::AuthOk));
                        actions.push(HostAction::FetchStatus);
                        self.phase = HostPhase::AwaitingStatus;
                    } else {
                        actions.push(HostAction::Reply(NetworkMessage::AuthFail));
                        actions.push(HostAction::Close);
                        self.phase = HostPhase::Closed;
                    }
                },
                HostEvent::Disconnected => {
                    actions.push(HostAction::Close);
                    self.phase = HostPhase::Closed;
                },
                _ => {},
            },
            HostPhase::AwaitingStatus => match ev {
                HostEvent::Status(song) => {
                    actions.push(HostAction::Reply(NetworkMessage::CurrentState { song }));
                    self.phase = HostPhase::Forwarding;
                },
                _ => {},
            },
            HostPhase::Forwarding => match ev {
                HostEvent::Broadcast(m) => {
                    actions.push(HostAction::Forward(m));
                },
                HostEvent::ForwardFailed | HostEvent::ChannelClosed => {
                    actions.push(HostAction::Close);
                    self.phase = HostPhase::Closed;
                },
                _ => {},
            },
            HostPhase::Closed => {},
        }
        assert(actions@ == host_next(old(self).session_code@, old(self).phase, ev0).1);
        actions
    }
}

} // verus!
