//! The local player a user has configured, and the songs it reports.

use vstd::prelude::*;
use crate::cider::CiderControl;
use crate::spotify::SpotifyPlayer;
use crate::text::{parse_u64, parsed_u64, push_seq};
use crate::types::{Config, Song, SongFields};

verus! {

/// The player a user listens with.
#[derive(Debug, Clone, PartialEq, Eq)]
pub enum Player {
    Cider(CiderControl),
    Spotify(SpotifyPlayer),
}

/// The local player.
#[derive(Debug, Clone, PartialEq, Eq)]
pub struct PlayState {
    pub player: Player,
}

/// Whether a player is the one a configuration describes, with its
/// credentials.
pub open spec fn player_of(config: Config, player: Player) -> bool {
    match config {
        Config::Cider { token } => player matches Player::Cider(c) && c.token@ == token@,
        Config::Spotify { refresh_token, client_id, client_secret, access_token } => player matches Player::Spotify(
            p,
        ) && p.refresh_token@ == refresh_token@ && p.client_id@ == client_id@ && p.client_secret@
            == client_secret@ && p.access_token@ == access_token@,
    }
}

/// The name by which a player is told apart from others.
pub open spec fn player_name(player: Player) -> Seq<char> {
    match player {
        Player::Cider(_) => "cider"@,
        Player::Spotify(_) => "spotify"@,
    }
}

impl PlayState {
    /// The player a configuration describes.
    pub fn new(config: &Config) -> (s: PlayState)
        ensures
            player_of(*config, s.player),
    {
        let player = match config {
            Config::Cider { token } => Player::Cider(CiderControl::new(token)),
            Config::Spotify { refresh_token, client_id, client_secret, access_token } => Player::Spotify(
                SpotifyPlayer::new(
                    refresh_token.clone(),
                    client_id.clone(),
                    client_secret.clone(),
                    access_token.clone(),
                ),
            ),
        };
        PlayState { player }
    }

    /// The name of the player: `cider` or `spotify`.
    pub fn get_player_str(&self) -> (name: String)
        ensures
            name@ == player_name(self.player),
    {
        let mut name = String::new();
        match self.player {
            Player::Cider(_) => push_seq(&mut name, "cider"),
            Player::Spotify(_) => push_seq(&mut name, "spotify"),
        }
        name
    }

    /// Where a seek to `new_position` goes on this player: the position for
    /// Cider, which takes it as a `u64`; Spotify seeks nowhere.
    pub fn seek_position(&self, new_position: u128) -> (p: Option<u64>)
        requires
            self.player is Cider ==> new_position <= u64::MAX,
        ensures
            self.player is Cider ==> p == Some(new_position as u64),
            self.player is Spotify ==> p is None,
    {
        match self.player {
            Player::Cider(_) => Some(new_position as u64),
            Player::Spotify(_) => None,
        }
    }
}

/// The song a player reports: its names as given, and the position read as
/// a `u64`, or 0 when it is no such number.
pub fn song_from_fields(fields: SongFields) -> (song: Song)
    ensures
        song.song_name@ == fields.song_name@,
        song.artist_name@ == fields.artist_name@,
        song.album_name@ == fields.album_name@,
        song.position == match parsed_u64(fields.position@) {
            Some(p) => p,
            None => 0,
        },
{
    let position = match parse_u64(fields.position.as_str()) {
        Some(p) => p,
        None => 0,
    };
    Song {
        song_name: fields.song_name,
        artist_name: fields.artist_name,
        album_name: fields.album_name,
        position,
    }
}

/// The song a user asks for by name, album and artist, from its start.
pub fn get_song(song_name: String, album_name: String, artist_name: String) -> (song: Song)
    ensures
        song.song_name == song_name,
        song.album_name == album_name,
        song.artist_name == artist_name,
        song.position == 0,
{
    Song { song_name, artist_name, album_name, position: 0 }
}

} // verus!
