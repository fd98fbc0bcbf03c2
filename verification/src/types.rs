//! The values that travel between host and listeners, and the player
//! configuration.

use vstd::prelude::*;
use crate::text::{is_white, trim_end, trim_start, trimmed};

verus! {

/// A song as the host announces it: its names and a position in the track.
#[derive(Debug, PartialEq, Eq)]
pub struct Song {
    pub song_name: String,
    pub artist_name: String,
    pub album_name: String,
    pub position: u64,
}

impl Clone for Song {
    fn clone(&self) -> (r: Song)
        ensures
            r == *self,
    {
        Song {
            song_name: self.song_name.clone(),
            artist_name: self.artist_name.clone(),
            album_name: self.album_name.clone(),
            position: self.position,
        }
    }
}

/// The player a user has configured, with the credentials it needs.
#[derive(Debug, PartialEq, Eq, Clone)]
pub enum Config {
    Cider { token: String },
    Spotify {
        refresh_token: String,
        client_id: String,
        client_secret: String,
        access_token: String,
    },
}

/// One line of the session protocol between a host and a listener.
#[derive(Debug, PartialEq, Eq, Clone)]
pub enum NetworkMessage {
    Auth { code: String },
    AuthOk,
    AuthFail,
    Message { msg: String },
    Seek { position: String },
    CurrentState { song: Option<Song> },
    Play(Song),
    PlayPause,
    Next(Song),
    Previous(Song),
    PlayLater(Song),
    PlayNext(Song),
}

/// What a player reports of its current song, each field as text; the
/// position is the text of a number.
#[derive(Debug, PartialEq, Eq, Clone)]
pub struct SongFields {
    pub song_name: String,
    pub artist_name: String,
    pub album_name: String,
    pub position: String,
}

/// A protocol message as it goes on the wire: its JSON text and a newline.
pub fn frame(json: &str) -> (line: String)
    ensures
        line@ == json@.push('\n'),
{
    let mut line = String::new();
    crate::text::push_seq(&mut line, json);
    line.push('\n');
    line
}

/// A framed line read back (trimmed, as a receiver reads it) gives the
/// JSON text again, when that text has no whitespace at either end.
pub proof fn law_frame_reads_back(json: Seq<char>)
    requires
        json.len() > 0 ==> !is_white(json[0]) && !is_white(json.last()),
    ensures
        trimmed(json.push('\n')) == json,
{
    let line = json.push('\n');
    assert(is_white('\n'));
    if json.len() == 0 {
        assert(line.drop_first() =~= Seq::<char>::empty());
        assert(trim_start(line) == trim_start(line.drop_first()));
    } else {
        assert(line[0] == json[0]);
        assert(trim_start(line) == line);
        assert(line.drop_last() =~= json);
        assert(trim_end(line) == trim_end(json));
    }
}

} // verus!
