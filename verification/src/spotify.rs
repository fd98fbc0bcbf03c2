//! Spotify specifics: the credentials and their refresh, and how each
//! answer of the Spotify Web API is read and what is done next.

use vstd::prelude::*;
use crate::json::{
    lookup, array_of, bool_of, deref_opt, field, field_of, i64_of, item_of, str_of, Json,
};
use crate::text::{decimal, i64_to_string, push_seq, signed_decimal, u128_to_string};
use crate::types::{Config, SongFields};

verus! {

/// What the `base64` crate's standard engine (`general_purpose::STANDARD`,
/// with padding) encodes the UTF-8 bytes of a text into.
pub uninterp spec fn standard_base64(text: Seq<char>) -> Seq<char>;

/// The longest text, in characters, whose base64 length is sure to fit a
/// `usize`: a character takes at most four UTF-8 bytes, and every three
/// bytes make four characters, plus four for a last partial group.
pub open spec fn max_encodable_chars() -> int {
    (usize::MAX - 4) / 16 * 3
}

/// Calls `base64::Engine::encode` with the standard engine on the UTF-8
/// bytes of `text`; the result is named `standard_base64` of the text. The
/// crate panics only when the encoded length overflows `usize`
/// (`encoded_len` returns `None`), which the bound on the length rules out.
#[verifier::external_body]
fn base64_encode(text: &str) -> (r: String)
    requires
        text@.len() <= max_encodable_chars(),
    ensures
        r@ == standard_base64(text@),
{
    base64::Engine::encode(&base64::engine::general_purpose::STANDARD, text)
}

/// HTTP status 200 to 299, as `StatusCode::is_success` tells it.
pub open spec fn success(status: u16) -> bool {
    200 <= status && status <= 299
}

/// Whether an answer says the access token has expired (HTTP 401).
pub fn is_expired_token_error(status: u16) -> (b: bool)
    ensures
        b == (status == 401),
{
    status == 401
}

/// Whether an answer is a success (HTTP 2xx).
pub fn is_success(status: u16) -> (b: bool)
    ensures
        b == success(status),
{
    200 <= status && status <= 299
}

/// Whether an answer has no content (HTTP 204).
pub fn is_no_content(status: u16) -> (b: bool)
    ensures
        b == (status == 204),
{
    status == 204
}

/// A user's Spotify credentials.
#[derive(Debug, Clone, PartialEq, Eq)]
pub struct SpotifyPlayer {
    pub refresh_token: String,
    pub client_id: String,
    pub client_secret: String,
    pub access_token: String,
}

/// What follows an answer to a playback command.
#[derive(Debug, Clone, Copy, PartialEq, Eq)]
pub enum CommandOutcome {
    /// The access token expired: refresh it and send the command again.
    RefreshAndRetry,
    /// The command was carried out.
    Completed,
    /// The command failed.
    Failed,
}

/// What follows an answer to a playback command with this status.
pub open spec fn command_outcome_spec(status: u16) -> CommandOutcome {
    if status == 401 {
        CommandOutcome::RefreshAndRetry
    } else if !success(status) && status != 204 {
        CommandOutcome::Failed
    } else {
        CommandOutcome::Completed
    }
}

/// What follows an answer to a playback command (previous, next, play,
/// pause, seek, queue).
pub fn command_outcome(status: u16) -> (o: CommandOutcome)
    ensures
        o == command_outcome_spec(status),
{
    if is_expired_token_error(status) {
        CommandOutcome::RefreshAndRetry
    } else if !is_success(status) && status != 204 {
        CommandOutcome::Failed
    } else {
        CommandOutcome::Completed
    }
}

/// Only an expired token (401) makes a command refresh the token and go
/// again; every other status outside 200 to 299 fails the command, and
/// every status from 200 to 299 completes it.
pub proof fn law_only_expired_token_retries(status: u16)
    ensures
        (command_outcome_spec(status) == CommandOutcome::RefreshAndRetry) <==> status == 401,
        (status < 200 || status > 299) && status != 401 ==> command_outcome_spec(status)
            == CommandOutcome::Failed,
        200 <= status && status <= 299 ==> command_outcome_spec(status) == CommandOutcome::Completed,
{
}

/// What follows an answer to a transfer of playback: a retry after a token
/// refresh when the token expired, and nothing else in any other case.
pub fn transfer_outcome(status: u16) -> (o: CommandOutcome)
    ensures
        o == (if status == 401 {
            CommandOutcome::RefreshAndRetry
        } else {
            CommandOutcome::Completed
        }),
{
    if is_expired_token_error(status) {
        CommandOutcome::RefreshAndRetry
    } else {
        CommandOutcome::Completed
    }
}

/// Why refreshing the access token failed.
#[derive(Debug, Clone, Copy, PartialEq, Eq)]
pub enum RefreshError {
    /// The token endpoint answered with this non-success status.
    Rejected(u16),
    /// The answer held no access token.
    MissingAccessToken,
}

/// Whether the credentials are short enough to be encoded for the token
/// endpoint.
pub open spec fn credentials_fit(p: SpotifyPlayer) -> bool {
    p.client_id@.len() + p.client_secret@.len() < max_encodable_chars()
}

impl SpotifyPlayer {
    /// Whether the credentials are short enough to be encoded for the
    /// token endpoint.
    pub fn can_encode_credentials(&self) -> (b: bool)
        ensures
            b == credentials_fit(*self),
    {
        let id = crate::text::chars_of(self.client_id.as_str());
        let secret = crate::text::chars_of(self.client_secret.as_str());
        let bound: usize = (usize::MAX - 4) / 16 * 3;
        id.len() < bound && secret.len() < bound - id.len()
    }

    /// The credentials of a user.
    pub fn new(refresh_token: String, client_id: String, client_secret: String, access_token: String) -> (p: SpotifyPlayer)
        ensures
            p.refresh_token == refresh_token,
            p.client_id == client_id,
            p.client_secret == client_secret,
            p.access_token == access_token,
    {
        SpotifyPlayer { refresh_token, client_id, client_secret, access_token }
    }

    /// The configuration that holds these credentials, as it is saved.
    pub fn config(&self) -> (c: Config)
        ensures
            c matches Config::Spotify { refresh_token, client_id, client_secret, access_token }
                && refresh_token@ == self.refresh_token@ && client_id@ == self.client_id@
                && client_secret@ == self.client_secret@ && access_token@ == self.access_token@,
    {
        Config::Spotify {
            refresh_token: self.refresh_token.clone(),
            client_id: self.client_id.clone(),
            client_secret: self.client_secret.clone(),
            access_token: self.access_token.clone(),
        }
    }

    /// The `Authorization` header for the token endpoint: `Basic ` and the
    /// base64 of `client_id:client_secret`.
    pub fn basic_authorization(&self) -> (h: String)
        requires
            credentials_fit(*self),
        ensures
            h@ == "Basic "@ + standard_base64(self.client_id@ + ":"@ + self.client_secret@),
    {
        let mut pair = String::new();
        push_seq(&mut pair, self.client_id.as_str());
        push_seq(&mut pair, ":");
        push_seq(&mut pair, self.client_secret.as_str());
        proof {
            reveal_strlit(":");
        }
        let encoded = base64_encode(pair.as_str());
        let mut h = String::new();
        push_seq(&mut h, "Basic ");
        push_seq(&mut h, encoded.as_str());
        h
    }

    /// The form sent to the token endpoint: the grant type `refresh_token`
    /// and the refresh token.
    pub fn refresh_form(&self) -> (form: Vec<(String, String)>)
        ensures
            form@.len() == 2,
            form@[0].0@ == "grant_type"@,
            form@[0].1@ == "refresh_token"@,
            form@[1].0@ == "refresh_token"@,
            form@[1].1@ == self.refresh_token@,
    {
        let mut form: Vec<(String, String)> = Vec::new();
        let mut k0 = String::new();
        push_seq(&mut k0, "grant_type");
        let mut v0 = String::new();
        push_seq(&mut v0, "refresh_token");
        let mut k1 = String::new();
        push_seq(&mut k1, "refresh_token");
        form.push((k0, v0));
        form.push((k1, self.refresh_token.clone()));
        form
    }

    /// Takes the token endpoint's answer. A success that holds an access
    /// token installs it, and a new refresh token when it holds one; anything
    /// else fails and leaves the credentials as they were.
    pub fn apply_token_refresh(&mut self, status: u16, body: &Json) -> (r: Result<(), RefreshError>)
        ensures
            final(self).client_id == old(self).client_id,
            final(self).client_secret == old(self).client_secret,
            !success(status) ==> r == Err::<(), RefreshError>(RefreshError::Rejected(status))
                && *final(self) == *old(self),
            success(status) && str_of(field(*body, "access_token"@)) is None ==> r == Err::<
                (),
                RefreshError,
            >(RefreshError::MissingAccessToken) && *final(self) == *old(self),
            success(status) && str_of(field(*body, "access_token"@)) is Some ==> {
                &&& r is Ok
                &&& final(self).access_token@ == str_of(field(*body, "access_token"@)).unwrap()
                &&& final(self).refresh_token@ == match str_of(field(*body, "refresh_token"@)) {
                    Some(t) => t,
                    None => old(self).refresh_token@,
                }
            },
    {
        if !is_success(status) {
            return Err(RefreshError::Rejected(status));
        }
        let access = match body.get("access_token") {
            Some(v) => match v.as_str() {
                Some(s) => s.clone(),
                None => {
                    return Err(RefreshError::MissingAccessToken);
                },
            },
            None => {
                return Err(RefreshError::MissingAccessToken);
            },
        };
        match body.get("refresh_token") {
            Some(v) => match v.as_str() {
                Some(s) => {
                    self.refresh_token = s.clone();
                },
                None => {},
            },
            None => {},
        }
        self.access_token = access;
        Ok(())
    }
}

/// The view of an optional string.
pub open spec fn opt_view(o: Option<String>) -> Option<Seq<char>> {
    match o {
        Some(s) => Some(s@),
        None => None,
    }
}

/// Whether a device is the active one.
pub open spec fn is_active_device(d: Json) -> bool {
    bool_of(field(d, "is_active"@)) == Some(true)
}

/// Whether a device is a computer (the desktop app).
pub open spec fn is_computer(d: Json) -> bool {
    str_of(field(d, "type"@)) == Some("Computer"@)
}

/// The position of the first active device at or after `i`.
pub open spec fn first_active_from(ds: Seq<Json>, i: nat) -> Option<nat>
    decreases ds.len() - i,
{
    if i >= ds.len() {
        None
    } else if is_active_device(ds[i as int]) {
        Some(i)
    } else {
        first_active_from(ds, i + 1)
    }
}

/// The position of the first computer at or after `i`.
pub open spec fn first_computer_from(ds: Seq<Json>, i: nat) -> Option<nat>
    decreases ds.len() - i,
{
    if i >= ds.len() {
        None
    } else if is_computer(ds[i as int]) {
        Some(i)
    } else {
        first_computer_from(ds, i + 1)
    }
}

/// The device to wake when none is active: the first computer, else the
/// first device.
pub open spec fn wake_candidate(ds: Seq<Json>) -> Option<Json> {
    match first_computer_from(ds, 0) {
        Some(i) => Some(ds[i as int]),
        None => if ds.len() > 0 {
            Some(ds[0])
        } else {
            None
        },
    }
}

/// Which device playback goes to, from the answer listing the devices.
#[derive(Debug, Clone, PartialEq, Eq)]
pub enum DeviceChoice {
    /// The access token expired: refresh it and ask again.
    RefreshAndRetry,
    /// This device (or none) is the one in use.
    Found(Option<String>),
    /// No device is active: transfer playback to this one, which is then used.
    TransferTo(String),
}

/// Whether `d` is the device choice for an answer with `status` and `body`:
/// the active device's id when one is active; otherwise a transfer to the
/// first computer, or else to the first device, when that has an id; and
/// no device when the answer is no success or lists no devices.
pub open spec fn device_choice_spec(status: u16, body: Json, d: DeviceChoice) -> bool {
    if status == 401 {
        d == DeviceChoice::RefreshAndRetry
    } else if !success(status) {
        d == DeviceChoice::Found(None)
    } else {
        match array_of(field(body, "devices"@)) {
            None => d == DeviceChoice::Found(None),
            Some(ds) => match first_active_from(ds, 0) {
                Some(i) => d matches DeviceChoice::Found(o) && opt_view(o) == str_of(
                    field(ds[i as int], "id"@),
                ),
                None => match str_of(field_of(wake_candidate(ds), "id"@)) {
                    Some(id) => d matches DeviceChoice::TransferTo(t) && t@ == id,
                    None => d == DeviceChoice::Found(None),
                },
            },
        }
    }
}

proof fn lemma_first_active_is(ds: Seq<Json>, i: nat, k: nat)
    requires
        k <= i < ds.len(),
        is_active_device(ds[i as int]),
        forall|j: int| k <= j < i ==> !is_active_device(#[trigger] ds[j]),
    ensures
        first_active_from(ds, k) == Some(i),
    decreases i - k,
{
    if k < i {
        lemma_first_active_is(ds, i, k + 1);
    }
}

/// On a successful answer, when some listed device is active, the device
/// used is the first active one, by its id, and playback is never moved:
/// a list whose first device is active is used as it is.
pub proof fn law_active_device_is_used(status: u16, body: Json, d: DeviceChoice, ds: Seq<Json>, i: int)
    requires
        device_choice_spec(status, body, d),
        200 <= status && status <= 299,
        array_of(field(body, "devices"@)) == Some(ds),
        0 <= i < ds.len(),
        bool_of(field(ds[i], "is_active"@)) == Some(true),
        forall|j: int| 0 <= j < i ==> bool_of(field(#[trigger] ds[j], "is_active"@)) != Some(true),
    ensures
        d matches DeviceChoice::Found(o) && opt_view(o) == str_of(field(ds[i], "id"@)),
        !(d is TransferTo),
{
    lemma_first_active_is(ds, i as nat, 0);
}

proof fn lemma_no_active(ds: Seq<Json>, k: nat)
    requires
        k <= ds.len(),
        forall|j: int| k <= j < ds.len() ==> !is_active_device(#[trigger] ds[j]),
    ensures
        first_active_from(ds, k) is None,
    decreases ds.len() - k,
{
    if k < ds.len() {
        lemma_no_active(ds, k + 1);
    }
}

proof fn lemma_first_computer_is(ds: Seq<Json>, i: nat, k: nat)
    requires
        k <= i < ds.len(),
        is_computer(ds[i as int]),
        forall|j: int| k <= j < i ==> !is_computer(#[trigger] ds[j]),
    ensures
        first_computer_from(ds, k) == Some(i),
    decreases i - k,
{
    if k < i {
        lemma_first_computer_is(ds, i, k + 1);
    }
}

proof fn lemma_no_computer(ds: Seq<Json>, k: nat)
    requires
        k <= ds.len(),
        forall|j: int| k <= j < ds.len() ==> !is_computer(#[trigger] ds[j]),
    ensures
        first_computer_from(ds, k) is None,
    decreases ds.len() - k,
{
    if k < ds.len() {
        lemma_no_computer(ds, k + 1);
    }
}

/// On a successful answer listing devices none of which is active,
/// playback is moved to the first computer when one is listed (and has an
/// id), else to the first device; a list of no devices gives no device.
pub proof fn law_idle_devices_wake_a_computer(status: u16, body: Json, d: DeviceChoice, ds: Seq<Json>)
    requires
        device_choice_spec(status, body, d),
        200 <= status && status <= 299,
        array_of(field(body, "devices"@)) == Some(ds),
        forall|j: int| 0 <= j < ds.len() ==> bool_of(field(#[trigger] ds[j], "is_active"@)) != Some(true),
    ensures
        ds.len() == 0 ==> d == DeviceChoice::Found(None),
        forall|i: int|
            0 <= i < ds.len() && str_of(field(#[trigger] ds[i], "type"@)) == Some("Computer"@) && (forall|j: int|
                0 <= j < i ==> str_of(field(#[trigger] ds[j], "type"@)) != Some("Computer"@)) && str_of(
                field(ds[i], "id"@),
            ) is Some ==> (d matches DeviceChoice::TransferTo(t) && Some(t@) == str_of(field(ds[i], "id"@))),
        ds.len() > 0 && (forall|j: int| 0 <= j < ds.len() ==> str_of(field(#[trigger] ds[j], "type"@)) != Some(
            "Computer"@,
        )) && str_of(field(ds[0], "id"@)) is Some ==> (d matches DeviceChoice::TransferTo(t) && Some(t@)
            == str_of(field(ds[0], "id"@))),
{
    lemma_no_active(ds, 0);
    assert forall|i: int|
        0 <= i < ds.len() && str_of(field(#[trigger] ds[i], "type"@)) == Some("Computer"@) && (forall|j: int|
            0 <= j < i ==> str_of(field(#[trigger] ds[j], "type"@)) != Some("Computer"@)) && str_of(
            field(ds[i], "id"@),
        ) is Some implies (d matches DeviceChoice::TransferTo(t) && Some(t@) == str_of(field(ds[i], "id"@))) by {
        lemma_first_computer_is(ds, i as nat, 0);
    }
    if forall|j: int| 0 <= j < ds.len() ==> str_of(field(#[trigger] ds[j], "type"@)) != Some("Computer"@) {
        lemma_no_computer(ds, 0);
    }
}

fn id_of(d: &Json) -> (r: Option<String>)
    ensures
        opt_view(r) == str_of(field(*d, "id"@)),
{
    match d.get("id") {
        Some(v) => match v.as_str() {
            Some(s) => Some(s.clone()),
            None => None,
        },
        None => None,
    }
}

fn device_is_active(d: &Json) -> (b: bool)
    ensures
        b == is_active_device(*d),
{
    match d.get("is_active") {
        Some(v) => match v.as_bool() {
            Some(b) => b,
            None => false,
        },
        None => false,
    }
}

fn device_is_computer(d: &Json) -> (b: bool)
    ensures
        b == is_computer(*d),
{
    match d.get("type") {
        Some(v) => match v.as_str() {
            Some(s) => crate::text::same_text(s.as_str(), "Computer"),
            None => false,
        },
        None => false,
    }
}

/// The device playback goes to, from the answer listing the devices.
pub fn device_choice(status: u16, body: &Json) -> (d: DeviceChoice)
    ensures
        device_choice_spec(status, *body, d),
{
    if is_expired_token_error(status) {
        return DeviceChoice::RefreshAndRetry;
    }
    if !is_success(status) {
        return DeviceChoice::Found(None);
    }
    let devices = match body.get("devices") {
        Some(v) => match v.as_array() {
            Some(ds) => ds,
            None => {
                return DeviceChoice::Found(None);
            },
        },
        None => {
            return DeviceChoice::Found(None);
        },
    };
    let ghost ds = devices@;
    assert(array_of(field(*body, "devices"@)) == Some(ds));
    let mut i: usize = 0;
    while i < devices.len()
        invariant
            ds == devices@,
            array_of(field(*body, "devices"@)) == Some(ds),
            i <= devices.len(),
            first_active_from(ds, 0) == first_active_from(ds, i as nat),
            status != 401 && success(status),
        decreases devices.len() - i,
    {
        if device_is_active(&devices[i]) {
            return DeviceChoice::Found(id_of(&devices[i]));
        }
        i = i + 1;
    }
    let mut k: usize = 0;
    while k < devices.len() && !device_is_computer(&devices[k])
        invariant
            ds == devices@,
            k <= devices.len(),
            first_computer_from(ds, 0) == first_computer_from(ds, k as nat),
        decreases devices.len() - k,
    {
        k = k + 1;
    }
    let candidate: Option<&Json> = if k < devices.len() {
        Some(&devices[k])
    } else if devices.len() > 0 {
        Some(&devices[0])
    } else {
        None
    };
    assert(deref_opt(candidate) == wake_candidate(ds));
    match candidate {
        Some(d) => match id_of(d) {
            Some(id) => DeviceChoice::TransferTo(id),
            None => DeviceChoice::Found(None),
        },
        None => DeviceChoice::Found(None),
    }
}

/// The text at `key` of an optional value, when it is a string.
fn text_at(j: Option<&Json>, key: &str) -> (r: Option<String>)
    ensures
        opt_view(r) == str_of(field_of(deref_opt(j), key@)),
{
    match j {
        Some(v) => match v.get(key) {
            Some(x) => match x.as_str() {
                Some(t) => Some(t.clone()),
                None => None,
            },
            None => None,
        },
        None => None,
    }
}

fn member<'a>(j: Option<&'a Json>, key: &str) -> (r: Option<&'a Json>)
    ensures
        deref_opt(r) == field_of(deref_opt(j), key@),
{
    match j {
        Some(v) => v.get(key),
        None => None,
    }
}

fn element<'a>(j: Option<&'a Json>, n: usize) -> (r: Option<&'a Json>)
    ensures
        deref_opt(r) == item_of(deref_opt(j), n as nat),
{
    match j {
        Some(v) => v.at(n),
        None => None,
    }
}

/// The song fields read from a "currently playing" answer: the item's name,
/// its first artist's name, its album's name, and the progress in
/// milliseconds rendered in decimal; `None` when any of them is missing.
pub open spec fn song_read(body: Json, r: Option<SongFields>) -> bool {
    let item = field(body, "item"@);
    let name = str_of(field_of(item, "name"@));
    let artist = str_of(field_of(item_of(field_of(item, "artists"@), 0), "name"@));
    let album = str_of(field_of(field_of(item, "album"@), "name"@));
    let progress = i64_of(field(body, "progress_ms"@));
    if name is Some && artist is Some && album is Some && progress is Some {
        r matches Some(f) && f.song_name@ == name.unwrap() && f.artist_name@ == artist.unwrap()
            && f.album_name@ == album.unwrap() && f.position@ == signed_decimal(
            progress.unwrap() as int,
        )
    } else {
        r is None
    }
}

/// The song fields of a "currently playing" answer.
pub fn parse_song(body: &Json) -> (r: Option<SongFields>)
    ensures
        song_read(*body, r),
{
    let item = body.get("item");
    let song_name = text_at(item, "name");
    let first_artist = element(member(item, "artists"), 0);
    let artist_name = text_at(first_artist, "name");
    let album_name = text_at(member(item, "album"), "name");
    let progress = match body.get("progress_ms") {
        Some(v) => v.as_i64(),
        None => None,
    };
    match (song_name, artist_name, album_name, progress) {
        (Some(song_name), Some(artist_name), Some(album_name), Some(p)) => Some(
            SongFields { song_name, artist_name, album_name, position: i64_to_string(p) },
        ),
        _ => None,
    }
}

/// What follows an answer about the currently playing song.
#[derive(Debug, Clone, PartialEq, Eq)]
pub enum CurrentSongStep {
    /// The access token expired: refresh it and ask once more.
    Refresh,
    /// The answer, read.
    Done(Option<SongFields>),
}

/// Whether `step` follows an answer with `status` and `body` (`None` when
/// it could not be read as JSON) to a request for the currently playing
/// song, made again after a token refresh when `refreshed`. No content
/// means nothing plays; the first answer is read only on success and
/// calls for a refresh when the token expired; the answer after a refresh
/// is read whatever its status.
pub open spec fn current_song_spec(status: u16, body: Option<Json>, refreshed: bool, step: CurrentSongStep) -> bool {
    if status == 204 || body is None {
        step == CurrentSongStep::Done(None)
    } else if !refreshed && status == 401 {
        step == CurrentSongStep::Refresh
    } else if !refreshed && !success(status) {
        step == CurrentSongStep::Done(None)
    } else {
        step matches CurrentSongStep::Done(r) && song_read(body.unwrap(), r)
    }
}

/// An answer with content that can be read is read, as `song_read` gives
/// its fields, whenever it is a success or follows a token refresh: a
/// successful answer is read whether or not a refresh came before it.
pub proof fn law_answer_is_read(status: u16, body: Json, refreshed: bool, step: CurrentSongStep)
    requires
        current_song_spec(status, Some(body), refreshed, step),
        status != 204,
        refreshed || (200 <= status && status <= 299),
    ensures
        step matches CurrentSongStep::Done(r) && song_read(body, r),
{
}

/// No content, or content that cannot be read, means nothing plays; a
/// first answer saying the token expired asks for a refresh; any other
/// first answer that is no success reports nothing.
pub proof fn law_unread_answers(status: u16, body: Option<Json>, refreshed: bool, step: CurrentSongStep)
    requires
        current_song_spec(status, body, refreshed, step),
    ensures
        status == 204 || body is None ==> step == CurrentSongStep::Done(None),
        status == 401 && !refreshed && body is Some ==> step == CurrentSongStep::Refresh,
        step == CurrentSongStep::Refresh ==> status == 401 && !refreshed,
        !refreshed && body is Some && status != 401 && (status < 200 || status > 299) ==> step
            == CurrentSongStep::Done(None),
{
}

/// What follows an answer about the currently playing song.
pub fn current_song_step(status: u16, body: Option<&Json>, refreshed: bool) -> (step: CurrentSongStep)
    ensures
        current_song_spec(status, deref_opt(body), refreshed, step),
{
    if is_no_content(status) {
        return CurrentSongStep::Done(None);
    }
    match body {
        None => CurrentSongStep::Done(None),
        Some(b) => if !refreshed && is_expired_token_error(status) {
            CurrentSongStep::Refresh
        } else if !refreshed && !is_success(status) {
            CurrentSongStep::Done(None)
        } else {
            CurrentSongStep::Done(parse_song(b))
        },
    }
}

/// The endpoint that pauses playback.
pub open spec fn pause_url() -> Seq<char> {
    "https://api.spotify.com/v1/me/player/pause"@
}

/// The endpoint that starts or resumes playback.
pub open spec fn play_url() -> Seq<char> {
    "https://api.spotify.com/v1/me/player/play"@
}

/// The endpoint that toggles playback, from the "currently playing"
/// answer: pause when it says the player is playing, else play.
pub fn toggle_endpoint(body: &Json) -> (url: String)
    ensures
        url@ == if bool_of(field(*body, "is_playing"@)) == Some(true) {
            pause_url()
        } else {
            play_url()
        },
{
    let playing = match body.get("is_playing") {
        Some(v) => match v.as_bool() {
            Some(b) => b,
            None => false,
        },
        None => false,
    };
    let mut url = String::new();
    if playing {
        push_seq(&mut url, "https://api.spotify.com/v1/me/player/pause");
    } else {
        push_seq(&mut url, "https://api.spotify.com/v1/me/player/play");
    }
    url
}

/// What follows the first answer of a play/pause toggle, the one about the
/// currently playing song.
#[derive(Debug, Clone, PartialEq, Eq)]
pub enum ToggleStep {
    /// Nothing is playing at all: there is nothing to toggle.
    NothingPlaying,
    /// The answer could not be read as JSON.
    Unreadable,
    /// The access token expired: refresh it and start over.
    RefreshAndRetry,
    /// Toggle with a request to this endpoint.
    Toggle(String),
}

/// Whether `step` follows an answer with `status` and `body` (`None` when it
/// could not be read as JSON) about the currently playing song, when
/// toggling play/pause: no content ends the toggle, an expired token calls
/// for a refresh, and otherwise the endpoint is chosen by `toggle_endpoint`.
pub open spec fn toggle_step_spec(status: u16, body: Option<Json>, step: ToggleStep) -> bool {
    if status == 204 {
        step == ToggleStep::NothingPlaying
    } else if body is None {
        step == ToggleStep::Unreadable
    } else if status == 401 {
        step == ToggleStep::RefreshAndRetry
    } else {
        step matches ToggleStep::Toggle(url) && url@ == if bool_of(field(body.unwrap(), "is_playing"@))
            == Some(true) {
            pause_url()
        } else {
            play_url()
        }
    }
}

/// What follows the answer about the currently playing song when toggling
/// play/pause.
pub fn toggle_step(status: u16, body: Option<&Json>) -> (step: ToggleStep)
    ensures
        toggle_step_spec(status, deref_opt(body), step),
{
    if is_no_content(status) {
        return ToggleStep::NothingPlaying;
    }
    match body {
        None => ToggleStep::Unreadable,
        Some(b) => if is_expired_token_error(status) {
            ToggleStep::RefreshAndRetry
        } else {
            ToggleStep::Toggle(toggle_endpoint(b))
        },
    }
}

/// The search query for a song: `track:<name> album:<album> artist:<artist>`.
pub open spec fn search_query_spec(track: Seq<char>, album: Seq<char>, artist: Seq<char>) -> Seq<char> {
    "track:"@ + track + " album:"@ + album + " artist:"@ + artist
}

/// The search query for a song.
pub fn search_query(track: &str, album: &str, artist: &str) -> (q: String)
    ensures
        q@ == search_query_spec(track@, album@, artist@),
{
    let mut q = String::new();
    push_seq(&mut q, "track:");
    push_seq(&mut q, track);
    push_seq(&mut q, " album:");
    push_seq(&mut q, album);
    push_seq(&mut q, " artist:");
    push_seq(&mut q, artist);
    q
}

/// What follows an answer to a track search.
#[derive(Debug, Clone, PartialEq, Eq)]
pub enum SearchOutcome {
    /// The access token expired: refresh it and search again.
    RefreshAndRetry,
    /// The search failed.
    Failed,
    /// No track matched.
    NotFound,
    /// The first match: its id and its album's URI (each empty when missing).
    Found { track_id: String, album_uri: String },
}

/// The text of an optional string, or the empty text.
pub open spec fn or_empty(o: Option<Seq<char>>) -> Seq<char> {
    match o {
        Some(s) => s,
        None => Seq::empty(),
    }
}

/// Whether `o` follows an answer with `status` and `body` to a track search.
pub open spec fn search_outcome_spec(status: u16, body: Json, o: SearchOutcome) -> bool {
    let first = item_of(field_of(field(body, "tracks"@), "items"@), 0);
    if status == 401 {
        o == SearchOutcome::RefreshAndRetry
    } else if !success(status) {
        o == SearchOutcome::Failed
    } else if first is None {
        o == SearchOutcome::NotFound
    } else {
        o matches SearchOutcome::Found { track_id, album_uri } && track_id@ == or_empty(
            str_of(field_of(first, "id"@)),
        ) && album_uri@ == or_empty(str_of(field_of(field_of(first, "album"@), "uri"@)))
    }
}

fn text_or_empty(o: Option<String>) -> (s: String)
    ensures
        s@ == or_empty(opt_view(o)),
{
    match o {
        Some(s) => s,
        None => String::new(),
    }
}

/// What follows an answer to a track search.
pub fn search_outcome(status: u16, body: &Json) -> (o: SearchOutcome)
    ensures
        search_outcome_spec(status, *body, o),
{
    if is_expired_token_error(status) {
        return SearchOutcome::RefreshAndRetry;
    }
    if !is_success(status) {
        return SearchOutcome::Failed;
    }
    let first = element(member(body.get("tracks"), "items"), 0);
    if first.is_none() {
        return SearchOutcome::NotFound;
    }
    let track_id = text_or_empty(text_at(first, "id"));
    let album_uri = text_or_empty(text_at(member(first, "album"), "uri"));
    SearchOutcome::Found { track_id, album_uri }
}

/// The URI of a track: `spotify:track:` and its id.
pub fn track_uri(track_id: &str) -> (u: String)
    ensures
        u@ == "spotify:track:"@ + track_id@,
{
    let mut u = String::new();
    push_seq(&mut u, "spotify:track:");
    push_seq(&mut u, track_id);
    u
}

/// A string value.
fn text_value(s: &str) -> (j: Json)
    ensures
        j matches Json::Str(t) && t@ == s@,
{
    let mut t = String::new();
    push_seq(&mut t, s);
    Json::Str(t)
}

/// A member name.
fn name(s: &str) -> (n: String)
    ensures
        n@ == s@,
{
    let mut n = String::new();
    push_seq(&mut n, s);
    n
}

/// Whether `j` is the string `s`.
pub open spec fn is_text(j: Json, s: Seq<char>) -> bool {
    match j {
        Json::Str(t) => t@ == s,
        _ => false,
    }
}

/// The shape of the body that starts an album at a track: exactly the two
/// members `context_uri` (the album) and `offset`, in this order, where
/// `offset` holds exactly the member `uri` (the track).
pub open spec fn play_body_shape(j: Json, album_uri: Seq<char>, track_uri: Seq<char>) -> bool {
    match j {
        Json::Object(fs) => {
            &&& fs@.len() == 2
            &&& fs@[0].0@ == "context_uri"@
            &&& is_text(fs@[0].1, album_uri)
            &&& fs@[1].0@ == "offset"@
            &&& match fs@[1].1 {
                Json::Object(os) => os@.len() == 1 && os@[0].0@ == "uri"@ && is_text(os@[0].1, track_uri),
                _ => false,
            }
        },
        _ => false,
    }
}

/// The shape of the body that moves playback to a device: exactly the two
/// members `device_ids` (an array holding only the device) and `play`
/// (true), in this order.
pub open spec fn transfer_body_shape(j: Json, device_id: Seq<char>) -> bool {
    match j {
        Json::Object(fs) => {
            &&& fs@.len() == 2
            &&& fs@[0].0@ == "device_ids"@
            &&& match fs@[0].1 {
                Json::Array(ids) => ids@.len() == 1 && is_text(ids@[0], device_id),
                _ => false,
            }
            &&& fs@[1].0@ == "play"@
            &&& fs@[1].1 == Json::Bool(true)
        },
        _ => false,
    }
}

/// The body that starts an album at a track: `context_uri` is the album,
/// `offset.uri` the track, and nothing else.
pub fn play_body(album_uri: String, track_uri: String) -> (j: Json)
    ensures
        play_body_shape(j, album_uri@, track_uri@),
        str_of(field(j, "context_uri"@)) == Some(album_uri@),
        str_of(field_of(field(j, "offset"@), "uri"@)) == Some(track_uri@),
{
    let mut offset: Vec<(String, Json)> = Vec::new();
    offset.push((name("uri"), Json::Str(track_uri)));
    let mut fields: Vec<(String, Json)> = Vec::new();
    fields.push((name("context_uri"), Json::Str(album_uri)));
    fields.push((name("offset"), Json::Object(offset)));
    proof {
        reveal_strlit("context_uri");
        reveal_strlit("offset");
        assert("context_uri"@[0] != "offset"@[0]);
        let fs = fields@;
        assert(fs.drop_first().drop_first() =~= Seq::<(String, Json)>::empty());
        assert(fs[0].0@ != "offset"@);
        assert(lookup(fs, "offset"@) == lookup(fs.drop_first(), "offset"@));
        assert(fs.drop_first()[0] == fs[1]);
        assert(offset@.drop_first() =~= Seq::<(String, Json)>::empty());
    }
    Json::Object(fields)
}

/// The body that moves playback to a device and starts it: `device_ids`
/// lists the device, `play` is true, and nothing else.
pub fn transfer_body(device_id: &str) -> (j: Json)
    ensures
        transfer_body_shape(j, device_id@),
        array_of(field(j, "device_ids"@)) matches Some(ids) && ids.len() == 1 && str_of(Some(ids[0]))
            == Some(device_id@),
        bool_of(field(j, "play"@)) == Some(true),
{
    let mut ids: Vec<Json> = Vec::new();
    ids.push(text_value(device_id));
    let mut fields: Vec<(String, Json)> = Vec::new();
    fields.push((name("device_ids"), Json::Array(ids)));
    fields.push((name("play"), Json::Bool(true)));
    proof {
        reveal_strlit("device_ids");
        reveal_strlit("play");
        assert("device_ids"@[0] != "play"@[0]);
        let fs = fields@;
        assert(fs.drop_first().drop_first() =~= Seq::<(String, Json)>::empty());
        assert(fs[0].0@ != "play"@);
        assert(lookup(fs, "play"@) == lookup(fs.drop_first(), "play"@));
        assert(fs.drop_first()[0] == fs[1]);
    }
    Json::Object(fields)
}

/// The `position_ms` query value of a seek: the position in decimal.
pub fn seek_query(position_ms: u64) -> (q: String)
    ensures
        q@ == decimal(position_ms as nat),
{
    u128_to_string(position_ms as u128)
}

} // verus!
